//! Lowering of whole programs.

use crate::generator::function::done_outcome;
use crate::generator::lowering::{gen_node_spec, gen_program_spec};
use crate::generator::model::GenError;
use crate::generator::Generator;
use crate::parser::ast::{program_view, AstNode, NodePosition};
use vstd::prelude::*;

verus! {

impl Generator {
    /// Lowers a node of the top level.
    pub fn gen_node(&mut self, node: &AstNode) -> (r: Result<(), GenError>)
        requires
            old(self).wf(),
        ensures
            final(self).wf(),
            final(self).program() == old(self).program(),
            final(self)@ == gen_node_spec(old(self)@, node@).st,
            done_outcome(r) == gen_node_spec(old(self)@, node@).result,
    {
        self.clear_vars();
        match node {
            AstNode::FunctionDef(f) => self.gen_function(f),
            AstNode::Class(c) => self.gen_class(c),
            AstNode::Expression(e) => match self.gen_expression(e) {
                Ok(_) => Ok(()),
                Err(x) => Err(x),
            },
            AstNode::Extern(e) => self.gen_extern(e),
            AstNode::Struct(n, s) => self.gen_struct(n, s),
        }
    }

    /// Lowers the nodes of a program in order, up to the first that fails.
    pub fn gen_program(&mut self, program: &Vec<(AstNode, NodePosition)>) -> (r: Result<
        (),
        GenError,
    >)
        requires
            old(self).wf(),
        ensures
            final(self).wf(),
            final(self).program() == old(self).program(),
            final(self)@ == gen_program_spec(old(self)@, program_view(program@), 0).st,
            done_outcome(r) == gen_program_spec(old(self)@, program_view(program@), 0).result,
    {
        let mut i: usize = 0;
        while i < program.len()
            invariant
                i <= program.len(),
                self.wf(),
                self.program() == old(self).program(),
                gen_program_spec(self@, program_view(program@), i as int) == gen_program_spec(
                    old(self)@,
                    program_view(program@),
                    0,
                ),
            decreases program.len() - i,
        {
            assert(program_view(program@)[i as int].0 == program@[i as int].0@);
            match self.gen_node(&program[i].0) {
                Err(x) => {
                    return Err(x);
                },
                Ok(_) => {},
            }
            i += 1;
        }
        Ok(())
    }
}

} // verus!
