//! Lowering of the syntax tree into the intermediate representation.
//!
//! What lowering computes is stated in [`lowering`] as functions on the
//! state of lowering, [`model::GenState`]. The [`Generator`] holds that
//! state, and its methods compute those functions.

pub mod class;
pub mod expression;
pub mod function;
pub mod ir;
pub mod laws;
pub mod lowering;
pub mod model;
pub mod program;
pub mod types;

use crate::generator::function::done_outcome;
use crate::generator::ir::{lemma_ops_view_push, ops_view, Inst, IrType, Op, OpModel, Value};
use crate::generator::lowering::{cleared, fields_in_order, gen_program_spec, register_fn};
use crate::generator::model::{
    at_block, bind, emit, emit_inst, enter, leave, lookup, lookup_fn, next_id, note, reg,
    unbound_all, FnSig, Functions, GenError, GenState, Layout, Slot, Structs, Vars,
};
use crate::names::{find, texts, NameMap};
use crate::parser::ast::{fields_view, program_view, AstNode, FieldInfo, NodePosition};
use crate::parser::toplevel::Fields;
use vstd::prelude::*;

verus! {

/// The layout of a struct: the operation that declares it, and its fields.
#[derive(Debug)]
pub struct StructLayout {
    pub handle: usize,
    pub fields: NameMap<FieldInfo>,
}

/// The model of a [`StructLayout`].
pub open spec fn layout_model(l: StructLayout) -> Layout {
    Layout {
        handle: l.handle,
        fields: Fields { names: l.fields.names(), infos: fields_view(l.fields.values()) },
    }
}

/// The models of a sequence of layouts.
pub open spec fn layouts_view(v: Seq<StructLayout>) -> Seq<Layout> {
    Seq::new(v.len(), |i: int| layout_model(v[i]))
}

/// The models of a stack of scope frames.
pub open spec fn frames_view(v: Seq<Vec<String>>) -> Seq<Seq<Seq<char>>> {
    Seq::new(v.len(), |i: int| texts(v[i]@))
}

/// Generates the intermediate representation of a program.
pub struct Generator {
    /// The root of the AST.
    program: Vec<(AstNode, NodePosition)>,
    /// The name of the module that is generated.
    name: String,
    /// The operations emitted so far.
    ops: Vec<Op>,
    /// The variables of the current function.
    local_vars: NameMap<Slot>,
    /// The names declared in each function that is being lowered.
    scope_var_names: Vec<Vec<String>>,
    current_fn: Option<usize>,
    current_block: Option<usize>,
    /// The number of conditionals in the current function.
    if_count: i32,
    structs: NameMap<StructLayout>,
    functions: NameMap<FnSig>,
}

impl View for Generator {
    type V = GenState;

    closed spec fn view(&self) -> GenState {
        GenState {
            ops: ops_view(self.ops@),
            vars: Vars { names: self.local_vars.names(), slots: self.local_vars.values() },
            frames: frames_view(self.scope_var_names@),
            current_fn: self.current_fn,
            current_block: self.current_block,
            if_count: self.if_count as int,
            structs: Structs {
                names: self.structs.names(),
                layouts: layouts_view(self.structs.values()),
            },
            functions: Functions { names: self.functions.names(), sigs: self.functions.values() },
        }
    }
}

impl Generator {
    /// The invariant of a generator: its tables are well formed, and so is
    /// its state.
    pub closed spec fn wf(&self) -> bool {
        &&& self.local_vars.wf()
        &&& self.structs.wf()
        &&& self.functions.wf()
        &&& forall|k: int|
            0 <= k < self.structs.values().len() ==> (#[trigger] self.structs.values()[k]).fields.wf()
        &&& self@.wf()
    }

    /// The program that the generator was made for.
    pub closed spec fn program(&self) -> Seq<(AstNode, NodePosition)> {
        self.program@
    }

    /// The name of the module that the generator was made for.
    pub closed spec fn module_name(&self) -> Seq<char> {
        self.name@
    }

    /// The state of a well-formed generator is well formed.
    pub proof fn lemma_state_wf(&self)
        requires
            self.wf(),
        ensures
            self@.wf(),
    {
    }

    /// The state before anything is lowered.
    pub open spec fn initial() -> GenState {
        GenState {
            ops: Seq::empty(),
            vars: Vars { names: Seq::empty(), slots: Seq::empty() },
            frames: Seq::empty(),
            current_fn: None,
            current_block: None,
            if_count: 0,
            structs: Structs { names: Seq::empty(), layouts: Seq::empty() },
            functions: Functions { names: Seq::empty(), sigs: Seq::empty() },
        }
    }

    /// Create a new generator from a program.
    ///
    /// # Arguments
    /// * `program` - The root of the AST.
    /// * `name` - The name of the module to be created.
    pub fn new(program: Vec<(AstNode, NodePosition)>, name: &str) -> (r: Self)
        ensures
            r.wf(),
            r@ == Self::initial(),
            r.program() == program@,
            r.module_name() == name@,
    {
        let r = Generator {
            program,
            name: String::from_str(name),
            ops: Vec::new(),
            local_vars: NameMap::new(),
            scope_var_names: Vec::new(),
            current_fn: None,
            current_block: None,
            if_count: 0,
            structs: NameMap::new(),
            functions: NameMap::new(),
        };
        assert(r@.ops =~= Seq::<OpModel>::empty());
        assert(r@.frames =~= Seq::<Seq<Seq<char>>>::empty());
        assert(r@.structs.layouts =~= Seq::<Layout>::empty());
        r
    }

    /// Declares the allocator of the runtime, `GC_malloc`, which takes a
    /// number of bytes.
    pub fn init(&mut self)
        requires
            old(self).wf(),
        ensures
            final(self).wf(),
            final(self).program() == old(self).program(),
            final(self)@ == register_fn(
                emit(
                    old(self)@,
                    OpModel::DeclareFunction {
                        name: "GC_malloc"@,
                        params: seq![IrType::I64],
                        ret: IrType::Void,
                        defined: false,
                    },
                ),
                "GC_malloc"@,
                FnSig { op: next_id(old(self)@), ret: IrType::Void },
            ),
    {
        let mut params: Vec<IrType> = Vec::new();
        params.push(IrType::I64);
        assert(params@ =~= seq![IrType::I64]);
        let id = self.emit(
            Op::DeclareFunction {
                name: String::from_str("GC_malloc"),
                params,
                ret: IrType::Void,
                defined: false,
            },
        );
        self.register_function(String::from_str("GC_malloc"), FnSig { op: id, ret: IrType::Void });
    }

    /// Lowers the program that the generator was made for.
    pub fn generate(&mut self) -> (r: Result<(), GenError>)
        requires
            old(self).wf(),
        ensures
            final(self).wf(),
            final(self).program() == old(self).program(),
            final(self)@ == gen_program_spec(old(self)@, program_view(old(self).program()), 0).st,
            done_outcome(r) == gen_program_spec(
                old(self)@,
                program_view(old(self).program()),
                0,
            ).result,
    {
        let mut program: Vec<(AstNode, NodePosition)> = Vec::new();
        core::mem::swap(&mut self.program, &mut program);
        let r = self.gen_program(&program);
        core::mem::swap(&mut self.program, &mut program);
        r
    }

    /// The operations emitted so far.
    pub fn ops(&self) -> (r: &Vec<Op>)
        ensures
            ops_view(r@) == self@.ops,
    {
        &self.ops
    }

    /// The name of the module.
    pub fn name(&self) -> (r: &String)
        ensures
            r@ == self.module_name(),
    {
        &self.name
    }

    /// Emits an operation. Returns its index.
    pub fn emit(&mut self, op: Op) -> (id: usize)
        requires
            old(self).wf(),
        ensures
            final(self).wf(),
            final(self).program() == old(self).program(),
            final(self)@ == emit(old(self)@, op@),
            id == next_id(old(self)@),
    {
        let id = self.ops.len();
        proof {
            lemma_ops_view_push(self.ops@, op);
        }
        self.ops.push(op);
        let _count: usize = self.ops.len();
        id
    }

    /// Appends an instruction to the current block. Returns the value that
    /// the instruction computes.
    pub fn emit_inst(&mut self, inst: Inst) -> (r: Value)
        requires
            old(self).wf(),
            old(self)@.current_block is Some,
        ensures
            final(self).wf(),
            final(self).program() == old(self).program(),
            final(self)@ == emit_inst(old(self)@, inst),
            r == reg(old(self)@),
    {
        let block: usize = match self.current_block {
            Some(b) => b,
            None => 0,
        };
        let id = self.emit(Op::Inst { block, inst });
        Value::Reg(id)
    }

    /// The block that instructions are appended to.
    pub fn block(&self) -> (r: Option<usize>)
        ensures
            r == self@.current_block,
    {
        self.current_block
    }

    /// The function that is being lowered.
    pub fn function(&self) -> (r: Option<usize>)
        ensures
            r == self@.current_fn,
    {
        self.current_fn
    }

    /// Makes `block` the block that instructions are appended to.
    pub fn position_at(&mut self, block: usize)
        requires
            old(self).wf(),
        ensures
            final(self).wf(),
            final(self).program() == old(self).program(),
            final(self)@ == at_block(old(self)@, block),
    {
        self.current_block = Some(block);
    }

    /// Makes `function` the current function, with no conditional yet.
    pub fn begin_function(&mut self, function: usize)
        requires
            old(self).wf(),
        ensures
            final(self).wf(),
            final(self).program() == old(self).program(),
            final(self)@ == (GenState { current_fn: Some(function), if_count: 0, ..old(self)@ }),
    {
        self.current_fn = Some(function);
        self.if_count = 0;
    }

    /// The number of conditionals in the current function.
    pub fn conditionals(&self) -> (r: i32)
        requires
            self.wf(),
        ensures
            r == self@.if_count,
            0 <= r <= 1,
    {
        self.if_count
    }

    /// Counts the conditional of the current function.
    pub fn begin_conditional(&mut self)
        requires
            old(self).wf(),
            old(self)@.if_count == 0,
        ensures
            final(self).wf(),
            final(self).program() == old(self).program(),
            final(self)@ == (GenState { if_count: old(self)@.if_count + 1, ..old(self)@ }),
    {
        self.if_count = self.if_count + 1;
    }

    /// The slot of the variable `name`.
    pub fn lookup_var(&self, name: &str) -> (r: Option<Slot>)
        requires
            self.wf(),
        ensures
            r == lookup(self@.vars, name@),
    {
        match self.local_vars.position(name) {
            Some(i) => Some(*self.local_vars.get(i)),
            None => None,
        }
    }

    /// Binds `name` to `slot`.
    pub fn bind_var(&mut self, name: String, slot: Slot)
        requires
            old(self).wf(),
        ensures
            final(self).wf(),
            final(self).program() == old(self).program(),
            final(self)@ == bind(old(self)@, name@, slot),
    {
        proof {
            self.local_vars.lemma_lengths();
        }
        self.local_vars.insert(name, slot);
        proof {
            self.local_vars.lemma_lengths();
        }
    }

    /// Unbinds every variable.
    pub fn clear_vars(&mut self)
        requires
            old(self).wf(),
        ensures
            final(self).wf(),
            final(self).program() == old(self).program(),
            final(self)@ == cleared(old(self)@),
    {
        self.local_vars.clear();
    }

    /// Whether a function is being lowered, so that there is a scope frame.
    pub fn has_scope(&self) -> (r: bool)
        ensures
            r == (self@.frames.len() > 0),
    {
        self.scope_var_names.len() > 0
    }

    /// Notes `name` in the innermost scope frame.
    pub fn note_declared(&mut self, name: String)
        requires
            old(self).wf(),
            old(self)@.frames.len() > 0,
        ensures
            final(self).wf(),
            final(self).program() == old(self).program(),
            final(self)@ == note(old(self)@, name@),
    {
        let mut top: Vec<String> = match self.scope_var_names.pop() {
            Some(t) => t,
            None => Vec::new(),
        };
        let ghost before = top@;
        top.push(name);
        assert(texts(top@) =~= texts(before).push(name@));
        self.scope_var_names.push(top);
        assert(self@.frames =~= old(self)@.frames.drop_last().push(
            old(self)@.frames.last().push(name@),
        ));
    }

    /// Pushes an empty scope frame.
    pub fn enter_scope(&mut self)
        requires
            old(self).wf(),
        ensures
            final(self).wf(),
            final(self).program() == old(self).program(),
            final(self)@ == enter(old(self)@),
    {
        let frame: Vec<String> = Vec::new();
        assert(texts(frame@) =~= Seq::<Seq<char>>::empty());
        self.scope_var_names.push(frame);
        assert(self@.frames =~= old(self)@.frames.push(Seq::empty()));
    }

    /// Pops the innermost scope frame, if there is one, and unbinds the
    /// variables that it names.
    pub fn leave_scope(&mut self)
        requires
            old(self).wf(),
        ensures
            final(self).wf(),
            final(self).program() == old(self).program(),
            final(self)@ == leave(old(self)@),
    {
        let frame: Vec<String> = match self.scope_var_names.pop() {
            Some(t) => t,
            None => {
                assert(self@.frames =~= old(self)@.frames);
                return ;
            },
        };
        assert(self@.frames =~= old(self)@.frames.drop_last());
        assert(texts(frame@) == old(self)@.frames.last());
        let ghost names = texts(frame@);
        let mut i: usize = 0;
        while i < frame.len()
            invariant
                i <= frame.len(),
                names == texts(frame@),
                names == old(self)@.frames.last(),
                old(self)@.frames.len() > 0,
                self.wf(),
                self.program() == old(self).program(),
                self@ == (GenState {
                    vars: self@.vars,
                    frames: old(self)@.frames.drop_last(),
                    ..old(self)@
                }),
                unbound_all(self@.vars, names, i as int) == unbound_all(old(self)@.vars, names, 0),
            decreases frame.len() - i,
        {
            proof {
                self.local_vars.lemma_lengths();
            }
            self.local_vars.remove(frame[i].as_str());
            proof {
                self.local_vars.lemma_lengths();
            }
            i += 1;
        }
    }

    /// The index of the struct `name` in the registry.
    pub fn find_struct(&self, name: &str) -> (r: Option<usize>)
        requires
            self.wf(),
        ensures
            match r {
                Some(k) => find(self@.structs.names, name@) == Some(k as int) && k
                    < self@.structs.layouts.len(),
                None => find(self@.structs.names, name@) is None,
            },
    {
        self.structs.position(name)
    }

    /// The number of structs in the registry.
    pub fn struct_count(&self) -> (r: usize)
        requires
            self.wf(),
        ensures
            r == self@.structs.layouts.len(),
    {
        self.structs.len()
    }

    /// The number of fields of the struct at index `k` of the registry.
    pub fn struct_arity(&self, k: usize) -> (r: usize)
        requires
            self.wf(),
            k < self@.structs.layouts.len(),
        ensures
            r == self@.structs.layouts[k as int].fields.names.len(),
    {
        self.structs.get(k).fields.len()
    }

    /// What the struct at index `k` of the registry knows of `field`.
    pub fn struct_field(&self, k: usize, field: &str) -> (r: Option<FieldInfo>)
        requires
            self.wf(),
            k < self@.structs.layouts.len(),
        ensures
            match r {
                Some(info) => {
                    let fields = self@.structs.layouts[k as int].fields;
                    &&& find(fields.names, field@) is Some
                    &&& info@ == fields.infos[find(fields.names, field@)->0]
                    &&& 0 <= info.index
                },
                None => find(self@.structs.layouts[k as int].fields.names, field@) is None,
            },
    {
        let layout = self.structs.get(k);
        proof {
            assert(self.structs.values()[k as int].fields.wf());
            assert(self@.structs.layouts[k as int] == layout_model(*layout));
            assert(crate::generator::model::layout_wf(self@.structs.layouts[k as int]));
        }
        match layout.fields.position(field) {
            Some(i) => {
                let info = layout.fields.get(i);
                proof {
                    let fields = self@.structs.layouts[k as int].fields;
                    assert(fields.infos[i as int] == info@);
                    assert(fields.infos[i as int].index == i);
                }
                Some(FieldInfo { type_: info.type_.clone(), index: info.index })
            },
            None => None,
        }
    }

    /// Registers the struct `name` with the given layout.
    pub fn register_struct(&mut self, name: String, handle: usize, fields: NameMap<FieldInfo>)
        requires
            old(self).wf(),
            fields.wf(),
            find(old(self)@.structs.names, name@) is None,
            fields_in_order(Fields { names: fields.names(), infos: fields_view(fields.values()) }),
        ensures
            final(self).wf(),
            final(self).program() == old(self).program(),
            final(self)@ == (GenState {
                structs: Structs {
                    names: old(self)@.structs.names.push(name@),
                    layouts: old(self)@.structs.layouts.push(
                        Layout {
                            handle,
                            fields: Fields {
                                names: fields.names(),
                                infos: fields_view(fields.values()),
                            },
                        },
                    ),
                },
                ..old(self)@
            }),
    {
        proof {
            self.structs.lemma_lengths();
        }
        let layout = StructLayout { handle, fields };
        let ghost model = layout_model(layout);
        self.structs.insert(name, layout);
        proof {
            self.structs.lemma_lengths();
            assert(self@.structs.layouts =~= old(self)@.structs.layouts.push(model));
            assert forall|k: int| 0 <= k < self.structs.values().len() implies (
            #[trigger] self.structs.values()[k]).fields.wf() by {
                if k < old(self).structs.values().len() {
                    assert(self.structs.values()[k] == old(self).structs.values()[k]);
                }
            }
            assert forall|k: int| 0 <= k < self@.structs.layouts.len() implies crate::generator::model::layout_wf(
                #[trigger] self@.structs.layouts[k],
            ) by {
                if k < old(self)@.structs.layouts.len() {
                    assert(self@.structs.layouts[k] == old(self)@.structs.layouts[k]);
                }
            }
        }
    }

    /// What is known of the function `name`.
    pub fn find_function(&self, name: &str) -> (r: Option<FnSig>)
        requires
            self.wf(),
        ensures
            r == lookup_fn(self@.functions, name@),
    {
        match self.functions.position(name) {
            Some(i) => Some(*self.functions.get(i)),
            None => None,
        }
    }

    /// Registers the function `name`.
    pub fn register_function(&mut self, name: String, sig: FnSig)
        requires
            old(self).wf(),
        ensures
            final(self).wf(),
            final(self).program() == old(self).program(),
            final(self)@ == register_fn(old(self)@, name@, sig),
    {
        proof {
            self.functions.lemma_lengths();
        }
        self.functions.insert(name, sig);
        proof {
            self.functions.lemma_lengths();
        }
    }
}

} // verus!
