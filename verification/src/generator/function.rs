//! Lowering of declarations and definitions of functions.

use crate::generator::expression::failure;
use crate::generator::ir::{Inst, IrType, Label, Op, Value};
use crate::generator::lowering::{
    bind_params, ends_in_return, gen_extern_spec, gen_function_spec, types_of,
};
use crate::generator::model::{FnSig, GenErr, GenError, GenErrorKind, Slot};
use crate::generator::Generator;
use crate::names::{same_text, texts};
use crate::parser::ast::{expr_model, exprs_view, ExprValue, External, Function};
use vstd::prelude::*;

verus! {

/// The model of what a step of lowering without a value returns.
pub open spec fn done_outcome(r: Result<(), GenError>) -> Result<(), GenErr> {
    match r {
        Ok(_) => Ok(()),
        Err(e) => Err(e@),
    }
}

/// The model of what the reading of a list of types returns.
pub open spec fn types_outcome(r: Result<Vec<IrType>, GenError>) -> Result<Seq<IrType>, GenErr> {
    match r {
        Ok(v) => Ok(v@),
        Err(e) => Err(e@),
    }
}

/// A copy of a list of types.
pub fn copy_types(types: &Vec<IrType>) -> (r: Vec<IrType>)
    ensures
        r@ == types@,
{
    let mut r: Vec<IrType> = Vec::new();
    let mut i: usize = 0;
    while i < types.len()
        invariant
            i <= types.len(),
            r@ == types@.take(i as int),
        decreases types.len() - i,
    {
        r.push(types[i]);
        i += 1;
        assert(types@.take(i as int) == types@.take(i - 1).push(types@[i - 1]));
    }
    assert(types@.take(i as int) == types@);
    r
}

/// Whether the last expression of a body is a `return`.
pub fn last_is_return(body: &Vec<ExprValue>) -> (r: bool)
    ensures
        r == ends_in_return(exprs_view(body@)),
{
    if body.len() == 0 {
        return false;
    }
    proof {
        assert(exprs_view(body@).last() == expr_model(body@[body@.len() - 1]));
    }
    matches!(body[body.len() - 1], ExprValue::Return(_))
}

impl Generator {
    /// The types that the tags name, in order; or the first tag that names
    /// no type.
    pub fn types_of(&self, tags: &Vec<String>) -> (r: Result<Vec<IrType>, GenError>)
        requires
            self.wf(),
        ensures
            types_outcome(r) == types_of(self@.structs, texts(tags@), 0, Seq::empty()),
            r matches Ok(v) ==> v.len() == tags.len(),
    {
        let mut types: Vec<IrType> = Vec::new();
        let mut i: usize = 0;
        while i < tags.len()
            invariant
                i <= tags.len(),
                types.len() == i,
                self.wf(),
                types_of(self@.structs, texts(tags@), i as int, types@) == types_of(
                    self@.structs,
                    texts(tags@),
                    0,
                    Seq::empty(),
                ),
            decreases tags.len() - i,
        {
            match self.str_to_type(tags[i].as_str()) {
                None => {
                    return Err(failure(GenErrorKind::UnknownType, tags[i].as_str()));
                },
                Some(t) => {
                    types.push(t);
                },
            }
            i += 1;
        }
        Ok(types)
    }

    /// Lowers the definition of a function.
    pub fn gen_function(&mut self, function: &Function) -> (r: Result<(), GenError>)
        requires
            old(self).wf(),
        ensures
            final(self).wf(),
            final(self).program() == old(self).program(),
            final(self)@ == gen_function_spec(old(self)@, function@).st,
            done_outcome(r) == gen_function_spec(old(self)@, function@).result,
    {
        let args = &function.args;
        if args.name.len() != args.type_.len() {
            return Err(failure(GenErrorKind::ArityMismatch, function.name.as_str()));
        }
        let params: Vec<IrType> = match self.types_of(&args.type_) {
            Err(x) => {
                return Err(x);
            },
            Ok(p) => p,
        };
        let ret: IrType = match self.str_to_type(function.return_type.as_str()) {
            None => {
                return Err(failure(GenErrorKind::UnknownType, function.return_type.as_str()));
            },
            Some(t) => t,
        };
        let id = self.emit(
            Op::DeclareFunction {
                name: function.name.clone(),
                params: copy_types(&params),
                ret,
                defined: true,
            },
        );
        self.register_function(function.name.clone(), FnSig { op: id, ret });
        self.begin_function(id);
        let entry = self.emit(Op::AppendBlock { function: id, label: Label::Entry });
        self.position_at(entry);
        let ghost begun = self@;
        let mut i: usize = 0;
        while i < args.name.len()
            invariant
                i <= args.name.len(),
                args.name.len() == params.len(),
                self.wf(),
                self.program() == old(self).program(),
                self@.current_block is Some,
                bind_params(self@, id, texts(args.name@), params@, i as int) == bind_params(
                    begun,
                    id,
                    texts(args.name@),
                    params@,
                    0,
                ),
            decreases args.name.len() - i,
        {
            let name = &args.name[i];
            let t: IrType = params[i];
            let _named = self.emit(Op::NameParam { function: id, index: i, name: name.clone() });
            let ptr = self.emit_inst(Inst::Alloca { type_: t });
            if !same_text(name.as_str(), "_") {
                self.bind_var(name.clone(), Slot { ptr, type_: t });
            }
            let _store = self.emit_inst(Inst::Store { value: Value::Param(id, i), ptr });
            i += 1;
        }
        self.enter_scope();
        match self.lower_block(&function.expressions) {
            Err(x) => {
                return Err(x);
            },
            Ok(_) => {},
        }
        if !last_is_return(&function.expressions) {
            let _ret = self.emit_inst(Inst::Ret { value: Value::Int(0) });
        }
        self.leave_scope();
        Ok(())
    }

    /// Lowers the declaration of an outside function.
    pub fn gen_extern(&mut self, function: &External) -> (r: Result<(), GenError>)
        requires
            old(self).wf(),
        ensures
            final(self).wf(),
            final(self).program() == old(self).program(),
            final(self)@ == gen_extern_spec(old(self)@, function@).st,
            done_outcome(r) == gen_extern_spec(old(self)@, function@).result,
    {
        let args = &function.args;
        if args.name.len() != args.type_.len() {
            return Err(failure(GenErrorKind::ArityMismatch, function.name.as_str()));
        }
        let params: Vec<IrType> = match self.types_of(&args.type_) {
            Err(x) => {
                return Err(x);
            },
            Ok(p) => p,
        };
        let ret: IrType = match self.str_to_type(function.return_type.as_str()) {
            None => {
                return Err(failure(GenErrorKind::UnknownType, function.return_type.as_str()));
            },
            Some(t) => t,
        };
        let id = self.emit(
            Op::DeclareFunction { name: function.name.clone(), params, ret, defined: false },
        );
        self.register_function(function.name.clone(), FnSig { op: id, ret });
        Ok(())
    }
}

} // verus!
