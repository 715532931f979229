//! Lowering of expressions.

use crate::generator::ir::{BinaryOp, Inst, IrType, Label, Op, Predicate, Value};
use crate::generator::lowering::{
    arithmetic, augmented, comparison, gen_expression_spec, lower_array, lower_assignment,
    lower_augmented, lower_binary, lower_block, lower_call, lower_conditional, lower_declaration,
    lower_expr, lower_field, lower_items, lower_while, merged, nothing,
};
use crate::generator::model::{GenErr, GenError, GenErrorKind, Slot};
use crate::generator::types::tag_to_type;
use crate::generator::Generator;
use crate::lexer::tokens::TokenType;
use crate::parser::ast::{expr_model, exprs_view, ExprValue};
use vstd::prelude::*;
use vstd::std_specs::vec::axiom_vec_index_decreases;

verus! {

/// The model of what lowering an expression returns.
pub open spec fn lowered_outcome(r: Result<(Value, IrType), GenError>) -> Result<
    (Value, IrType),
    GenErr,
> {
    match r {
        Ok(v) => Ok(v),
        Err(e) => Err(e@),
    }
}

/// The model of what lowering a list of expressions returns.
pub open spec fn items_outcome(r: Result<Vec<Value>, GenError>) -> Result<Seq<Value>, GenErr> {
    match r {
        Ok(v) => Ok(v@),
        Err(e) => Err(e@),
    }
}

/// The failure of the given kind about `subject`.
pub fn failure(kind: GenErrorKind, subject: &str) -> (r: GenError)
    ensures
        r@ == (GenErr { kind, subject: subject@ }),
{
    GenError { kind, subject: String::from_str(subject) }
}

/// The failure of the given kind about nothing in particular.
pub fn failure_of(kind: GenErrorKind) -> (r: GenError)
    ensures
        r@ == (GenErr { kind, subject: Seq::empty() }),
{
    GenError { kind, subject: String::new() }
}

/// The arithmetic operation that an operator stands for.
pub fn arithmetic_of(op: &TokenType) -> (r: Option<BinaryOp>)
    ensures
        r == arithmetic(op@),
{
    match op {
        TokenType::Plus => Some(BinaryOp::Add),
        TokenType::Minus => Some(BinaryOp::Sub),
        TokenType::Mul => Some(BinaryOp::Mul),
        TokenType::Div => Some(BinaryOp::SDiv),
        _ => None,
    }
}

/// The comparison that an operator stands for.
pub fn comparison_of(op: &TokenType) -> (r: Option<Predicate>)
    ensures
        r == comparison(op@),
{
    match op {
        TokenType::Equal => Some(Predicate::Eq),
        TokenType::NotEq => Some(Predicate::Ne),
        TokenType::Less => Some(Predicate::Slt),
        TokenType::Greater => Some(Predicate::Sgt),
        TokenType::LessEq => Some(Predicate::Sle),
        TokenType::GreaterEq => Some(Predicate::Sge),
        _ => None,
    }
}

/// The arithmetic operation that an operator of augmented assignment
/// stands for.
pub fn augmented_of(op: &TokenType) -> (r: Option<BinaryOp>)
    ensures
        r == augmented(op@),
{
    match op {
        TokenType::PlusEq => Some(BinaryOp::Add),
        TokenType::MinusEq => Some(BinaryOp::Sub),
        TokenType::MulEq => Some(BinaryOp::Mul),
        TokenType::DivEq => Some(BinaryOp::SDiv),
        _ => None,
    }
}

/// The value of a conditional, given the values of its condition, of its
/// branches and of their merge.
pub fn merge_value(
    cond: Value,
    then_: (Value, IrType),
    else_: (Value, IrType),
    phi: (Value, IrType),
) -> (r: (Value, IrType))
    ensures
        r == merged(cond, then_, else_, phi),
{
    match cond {
        Value::Bool(true) => then_,
        Value::Bool(false) => else_,
        _ => phi,
    }
}

impl Generator {
    /// Whether `new` and `r` are what lowering leaves and returns that
    /// started in this generator's state and is specified by `expected`.
    pub open spec fn lowers_to(
        &self,
        new: &Generator,
        r: Result<(Value, IrType), GenError>,
        expected: crate::generator::model::Lowered,
    ) -> bool {
        &&& new.wf()
        &&& new.program() == self.program()
        &&& new@.current_block is Some
        &&& new@ == expected.st
        &&& lowered_outcome(r) == expected.result
    }

    /// Lowers an expression: emits its operations and returns its value
    /// with the type of the value.
    pub fn gen_expression(&mut self, expression: &ExprValue) -> (r: Result<
        (Value, IrType),
        GenError,
    >)
        requires
            old(self).wf(),
        ensures
            final(self).wf(),
            final(self).program() == old(self).program(),
            final(self)@ == gen_expression_spec(old(self)@, expression@).st,
            lowered_outcome(r) == gen_expression_spec(old(self)@, expression@).result,
    {
        if self.block().is_none() {
            return Err(failure_of(GenErrorKind::NoInsertionPoint));
        }
        self.lower(expression)
    }

    /// Lowers an expression into the current block.
    pub fn lower(&mut self, e: &ExprValue) -> (r: Result<(Value, IrType), GenError>)
        requires
            old(self).wf(),
            old(self)@.current_block is Some,
        ensures
            old(self).lowers_to(final(self), r, lower_expr(old(self)@, e@)),
        decreases e, 1nat,
    {
        match e {
            ExprValue::Integer(i) => Ok((Value::Int(*i), IrType::I32)),
            ExprValue::Boolean(b) => Ok((Value::Bool(*b), IrType::Bool)),
            ExprValue::Str(s) => {
                let n: usize = s.as_str().as_bytes().len();
                if n > u32::MAX as usize {
                    return Err(failure(GenErrorKind::TooLarge, s.as_str()));
                }
                let id = self.emit(Op::ConstString { text: s.clone() });
                Ok((Value::Reg(id), IrType::Str(n as u32)))
            },
            ExprValue::Identifier(name) => match self.lookup_var(name.as_str()) {
                None => Err(failure(GenErrorKind::Unresolved, name.as_str())),
                Some(slot) => {
                    let v = self.emit_inst(Inst::Load { type_: slot.type_, ptr: slot.ptr });
                    Ok((v, slot.type_))
                },
            },
            ExprValue::Use(name) => Err(failure(GenErrorKind::UnsupportedUse, name.as_str())),
            ExprValue::Return(v) => match self.lower(&**v) {
                Err(x) => Err(x),
                Ok((value, t)) => {
                    let _ret = self.emit_inst(Inst::Ret { value });
                    Ok((value, t))
                },
            },
            ExprValue::UnOp(op, v) => {
                if matches!(**op, TokenType::Minus) {
                    match self.lower(&**v) {
                        Err(x) => Err(x),
                        Ok((operand, t)) => {
                            let r = self.emit_inst(Inst::Neg { operand });
                            Ok((r, t))
                        },
                    }
                } else if matches!(**op, TokenType::Not) {
                    match self.lower(&**v) {
                        Err(x) => Err(x),
                        Ok((operand, t)) => {
                            let r = self.emit_inst(Inst::Not { operand });
                            Ok((r, t))
                        },
                    }
                } else {
                    Err(failure_of(GenErrorKind::UnknownUnary))
                }
            },
            ExprValue::Array(_, _) => self.lower_array(e),
            ExprValue::VarDecl { .. } => self.lower_declaration(e),
            ExprValue::Assign { .. } => self.lower_assignment(e),
            ExprValue::AugAssign { .. } => self.lower_augmented(e),
            ExprValue::FnCall(_, _) => self.lower_call(e),
            ExprValue::BinOp(_, op, _) => {
                if matches!(**op, TokenType::Dot) {
                    self.lower_field(e)
                } else {
                    self.lower_binary(e)
                }
            },
            ExprValue::IfElse { .. } => self.lower_conditional(e),
            ExprValue::While(_, _) => self.lower_while(e),
        }
    }

    /// Lowers the expressions of `es`, in order, to their values.
    pub fn lower_items(&mut self, es: &Vec<ExprValue>) -> (r: Result<Vec<Value>, GenError>)
        requires
            old(self).wf(),
            old(self)@.current_block is Some,
        ensures
            final(self).wf(),
            final(self).program() == old(self).program(),
            final(self)@.current_block is Some,
            final(self)@ == lower_items(old(self)@, exprs_view(es@), 0, Seq::empty()).st,
            items_outcome(r) == lower_items(old(self)@, exprs_view(es@), 0, Seq::empty()).result,
        decreases es, 0nat,
    {
        let mut values: Vec<Value> = Vec::new();
        let mut i: usize = 0;
        while i < es.len()
            invariant
                i <= es.len(),
                self.wf(),
                self.program() == old(self).program(),
                self@.current_block is Some,
                lower_items(self@, exprs_view(es@), i as int, values@) == lower_items(
                    old(self)@,
                    exprs_view(es@),
                    0,
                    Seq::empty(),
                ),
            decreases es.len() - i,
        {
            proof {
                broadcast use axiom_vec_index_decreases;

                assert(exprs_view(es@)[i as int] == es@[i as int]@);
            }
            match self.lower(&es[i]) {
                Err(x) => {
                    return Err(x);
                },
                Ok((v, _)) => {
                    values.push(v);
                },
            }
            i += 1;
        }
        Ok(values)
    }

    /// Lowers the expressions of `es`, in order. Returns the value of the
    /// last one.
    pub fn lower_block(&mut self, es: &Vec<ExprValue>) -> (r: Result<(Value, IrType), GenError>)
        requires
            old(self).wf(),
            old(self)@.current_block is Some,
        ensures
            old(self).lowers_to(final(self), r, lower_block(old(self)@, exprs_view(es@), 0, nothing())),
        decreases es, 0nat,
    {
        let mut last: (Value, IrType) = (Value::Int(0), IrType::I32);
        let mut i: usize = 0;
        while i < es.len()
            invariant
                i <= es.len(),
                self.wf(),
                self.program() == old(self).program(),
                self@.current_block is Some,
                lower_block(self@, exprs_view(es@), i as int, last) == lower_block(
                    old(self)@,
                    exprs_view(es@),
                    0,
                    nothing(),
                ),
            decreases es.len() - i,
        {
            proof {
                broadcast use axiom_vec_index_decreases;

                assert(exprs_view(es@)[i as int] == es@[i as int]@);
            }
            match self.lower(&es[i]) {
                Err(x) => {
                    return Err(x);
                },
                Ok(v) => {
                    last = v;
                },
            }
            i += 1;
        }
        Ok(last)
    }

    /// Lowers an array literal.
    pub fn lower_array(&mut self, e: &ExprValue) -> (r: Result<(Value, IrType), GenError>)
        requires
            old(self).wf(),
            old(self)@.current_block is Some,
        ensures
            old(self).lowers_to(final(self), r, lower_array(old(self)@, e@)),
        decreases e, 0nat,
    {
        match e {
            ExprValue::Array(items, tag) => {
                let values: Vec<Value> = match self.lower_items(items) {
                    Err(x) => {
                        return Err(x);
                    },
                    Ok(v) => v,
                };
                match tag_to_type(tag.as_str()) {
                    None => Err(failure(GenErrorKind::UnknownType, tag.as_str())),
                    Some(elem) => {
                        let n: usize = values.len();
                        if n > u32::MAX as usize {
                            return Err(failure(GenErrorKind::TooLarge, tag.as_str()));
                        }
                        let id = self.emit(Op::ConstArray { elem, items: values });
                        Ok((Value::Reg(id), IrType::Array(n as u32, elem)))
                    },
                }
            },
            _ => Err(failure_of(GenErrorKind::UnsupportedOperator)),
        }
    }

    /// Lowers a declaration.
    pub fn lower_declaration(&mut self, e: &ExprValue) -> (r: Result<(Value, IrType), GenError>)
        requires
            old(self).wf(),
            old(self)@.current_block is Some,
        ensures
            old(self).lowers_to(final(self), r, lower_declaration(old(self)@, e@)),
        decreases e, 0nat,
    {
        match e {
            ExprValue::VarDecl { name, type_, value } => {
                if self.lookup_var(name.as_str()).is_some() {
                    return Err(failure(GenErrorKind::AlreadyExists, name.as_str()));
                }
                let t: IrType = match self.str_to_type(type_.as_str()) {
                    None => {
                        return Err(failure(GenErrorKind::UnknownType, type_.as_str()));
                    },
                    Some(t) => t,
                };
                if !self.has_scope() {
                    return Err(failure(GenErrorKind::NoScope, name.as_str()));
                }
                let ptr = self.emit_inst(Inst::Alloca { type_: t });
                self.bind_var(name.clone(), Slot { ptr, type_: t });
                self.note_declared(name.clone());
                match value {
                    None => Ok((ptr, t)),
                    Some(v) => match self.lower(&**v) {
                        Err(x) => Err(x),
                        Ok((value, vt)) => {
                            if vt != t {
                                return Err(failure(GenErrorKind::TypeMismatch, name.as_str()));
                            }
                            let r = self.emit_inst(Inst::Store { value, ptr });
                            Ok((r, vt))
                        },
                    },
                }
            },
            _ => Err(failure_of(GenErrorKind::UnsupportedOperator)),
        }
    }

    /// Lowers an assignment.
    pub fn lower_assignment(&mut self, e: &ExprValue) -> (r: Result<(Value, IrType), GenError>)
        requires
            old(self).wf(),
            old(self)@.current_block is Some,
        ensures
            old(self).lowers_to(final(self), r, lower_assignment(old(self)@, e@)),
        decreases e, 0nat,
    {
        match e {
            ExprValue::Assign { name, value } => match self.lookup_var(name.as_str()) {
                None => Err(failure(GenErrorKind::NoSuchVariable, name.as_str())),
                Some(slot) => match self.lower(&**value) {
                    Err(x) => Err(x),
                    Ok((value, t)) => {
                        let r = self.emit_inst(Inst::Store { value, ptr: slot.ptr });
                        Ok((r, t))
                    },
                },
            },
            _ => Err(failure_of(GenErrorKind::UnsupportedOperator)),
        }
    }

    /// Lowers an augmented assignment.
    pub fn lower_augmented(&mut self, e: &ExprValue) -> (r: Result<(Value, IrType), GenError>)
        requires
            old(self).wf(),
            old(self)@.current_block is Some,
        ensures
            old(self).lowers_to(final(self), r, lower_augmented(old(self)@, e@)),
        decreases e, 0nat,
    {
        match e {
            ExprValue::AugAssign { name, op, value } => {
                let operation: BinaryOp = match augmented_of(&**op) {
                    None => {
                        return Err(failure(GenErrorKind::UnsupportedOperator, name.as_str()));
                    },
                    Some(o) => o,
                };
                match self.lookup_var(name.as_str()) {
                    None => Err(failure(GenErrorKind::NoSuchVariable, name.as_str())),
                    Some(slot) => match self.lower(&**value) {
                        Err(x) => Err(x),
                        Ok((right, _)) => {
                            let left = self.emit_inst(
                                Inst::Load { type_: slot.type_, ptr: slot.ptr },
                            );
                            let sum = self.emit_inst(Inst::Binary { op: operation, left, right });
                            let _store = self.emit_inst(Inst::Store { value: sum, ptr: slot.ptr });
                            Ok((sum, slot.type_))
                        },
                    },
                }
            },
            _ => Err(failure_of(GenErrorKind::UnsupportedOperator)),
        }
    }

    /// Lowers a call of a function or of the constructor of a struct.
    pub fn lower_call(&mut self, e: &ExprValue) -> (r: Result<(Value, IrType), GenError>)
        requires
            old(self).wf(),
            old(self)@.current_block is Some,
        ensures
            old(self).lowers_to(final(self), r, lower_call(old(self)@, e@)),
        decreases e, 0nat,
    {
        match e {
            ExprValue::FnCall(name, args) => match self.find_struct(name.as_str()) {
                Some(k) => {
                    if args.len() != self.struct_arity(k) {
                        return Err(failure(GenErrorKind::ArityMismatch, name.as_str()));
                    }
                    let values: Vec<Value> = match self.lower_items(args) {
                        Err(x) => {
                            return Err(x);
                        },
                        Ok(v) => v,
                    };
                    let t = IrType::Struct(k);
                    let ptr = self.emit_inst(Inst::Alloca { type_: t });
                    let id = self.emit(Op::ConstStruct { struct_: k, values });
                    let _store = self.emit_inst(Inst::Store { value: Value::Reg(id), ptr });
                    Ok((Value::Reg(id), t))
                },
                None => {
                    let values: Vec<Value> = match self.lower_items(args) {
                        Err(x) => {
                            return Err(x);
                        },
                        Ok(v) => v,
                    };
                    match self.find_function(name.as_str()) {
                        None => Err(failure(GenErrorKind::NoSuchFunction, name.as_str())),
                        Some(sig) => {
                            let block: usize = match self.block() {
                                Some(b) => b,
                                None => 0,
                            };
                            let id = self.emit(Op::Call { block, callee: sig.op, args: values });
                            Ok((Value::Reg(id), sig.ret))
                        },
                    }
                },
            },
            _ => Err(failure_of(GenErrorKind::UnsupportedOperator)),
        }
    }

    /// Lowers the access to a field of a struct.
    pub fn lower_field(&mut self, e: &ExprValue) -> (r: Result<(Value, IrType), GenError>)
        requires
            old(self).wf(),
            old(self)@.current_block is Some,
        ensures
            old(self).lowers_to(final(self), r, lower_field(old(self)@, e@)),
        decreases e, 0nat,
    {
        proof {
            reveal_with_fuel(expr_model, 2);
        }
        match e {
            ExprValue::BinOp(l, _, r) => match &**r {
                ExprValue::Identifier(field) => match self.lower(&**l) {
                    Err(x) => Err(x),
                    Ok((ptr, t)) => match t {
                        IrType::Struct(k) => {
                            if k >= self.struct_count() {
                                return Err(failure(GenErrorKind::NotAStruct, field.as_str()));
                            }
                            match self.struct_field(k, field.as_str()) {
                                None => Err(failure(GenErrorKind::NoSuchField, field.as_str())),
                                Some(info) => match self.str_to_type(info.type_.as_str()) {
                                    None => Err(
                                        failure(GenErrorKind::UnknownType, info.type_.as_str()),
                                    ),
                                    Some(ft) => {
                                        let v = self.emit_inst(
                                            Inst::StructGep { type_: t, ptr, index: info.index as u32 },
                                        );
                                        Ok((v, ft))
                                    },
                                },
                            }
                        },
                        _ => Err(failure(GenErrorKind::NotAStruct, field.as_str())),
                    },
                },
                _ => Err(failure_of(GenErrorKind::FieldNotNamed)),
            },
            _ => Err(failure_of(GenErrorKind::UnsupportedOperator)),
        }
    }

    /// Lowers an arithmetic operation or a comparison.
    pub fn lower_binary(&mut self, e: &ExprValue) -> (r: Result<(Value, IrType), GenError>)
        requires
            old(self).wf(),
            old(self)@.current_block is Some,
        ensures
            old(self).lowers_to(final(self), r, lower_binary(old(self)@, e@)),
        decreases e, 0nat,
    {
        proof {
            reveal_with_fuel(expr_model, 2);
        }
        match e {
            ExprValue::BinOp(l, op, r) => {
                let operation = arithmetic_of(&**op);
                let pred = comparison_of(&**op);
                if operation.is_none() && pred.is_none() {
                    return Err(failure_of(GenErrorKind::UnsupportedOperator));
                }
                if matches!(**l, ExprValue::Str(_)) || matches!(**r, ExprValue::Str(_)) {
                    return Err(failure_of(GenErrorKind::StringOperand));
                }
                let (left, t) = match self.lower(&**l) {
                    Err(x) => {
                        return Err(x);
                    },
                    Ok(v) => v,
                };
                let (right, _) = match self.lower(&**r) {
                    Err(x) => {
                        return Err(x);
                    },
                    Ok(v) => v,
                };
                match operation {
                    Some(o) => {
                        let v = self.emit_inst(Inst::Binary { op: o, left, right });
                        Ok((v, t))
                    },
                    None => match pred {
                        Some(p) => {
                            let bit = self.emit_inst(Inst::ICmp { pred: p, left, right });
                            let v = self.emit_inst(Inst::ZExt { value: bit, type_: IrType::Bool });
                            Ok((v, IrType::Bool))
                        },
                        None => Err(failure_of(GenErrorKind::UnsupportedOperator)),
                    },
                }
            },
            _ => Err(failure_of(GenErrorKind::UnsupportedOperator)),
        }
    }

    /// Lowers a conditional.
    pub fn lower_conditional(&mut self, e: &ExprValue) -> (r: Result<(Value, IrType), GenError>)
        requires
            old(self).wf(),
            old(self)@.current_block is Some,
        ensures
            old(self).lowers_to(final(self), r, lower_conditional(old(self)@, e@)),
        decreases e, 0nat,
    {
        match e {
            ExprValue::IfElse { cond, if_, else_, type_ } => {
                if self.conditionals() >= 1 {
                    return Err(failure_of(GenErrorKind::TwoConditionals));
                }
                let elem = match tag_to_type(type_.as_str()) {
                    None => {
                        return Err(failure(GenErrorKind::UnknownType, type_.as_str()));
                    },
                    Some(t) => t,
                };
                let function: usize = match self.function() {
                    Some(f) => f,
                    None => 0,
                };
                let entry: usize = match self.block() {
                    Some(b) => b,
                    None => 0,
                };
                self.begin_conditional();
                let n: i32 = self.conditionals();
                let end = self.emit(Op::AppendBlock { function, label: Label::End(n) });
                let then_ = self.emit(Op::AppendBlock { function, label: Label::Then(n) });
                self.position_at(then_);
                let tv = match self.lower_block(if_) {
                    Err(x) => {
                        return Err(x);
                    },
                    Ok(v) => v,
                };
                let then_block: usize = match self.block() {
                    Some(b) => b,
                    None => 0,
                };
                let _jump = self.emit_inst(Inst::Br { target: end });
                let other = self.emit(Op::AppendBlock { function, label: Label::Else(n) });
                self.position_at(other);
                let fv = match self.lower_block(else_) {
                    Err(x) => {
                        return Err(x);
                    },
                    Ok(v) => v,
                };
                let else_block: usize = match self.block() {
                    Some(b) => b,
                    None => 0,
                };
                let _jump = self.emit_inst(Inst::Br { target: end });
                self.position_at(entry);
                let (cv, _) = match self.lower(&**cond) {
                    Err(x) => {
                        return Err(x);
                    },
                    Ok(v) => v,
                };
                let _branch = self.emit_inst(Inst::CondBr { cond: cv, then_, else_: other });
                self.position_at(end);
                let phi = self.emit_inst(
                    Inst::Phi {
                        type_: elem.as_type(),
                        then_value: tv.0,
                        then_block,
                        else_value: fv.0,
                        else_block,
                    },
                );
                Ok(merge_value(cv, tv, fv, (phi, elem.as_type())))
            },
            _ => Err(failure_of(GenErrorKind::UnsupportedOperator)),
        }
    }

    /// Lowers a loop.
    pub fn lower_while(&mut self, e: &ExprValue) -> (r: Result<(Value, IrType), GenError>)
        requires
            old(self).wf(),
            old(self)@.current_block is Some,
        ensures
            old(self).lowers_to(final(self), r, lower_while(old(self)@, e@)),
        decreases e, 0nat,
    {
        match e {
            ExprValue::While(cond, body) => {
                let function: usize = match self.function() {
                    Some(f) => f,
                    None => 0,
                };
                let check = self.emit(Op::AppendBlock { function, label: Label::WhileCond });
                let inner = self.emit(Op::AppendBlock { function, label: Label::WhileBody });
                let end = self.emit(Op::AppendBlock { function, label: Label::WhileEnd });
                let _jump = self.emit_inst(Inst::Br { target: check });
                self.position_at(check);
                let (cv, _) = match self.lower(&**cond) {
                    Err(x) => {
                        return Err(x);
                    },
                    Ok(v) => v,
                };
                let _branch = self.emit_inst(Inst::CondBr { cond: cv, then_: inner, else_: end });
                self.position_at(inner);
                match self.lower_block(body) {
                    Err(x) => {
                        return Err(x);
                    },
                    Ok(_) => {},
                }
                let _back = self.emit_inst(Inst::Br { target: check });
                self.position_at(end);
                Ok((Value::Int(0), IrType::I32))
            },
            _ => Err(failure_of(GenErrorKind::UnsupportedOperator)),
        }
    }
}

} // verus!
