//! Lowering as a function: from the state of lowering and a piece of the
//! syntax tree to the state behind it, with the operations that were
//! emitted, and to the value of the piece or an error.

use crate::generator::ir::{BinaryOp, Inst, IrType, Label, OpModel, Predicate, Value};
use crate::generator::model::{
    at_block, bind, block_of, byte_len, emit, emit_inst, enter, err, fn_of, leave, lookup,
    lookup_fn, named_type, next_id, note, ok, reg, tag_type, Done, FnSig, Functions, GenErr,
    GenErrorKind, GenState, Layout, Lowered, LoweredItems, Slot, Structs, Vars,
};
use crate::lexer::tokens::TokenKind;
use crate::names::{find, put_name, put_value};
use crate::parser::ast::{Expr, ExternalModel, FunctionModel, Node, NodePos};
use crate::parser::toplevel::Fields;
use vstd::prelude::*;

verus! {

/// The arithmetic operation that an operator stands for.
pub open spec fn arithmetic(op: TokenKind) -> Option<BinaryOp> {
    match op {
        TokenKind::Plus => Some(BinaryOp::Add),
        TokenKind::Minus => Some(BinaryOp::Sub),
        TokenKind::Mul => Some(BinaryOp::Mul),
        TokenKind::Div => Some(BinaryOp::SDiv),
        _ => None,
    }
}

/// The comparison that an operator stands for.
pub open spec fn comparison(op: TokenKind) -> Option<Predicate> {
    match op {
        TokenKind::Equal => Some(Predicate::Eq),
        TokenKind::NotEq => Some(Predicate::Ne),
        TokenKind::Less => Some(Predicate::Slt),
        TokenKind::Greater => Some(Predicate::Sgt),
        TokenKind::LessEq => Some(Predicate::Sle),
        TokenKind::GreaterEq => Some(Predicate::Sge),
        _ => None,
    }
}

/// The arithmetic operation that an operator of augmented assignment
/// stands for.
pub open spec fn augmented(op: TokenKind) -> Option<BinaryOp> {
    match op {
        TokenKind::PlusEq => Some(BinaryOp::Add),
        TokenKind::MinusEq => Some(BinaryOp::Sub),
        TokenKind::MulEq => Some(BinaryOp::Mul),
        TokenKind::DivEq => Some(BinaryOp::SDiv),
        _ => None,
    }
}

/// The value of a conditional: where the condition is a literal, the value
/// of the branch that the literal selects, and otherwise the merged value.
pub open spec fn merged(
    cond: Value,
    then_: (Value, IrType),
    else_: (Value, IrType),
    phi: (Value, IrType),
) -> (Value, IrType) {
    if cond == Value::Bool(true) {
        then_
    } else if cond == Value::Bool(false) {
        else_
    } else {
        phi
    }
}

/// Lowering of the expressions of `es` from index `i` on, in order, to
/// their values behind those in `acc`.
pub open spec fn lower_items(s: GenState, es: Seq<Expr>, i: int, acc: Seq<Value>) -> LoweredItems
    decreases es, es.len() - i,
{
    if 0 <= i < es.len() {
        let r = lower_expr(s, es[i]);
        match r.result {
            Err(e) => LoweredItems { st: r.st, result: Err(e) },
            Ok((v, _)) => lower_items(r.st, es, i + 1, acc.push(v)),
        }
    } else {
        LoweredItems { st: s, result: Ok(acc) }
    }
}

/// Lowering of the expressions of `es` from index `i` on, in order. The
/// value is that of the last expression, and `last` where there is none.
pub open spec fn lower_block(s: GenState, es: Seq<Expr>, i: int, last: (Value, IrType)) -> Lowered
    decreases es, es.len() - i,
{
    if 0 <= i < es.len() {
        let r = lower_expr(s, es[i]);
        match r.result {
            Err(e) => r,
            Ok(v) => lower_block(r.st, es, i + 1, v),
        }
    } else {
        ok(s, last.0, last.1)
    }
}

/// The value of a block without expressions.
pub open spec fn nothing() -> (Value, IrType) {
    (Value::Int(0), IrType::I32)
}

/// Lowering of an expression.
pub open spec fn lower_expr(s: GenState, e: Expr) -> Lowered
    decreases e, 1nat,
{
    match e {
        Expr::Integer(i) => ok(s, Value::Int(i), IrType::I32),
        Expr::Boolean(b) => ok(s, Value::Bool(b), IrType::Bool),
        Expr::Str(text) => if byte_len(text) > u32::MAX {
            err(s, GenErrorKind::TooLarge, text)
        } else {
            ok(emit(s, OpModel::ConstString { text }), reg(s), IrType::Str(byte_len(text) as u32))
        },
        Expr::Identifier(name) => match lookup(s.vars, name) {
            None => err(s, GenErrorKind::Unresolved, name),
            Some(slot) => ok(
                emit_inst(s, Inst::Load { type_: slot.type_, ptr: slot.ptr }),
                reg(s),
                slot.type_,
            ),
        },
        Expr::Use(name) => err(s, GenErrorKind::UnsupportedUse, name),
        Expr::Return(v) => {
            let r = lower_expr(s, *v);
            match r.result {
                Err(e) => r,
                Ok((value, t)) => ok(emit_inst(r.st, Inst::Ret { value }), value, t),
            }
        },
        Expr::UnOp(op, v) => if op is Minus {
            let r = lower_expr(s, *v);
            match r.result {
                Err(e) => r,
                Ok((operand, t)) => ok(emit_inst(r.st, Inst::Neg { operand }), reg(r.st), t),
            }
        } else if op is Not {
            let r = lower_expr(s, *v);
            match r.result {
                Err(e) => r,
                Ok((operand, t)) => ok(emit_inst(r.st, Inst::Not { operand }), reg(r.st), t),
            }
        } else {
            err(s, GenErrorKind::UnknownUnary, Seq::empty())
        },
        Expr::Array(_, _) => lower_array(s, e),
        Expr::VarDecl { .. } => lower_declaration(s, e),
        Expr::Assign { .. } => lower_assignment(s, e),
        Expr::AugAssign { .. } => lower_augmented(s, e),
        Expr::FnCall(_, _) => lower_call(s, e),
        Expr::BinOp(_, op, _) => if op is Dot {
            lower_field(s, e)
        } else {
            lower_binary(s, e)
        },
        Expr::IfElse { .. } => lower_conditional(s, e),
        Expr::While(_, _) => lower_while(s, e),
    }
}

/// Lowering of an array literal: its elements in order, then a constant
/// array of the type that its tag names.
pub open spec fn lower_array(s: GenState, e: Expr) -> Lowered
    decreases e, 0nat,
{
    match e {
        Expr::Array(items, tag) => {
            let a = lower_items(s, items, 0, Seq::empty());
            match a.result {
                Err(e) => Lowered { st: a.st, result: Err(e) },
                Ok(values) => match tag_type(tag) {
                    None => err(a.st, GenErrorKind::UnknownType, tag),
                    Some(elem) => if values.len() > u32::MAX {
                        err(a.st, GenErrorKind::TooLarge, tag)
                    } else {
                        ok(
                            emit(a.st, OpModel::ConstArray { elem, items: values }),
                            reg(a.st),
                            IrType::Array(values.len() as u32, elem),
                        )
                    },
                },
            }
        },
        _ => err(s, GenErrorKind::UnsupportedOperator, Seq::empty()),
    }
}

/// Lowering of a declaration: storage for the variable, the binding of its
/// name, a note of the name in the scope frame, and the store of the first
/// value where there is one.
pub open spec fn lower_declaration(s: GenState, e: Expr) -> Lowered
    decreases e, 0nat,
{
    match e {
        Expr::VarDecl { name, type_, value } => if lookup(s.vars, name) is Some {
            err(s, GenErrorKind::AlreadyExists, name)
        } else {
            match named_type(s.structs, type_) {
                None => err(s, GenErrorKind::UnknownType, type_),
                Some(t) => if s.frames.len() == 0 {
                    err(s, GenErrorKind::NoScope, name)
                } else {
                    let ptr = reg(s);
                    let s1 = note(
                        bind(emit_inst(s, Inst::Alloca { type_: t }), name, Slot { ptr, type_: t }),
                        name,
                    );
                    match value {
                        None => ok(s1, ptr, t),
                        Some(v) => {
                            let r = lower_expr(s1, *v);
                            match r.result {
                                Err(e) => r,
                                Ok((value, vt)) => if vt != t {
                                    err(r.st, GenErrorKind::TypeMismatch, name)
                                } else {
                                    ok(emit_inst(r.st, Inst::Store { value, ptr }), reg(r.st), vt)
                                },
                            }
                        },
                    }
                },
            }
        },
        _ => err(s, GenErrorKind::UnsupportedOperator, Seq::empty()),
    }
}

/// Lowering of an assignment: the value, and its store in the variable.
pub open spec fn lower_assignment(s: GenState, e: Expr) -> Lowered
    decreases e, 0nat,
{
    match e {
        Expr::Assign { name, value } => match lookup(s.vars, name) {
            None => err(s, GenErrorKind::NoSuchVariable, name),
            Some(slot) => {
                let r = lower_expr(s, *value);
                match r.result {
                    Err(e) => r,
                    Ok((value, t)) => ok(
                        emit_inst(r.st, Inst::Store { value, ptr: slot.ptr }),
                        reg(r.st),
                        t,
                    ),
                }
            },
        },
        _ => err(s, GenErrorKind::UnsupportedOperator, Seq::empty()),
    }
}

/// Lowering of an augmented assignment: the value, the load of the
/// variable, the operation on the two, and the store of what it computes.
pub open spec fn lower_augmented(s: GenState, e: Expr) -> Lowered
    decreases e, 0nat,
{
    match e {
        Expr::AugAssign { name, op, value } => match augmented(op) {
            None => err(s, GenErrorKind::UnsupportedOperator, name),
            Some(operation) => match lookup(s.vars, name) {
                None => err(s, GenErrorKind::NoSuchVariable, name),
                Some(slot) => {
                    let r = lower_expr(s, *value);
                    match r.result {
                        Err(e) => r,
                        Ok((right, _)) => {
                            let s1 = emit_inst(
                                r.st,
                                Inst::Load { type_: slot.type_, ptr: slot.ptr },
                            );
                            let s2 = emit_inst(
                                s1,
                                Inst::Binary { op: operation, left: reg(r.st), right },
                            );
                            let s3 = emit_inst(s2, Inst::Store { value: reg(s1), ptr: slot.ptr });
                            ok(s3, reg(s1), slot.type_)
                        },
                    }
                },
            },
        },
        _ => err(s, GenErrorKind::UnsupportedOperator, Seq::empty()),
    }
}

/// Lowering of a call. Where the name is that of a struct, the call builds
/// a value of the struct: the number of arguments is held against the number
/// of fields before anything is emitted; then come the arguments, storage
/// for the value, the constant of the struct type, and its store. Otherwise
/// the arguments are lowered and the function of that name is called.
pub open spec fn lower_call(s: GenState, e: Expr) -> Lowered
    decreases e, 0nat,
{
    match e {
        Expr::FnCall(name, args) => match find(s.structs.names, name) {
            Some(k) => if args.len() != s.structs.layouts[k].fields.names.len() {
                err(s, GenErrorKind::ArityMismatch, name)
            } else {
                let a = lower_items(s, args, 0, Seq::empty());
                match a.result {
                    Err(e) => Lowered { st: a.st, result: Err(e) },
                    Ok(values) => {
                        let t = IrType::Struct(k as usize);
                        let s1 = emit_inst(a.st, Inst::Alloca { type_: t });
                        let s2 = emit(s1, OpModel::ConstStruct { struct_: k as usize, values });
                        let s3 = emit_inst(s2, Inst::Store { value: reg(s1), ptr: reg(a.st) });
                        ok(s3, reg(s1), t)
                    },
                }
            },
            None => {
                let a = lower_items(s, args, 0, Seq::empty());
                match a.result {
                    Err(e) => Lowered { st: a.st, result: Err(e) },
                    Ok(values) => match lookup_fn(a.st.functions, name) {
                        None => err(a.st, GenErrorKind::NoSuchFunction, name),
                        Some(sig) => ok(
                            emit(
                                a.st,
                                OpModel::Call {
                                    block: block_of(a.st),
                                    callee: sig.op,
                                    args: values,
                                },
                            ),
                            reg(a.st),
                            sig.ret,
                        ),
                    },
                }
            },
        },
        _ => err(s, GenErrorKind::UnsupportedOperator, Seq::empty()),
    }
}

/// Lowering of the access to a field: the struct, and the address of the
/// field at its index in the layout of the struct's type. The value has the
/// type that the field was declared with.
pub open spec fn lower_field(s: GenState, e: Expr) -> Lowered
    decreases e, 0nat,
{
    match e {
        Expr::BinOp(l, _, r) => match *r {
            Expr::Identifier(field) => {
                let a = lower_expr(s, *l);
                match a.result {
                    Err(e) => a,
                    Ok((ptr, t)) => match t {
                        IrType::Struct(k) => if k < a.st.structs.layouts.len() {
                            let fields = a.st.structs.layouts[k as int].fields;
                            match find(fields.names, field) {
                                None => err(a.st, GenErrorKind::NoSuchField, field),
                                Some(i) => match named_type(a.st.structs, fields.infos[i].type_) {
                                    None => err(
                                        a.st,
                                        GenErrorKind::UnknownType,
                                        fields.infos[i].type_,
                                    ),
                                    Some(ft) => ok(
                                        emit_inst(
                                            a.st,
                                            Inst::StructGep {
                                                type_: t,
                                                ptr,
                                                index: fields.infos[i].index as u32,
                                            },
                                        ),
                                        reg(a.st),
                                        ft,
                                    ),
                                },
                            }
                        } else {
                            err(a.st, GenErrorKind::NotAStruct, field)
                        },
                        _ => err(a.st, GenErrorKind::NotAStruct, field),
                    },
                }
            },
            _ => err(s, GenErrorKind::FieldNotNamed, Seq::empty()),
        },
        _ => err(s, GenErrorKind::UnsupportedOperator, Seq::empty()),
    }
}

/// Lowering of an arithmetic operation or a comparison: the left operand,
/// the right operand, and the operation. An arithmetic operation has the
/// type of its left operand; a comparison is widened to a boolean.
pub open spec fn lower_binary(s: GenState, e: Expr) -> Lowered
    decreases e, 0nat,
{
    match e {
        Expr::BinOp(l, op, r) => if arithmetic(op) is None && comparison(op) is None {
            err(s, GenErrorKind::UnsupportedOperator, Seq::empty())
        } else if *l is Str || *r is Str {
            err(s, GenErrorKind::StringOperand, Seq::empty())
        } else {
            let a = lower_expr(s, *l);
            match a.result {
                Err(e) => a,
                Ok((left, t)) => {
                    let b = lower_expr(a.st, *r);
                    match b.result {
                        Err(e) => b,
                        Ok((right, _)) => match arithmetic(op) {
                            Some(operation) => ok(
                                emit_inst(b.st, Inst::Binary { op: operation, left, right }),
                                reg(b.st),
                                t,
                            ),
                            None => match comparison(op) {
                                Some(pred) => {
                                    let s1 = emit_inst(b.st, Inst::ICmp { pred, left, right });
                                    ok(
                                        emit_inst(
                                            s1,
                                            Inst::ZExt { value: reg(b.st), type_: IrType::Bool },
                                        ),
                                        reg(s1),
                                        IrType::Bool,
                                    )
                                },
                                None => err(b.st, GenErrorKind::UnsupportedOperator, Seq::empty()),
                            },
                        },
                    }
                },
            }
        },
        _ => err(s, GenErrorKind::UnsupportedOperator, Seq::empty()),
    }
}

/// Lowering of a conditional. A function holds one conditional: a second
/// one is refused. The blocks `end` and `then` are appended and the first
/// branch is lowered into `then`; the block `else` is appended and the
/// second branch is lowered into it; both end in a jump to `end`. The
/// condition is lowered into the block that was current before the
/// conditional, which ends in the jump to one of the branches. The block
/// `end` merges the values of the branches.
pub open spec fn lower_conditional(s: GenState, e: Expr) -> Lowered
    decreases e, 0nat,
{
    match e {
        Expr::IfElse { cond, if_, else_, type_ } => if s.if_count >= 1 {
            err(s, GenErrorKind::TwoConditionals, Seq::empty())
        } else {
            match tag_type(type_) {
                None => err(s, GenErrorKind::UnknownType, type_),
                Some(elem) => {
                    let function = fn_of(s);
                    let entry = block_of(s);
                    let n = (s.if_count + 1) as i32;
                    let s0 = GenState { if_count: s.if_count + 1, ..s };
                    let end = next_id(s0);
                    let s1 = emit(s0, OpModel::AppendBlock { function, label: Label::End(n) });
                    let then_ = next_id(s1);
                    let s2 = emit(s1, OpModel::AppendBlock { function, label: Label::Then(n) });
                    let t = lower_block(at_block(s2, then_), if_, 0, nothing());
                    match t.result {
                        Err(e) => t,
                        Ok(tv) => {
                            let s3 = emit_inst(t.st, Inst::Br { target: end });
                            let other = next_id(s3);
                            let s4 = emit(
                                s3,
                                OpModel::AppendBlock { function, label: Label::Else(n) },
                            );
                            let f = lower_block(at_block(s4, other), else_, 0, nothing());
                            match f.result {
                                Err(e) => f,
                                Ok(fv) => {
                                    let s5 = emit_inst(f.st, Inst::Br { target: end });
                                    let c = lower_expr(at_block(s5, entry), *cond);
                                    match c.result {
                                        Err(e) => c,
                                        Ok((cv, _)) => {
                                            let s6 = emit_inst(
                                                c.st,
                                                Inst::CondBr { cond: cv, then_, else_: other },
                                            );
                                            let s7 = at_block(s6, end);
                                            let phi = Inst::Phi {
                                                type_: elem.as_type(),
                                                then_value: tv.0,
                                                then_block: block_of(t.st),
                                                else_value: fv.0,
                                                else_block: block_of(f.st),
                                            };
                                            let m = merged(cv, tv, fv, (reg(s7), elem.as_type()));
                                            ok(emit_inst(s7, phi), m.0, m.1)
                                        },
                                    }
                                },
                            }
                        },
                    }
                },
            }
        },
        _ => err(s, GenErrorKind::UnsupportedOperator, Seq::empty()),
    }
}

/// Lowering of a loop. Blocks for the condition, the body and the end are
/// appended. The current block jumps to the condition, which is lowered
/// into its block and ends in the jump to the body or to the end. The body
/// is lowered into its block and jumps back to the condition. What follows
/// the loop goes to the end.
pub open spec fn lower_while(s: GenState, e: Expr) -> Lowered
    decreases e, 0nat,
{
    match e {
        Expr::While(cond, body) => {
            let function = fn_of(s);
            let check = next_id(s);
            let s1 = emit(s, OpModel::AppendBlock { function, label: Label::WhileCond });
            let inner = next_id(s1);
            let s2 = emit(s1, OpModel::AppendBlock { function, label: Label::WhileBody });
            let end = next_id(s2);
            let s3 = emit(s2, OpModel::AppendBlock { function, label: Label::WhileEnd });
            let s4 = emit_inst(s3, Inst::Br { target: check });
            let c = lower_expr(at_block(s4, check), *cond);
            match c.result {
                Err(e) => c,
                Ok((cv, _)) => {
                    let s5 = emit_inst(c.st, Inst::CondBr { cond: cv, then_: inner, else_: end });
                    let b = lower_block(at_block(s5, inner), body, 0, nothing());
                    match b.result {
                        Err(e) => b,
                        Ok(_) => {
                            let s6 = emit_inst(b.st, Inst::Br { target: check });
                            ok(at_block(s6, end), Value::Int(0), IrType::I32)
                        },
                    }
                },
            }
        },
        _ => err(s, GenErrorKind::UnsupportedOperator, Seq::empty()),
    }
}

/// Lowering of an expression wherever it stands: it is refused before the
/// first function has been begun, since its instructions have no block to
/// go to.
pub open spec fn gen_expression_spec(s: GenState, e: Expr) -> Lowered {
    if s.current_block is None {
        err(s, GenErrorKind::NoInsertionPoint, Seq::empty())
    } else {
        lower_expr(s, e)
    }
}

/// The types that the tags of `tags` name, from index `i` on, behind those
/// in `acc`; or the first tag that names none.
pub open spec fn types_of(structs: Structs, tags: Seq<Seq<char>>, i: int, acc: Seq<IrType>) -> Result<
    Seq<IrType>,
    GenErr,
>
    decreases tags.len() - i,
{
    if 0 <= i < tags.len() {
        match named_type(structs, tags[i]) {
            None => Err(GenErr { kind: GenErrorKind::UnknownType, subject: tags[i] }),
            Some(t) => types_of(structs, tags, i + 1, acc.push(t)),
        }
    } else {
        Ok(acc)
    }
}

/// The state with the function `name` registered.
pub open spec fn register_fn(s: GenState, name: Seq<char>, sig: FnSig) -> GenState {
    GenState {
        functions: Functions {
            names: put_name(s.functions.names, name),
            sigs: put_value(s.functions.names, s.functions.sigs, name, sig),
        },
        ..s
    }
}

/// The state after binding the parameters of the function `function` from
/// index `i` on: each parameter is named, gets storage, is bound to it
/// unless its name is `_`, and has its incoming value stored there.
pub open spec fn bind_params(
    s: GenState,
    function: usize,
    names: Seq<Seq<char>>,
    types: Seq<IrType>,
    i: int,
) -> GenState
    decreases names.len() - i,
{
    if 0 <= i < names.len() && i < types.len() {
        let s1 = emit(s, OpModel::NameParam { function, index: i as usize, name: names[i] });
        let ptr = reg(s1);
        let s2 = emit_inst(s1, Inst::Alloca { type_: types[i] });
        let s3 = if names[i] == "_"@ {
            s2
        } else {
            bind(s2, names[i], Slot { ptr, type_: types[i] })
        };
        let s4 = emit_inst(s3, Inst::Store { value: Value::Param(function, i as usize), ptr });
        bind_params(s4, function, names, types, i + 1)
    } else {
        s
    }
}

/// Failure of the given kind about `subject`, of a step without a value.
pub open spec fn refuse(st: GenState, kind: GenErrorKind, subject: Seq<char>) -> Done {
    Done { st, result: Err(GenErr { kind, subject }) }
}

/// Lowering of the declaration of an outside function: the function is
/// declared with the types of its parameters and of its result, and
/// registered under its name.
pub open spec fn gen_extern_spec(s: GenState, e: ExternalModel) -> Done {
    if e.args.name.len() != e.args.type_.len() {
        refuse(s, GenErrorKind::ArityMismatch, e.name)
    } else {
        match types_of(s.structs, e.args.type_, 0, Seq::empty()) {
            Err(x) => Done { st: s, result: Err(x) },
            Ok(params) => match named_type(s.structs, e.return_type) {
                None => refuse(s, GenErrorKind::UnknownType, e.return_type),
                Some(ret) => Done {
                    st: register_fn(
                        emit(
                            s,
                            OpModel::DeclareFunction { name: e.name, params, ret, defined: false },
                        ),
                        e.name,
                        FnSig { op: next_id(s), ret },
                    ),
                    result: Ok(()),
                },
            },
        }
    }
}

/// Whether the last expression of a body is a `return`.
pub open spec fn ends_in_return(body: Seq<Expr>) -> bool {
    body.len() > 0 && body.last() is Return
}

/// The state at the entry of the function `f`, whose parameters have the
/// types `params` and whose result has the type `ret`: the function is
/// declared and registered, and is the current function with no
/// conditional; its entry block is appended and is the current block; and
/// its parameters are bound.
pub open spec fn function_entry(s: GenState, f: FunctionModel, params: Seq<IrType>, ret: IrType) -> GenState {
    let function = next_id(s);
    let s1 = register_fn(
        emit(s, OpModel::DeclareFunction { name: f.name, params, ret, defined: true }),
        f.name,
        FnSig { op: function, ret },
    );
    let s2 = GenState { current_fn: Some(function), if_count: 0, ..s1 };
    let s3 = at_block(
        emit(s2, OpModel::AppendBlock { function, label: Label::Entry }),
        next_id(s2),
    );
    bind_params(s3, function, f.args.name, params, 0)
}

/// Lowering of the definition of a function. From the state at the entry
/// of the function a scope frame is pushed; the body is lowered; a body that
/// does not end in a `return` gets a `return` of 0; and the scope frame is
/// popped, which unbinds the variables that the body declared.
pub open spec fn gen_function_spec(s: GenState, f: FunctionModel) -> Done {
    if f.args.name.len() != f.args.type_.len() {
        refuse(s, GenErrorKind::ArityMismatch, f.name)
    } else {
        match types_of(s.structs, f.args.type_, 0, Seq::empty()) {
            Err(x) => Done { st: s, result: Err(x) },
            Ok(params) => match named_type(s.structs, f.return_type) {
                None => refuse(s, GenErrorKind::UnknownType, f.return_type),
                Some(ret) => {
                    let s4 = enter(function_entry(s, f, params, ret));
                    let b = lower_block(s4, f.expressions, 0, nothing());
                    match b.result {
                        Err(x) => Done { st: b.st, result: Err(x) },
                        Ok(_) => {
                            let s5 = if ends_in_return(f.expressions) {
                                b.st
                            } else {
                                emit_inst(b.st, Inst::Ret { value: Value::Int(0) })
                            };
                            Done { st: leave(s5), result: Ok(()) }
                        },
                    }
                },
            }
        }
    }
}

/// Whether the fields are a table with one entry per name and no name
/// twice, and are numbered from 0 in their order.
pub open spec fn fields_in_order(fields: Fields) -> bool {
    &&& fields.names.len() == fields.infos.len()
    &&& fields.names.no_duplicates()
    &&& fields.names.len() <= i32::MAX
    &&& forall|i: int| 0 <= i < fields.infos.len() ==> (#[trigger] fields.infos[i]).index == i
}

/// The type tags of the fields, in their order.
pub open spec fn field_tags(fields: Fields) -> Seq<Seq<char>> {
    Seq::new(fields.infos.len(), |i: int| fields.infos[i].type_)
}

/// Lowering of the declaration of a struct: the struct is declared with the
/// types of its fields in their order, and its layout is registered under
/// its name. A name that is registered keeps its layout: declaring it again
/// is refused.
pub open spec fn gen_struct_spec(s: GenState, name: Seq<char>, fields: Fields) -> Done {
    if find(s.structs.names, name) is Some {
        refuse(s, GenErrorKind::StructExists, name)
    } else if !fields_in_order(fields) {
        refuse(s, GenErrorKind::FieldOrder, name)
    } else {
        match types_of(s.structs, field_tags(fields), 0, Seq::empty()) {
            Err(x) => Done { st: s, result: Err(x) },
            Ok(types) => Done {
                st: GenState {
                    structs: Structs {
                        names: s.structs.names.push(name),
                        layouts: s.structs.layouts.push(Layout { handle: next_id(s), fields }),
                    },
                    ..emit(s, OpModel::DeclareStruct { name, fields: types })
                },
                result: Ok(()),
            },
        }
    }
}

/// The state without any variable.
pub open spec fn cleared(s: GenState) -> GenState {
    GenState { vars: Vars { names: Seq::empty(), slots: Seq::empty() }, ..s }
}

/// Lowering of a node of the top level, with no variable bound at its start.
pub open spec fn gen_node_spec(s: GenState, node: Node) -> Done {
    let s0 = cleared(s);
    match node {
        Node::FunctionDef(f) => gen_function_spec(s0, f),
        Node::Class(c) => refuse(s0, GenErrorKind::UnsupportedClass, c.name),
        Node::Expression(e) => {
            let r = gen_expression_spec(s0, e);
            match r.result {
                Ok(_) => Done { st: r.st, result: Ok(()) },
                Err(x) => Done { st: r.st, result: Err(x) },
            }
        },
        Node::Extern(e) => gen_extern_spec(s0, e),
        Node::Struct(name, names, infos) => gen_struct_spec(s0, name, Fields { names, infos }),
    }
}

/// Lowering of the nodes of a program from index `i` on, in order, up to
/// the first that fails.
pub open spec fn gen_program_spec(s: GenState, program: Seq<(Node, NodePos)>, i: int) -> Done
    decreases program.len() - i,
{
    if 0 <= i < program.len() {
        let r = gen_node_spec(s, program[i].0);
        match r.result {
            Err(x) => r,
            Ok(_) => gen_program_spec(r.st, program, i + 1),
        }
    } else {
        Done { st: s, result: Ok(()) }
    }
}

} // verus!
