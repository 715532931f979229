//! What holds of lowering on every program.

use crate::generator::ir::{Inst, IrType, Label, OpModel, Value};
use crate::generator::lowering::{
    bind_params, ends_in_return, function_entry, gen_function_spec, lower_array, lower_assignment,
    lower_augmented, lower_binary, lower_block, lower_call, lower_conditional, lower_declaration,
    lower_expr, lower_field, lower_items, lower_while, nothing, register_fn, types_of,
};
use crate::generator::model::{
    at_block, bind, bound, emit, emit_inst, enter, err, lookup, named_type, next_id, note, ok, reg,
    tag_type, unbound, unbound_all, FnSig, GenErrorKind, GenState, Slot, Vars,
};
use crate::names::{find, lemma_find_unique};
use crate::parser::ast::{Expr, FunctionModel};
use vstd::prelude::*;

verus! {

/// Arity of constructors. A call of the constructor of a struct with a
/// number of arguments other than the number of the struct's fields fails,
/// and leaves the state as it was: nothing is emitted, no storage is
/// allocated.
pub proof fn lemma_arity_checked_first(s: GenState, name: Seq<char>, args: Seq<Expr>)
    requires
        find(s.structs.names, name) is Some,
        args.len() != s.structs.layouts[find(s.structs.names, name)->0].fields.names.len(),
    ensures
        lower_expr(s, Expr::FnCall(name, args)) == err(s, GenErrorKind::ArityMismatch, name),
{
    assert(lower_call(s, Expr::FnCall(name, args)) == err(s, GenErrorKind::ArityMismatch, name));
}

/// One conditional per function. Where the current function holds a
/// conditional already, a conditional fails, and leaves the state as it was.
pub proof fn lemma_second_conditional_refused(
    s: GenState,
    cond: Expr,
    if_: Seq<Expr>,
    else_: Seq<Expr>,
    type_: Seq<char>,
)
    requires
        s.if_count >= 1,
    ensures
        lower_expr(s, Expr::IfElse { cond: Box::new(cond), if_, else_, type_ }) == err(
            s,
            GenErrorKind::TwoConditionals,
            Seq::empty(),
        ),
{
    let e = Expr::IfElse { cond: Box::new(cond), if_, else_, type_ };
    assert(lower_conditional(s, e) == err(s, GenErrorKind::TwoConditionals, Seq::empty()));
}

/// Duplicate declarations. The declaration of a name that is bound fails,
/// and leaves the state as it was.
pub proof fn lemma_duplicate_declaration_refused(
    s: GenState,
    name: Seq<char>,
    type_: Seq<char>,
    value: Option<Box<Expr>>,
)
    requires
        lookup(s.vars, name) is Some,
    ensures
        lower_expr(s, Expr::VarDecl { name, type_, value }) == err(
            s,
            GenErrorKind::AlreadyExists,
            name,
        ),
{
    let e = Expr::VarDecl { name, type_, value };
    assert(lower_declaration(s, e) == err(s, GenErrorKind::AlreadyExists, name));
}

/// Merge of a conditional on a literal. A conditional whose condition is
/// the literal `true` and whose branches are the literals `a` and `b` has
/// the value `a`; with the literal `false` it has the value `b`.
pub proof fn lemma_conditional_on_literal(s: GenState, c: bool, a: i32, b: i32, type_: Seq<char>)
    requires
        s.if_count == 0,
        tag_type(type_) is Some,
    ensures
        lower_expr(
            s,
            Expr::IfElse {
                cond: Box::new(Expr::Boolean(c)),
                if_: seq![Expr::Integer(a)],
                else_: seq![Expr::Integer(b)],
                type_,
            },
        ).result == Ok::<(Value, IrType), crate::generator::model::GenErr>(
            (
                Value::Int(
                    if c {
                        a
                    } else {
                        b
                    },
                ),
                IrType::I32,
            ),
        ),
{
    reveal_with_fuel(lower_block, 3);
    let e = Expr::IfElse {
        cond: Box::new(Expr::Boolean(c)),
        if_: seq![Expr::Integer(a)],
        else_: seq![Expr::Integer(b)],
        type_,
    };
    let function = crate::generator::model::fn_of(s);
    let n = (s.if_count + 1) as i32;
    let s0 = GenState { if_count: s.if_count + 1, ..s };
    let s1 = emit(s0, OpModel::AppendBlock { function, label: Label::End(n) });
    let then_ = next_id(s1);
    let s2 = emit(s1, OpModel::AppendBlock { function, label: Label::Then(n) });
    let t = lower_block(at_block(s2, then_), seq![Expr::Integer(a)], 0, nothing());
    assert(lower_expr(at_block(s2, then_), seq![Expr::Integer(a)][0]) == ok(
        at_block(s2, then_),
        Value::Int(a),
        IrType::I32,
    ));
    assert(t == ok(at_block(s2, then_), Value::Int(a), IrType::I32));
    let s3 = emit_inst(t.st, Inst::Br { target: next_id(s0) });
    let other = next_id(s3);
    let s4 = emit(s3, OpModel::AppendBlock { function, label: Label::Else(n) });
    let f = lower_block(at_block(s4, other), seq![Expr::Integer(b)], 0, nothing());
    assert(lower_expr(at_block(s4, other), seq![Expr::Integer(b)][0]) == ok(
        at_block(s4, other),
        Value::Int(b),
        IrType::I32,
    ));
    assert(f == ok(at_block(s4, other), Value::Int(b), IrType::I32));
    assert(lower_conditional(s, e).result == Ok::<(Value, IrType), crate::generator::model::GenErr>(
        (
            Value::Int(
                if c {
                    a
                } else {
                    b
                },
            ),
            IrType::I32,
        ),
    ));
}

/// Whether a table of variables has one slot per name and no name twice.
pub open spec fn vars_wf(v: Vars) -> bool {
    v.names.len() == v.slots.len() && v.names.no_duplicates()
}

/// The names that `t` binds behind those that `s` binds.
pub open spec fn added(s: GenState, t: GenState) -> Seq<Seq<char>> {
    t.vars.names.skip(s.vars.names.len() as int)
}

/// Whether `t` is a state that lowering inside a function can reach from
/// `s`: the registries and the current function are the same, the count of
/// conditionals is not smaller, and the variables of `s` are bound as they
/// were; the variables bound behind them are exactly the names noted behind
/// those of `s` in the innermost scope frame, in the same order.
pub open spec fn grows(s: GenState, t: GenState) -> bool {
    &&& t.structs == s.structs
    &&& t.functions == s.functions
    &&& t.current_fn == s.current_fn
    &&& s.if_count <= t.if_count
    &&& (s.current_block is Some ==> t.current_block is Some)
    &&& vars_wf(t.vars)
    &&& s.vars.names.len() <= t.vars.names.len()
    &&& t.vars.names.take(s.vars.names.len() as int) == s.vars.names
    &&& t.vars.slots.take(s.vars.names.len() as int) == s.vars.slots
    &&& if s.frames.len() > 0 {
        t.frames == s.frames.drop_last().push(s.frames.last() + added(s, t))
    } else {
        t.frames == s.frames && t.vars == s.vars
    }
}

/// A state that differs from `s` in its operations, its current block and
/// a larger count of conditionals only can be reached from `s`.
pub proof fn lemma_grows_same(s: GenState, t: GenState)
    requires
        vars_wf(s.vars),
        t.structs == s.structs,
        t.functions == s.functions,
        t.current_fn == s.current_fn,
        s.if_count <= t.if_count,
        s.current_block is Some ==> t.current_block is Some,
        t.vars == s.vars,
        t.frames == s.frames,
    ensures
        grows(s, t),
{
    assert(t.vars.names.take(s.vars.names.len() as int) =~= s.vars.names);
    assert(t.vars.slots.take(s.vars.names.len() as int) =~= s.vars.slots);
    assert(added(s, t) =~= Seq::<Seq<char>>::empty());
    if s.frames.len() > 0 {
        assert(s.frames.last() + added(s, t) =~= s.frames.last());
        assert(s.frames.drop_last().push(s.frames.last()) =~= s.frames);
    }
}

/// What can be reached from a reachable state can be reached.
pub proof fn lemma_grows_trans(a: GenState, b: GenState, c: GenState)
    requires
        vars_wf(a.vars),
        grows(a, b),
        grows(b, c),
    ensures
        grows(a, c),
{
    let na = a.vars.names.len() as int;
    let nb = b.vars.names.len() as int;
    assert(c.vars.names.take(na) =~= a.vars.names) by {
        assert forall|i: int| 0 <= i < na implies c.vars.names.take(na)[i] == a.vars.names[i] by {
            assert(c.vars.names.take(nb)[i] == b.vars.names[i]);
            assert(b.vars.names.take(na)[i] == a.vars.names[i]);
        }
    }
    assert(c.vars.slots.take(na) =~= a.vars.slots) by {
        assert forall|i: int| 0 <= i < na implies c.vars.slots.take(na)[i] == a.vars.slots[i] by {
            assert(c.vars.slots.take(nb)[i] == b.vars.slots[i]);
            assert(b.vars.slots.take(na)[i] == a.vars.slots[i]);
        }
    }
    if a.frames.len() > 0 {
        assert(added(a, c) =~= added(a, b) + added(b, c)) by {
            assert forall|i: int| 0 <= i < added(a, c).len() implies added(a, c)[i] == (added(a, b)
                + added(b, c))[i] by {
                if i < nb - na {
                    assert(c.vars.names.take(nb)[i + na] == b.vars.names[i + na]);
                }
            }
        }
        let fb = a.frames.drop_last().push(a.frames.last() + added(a, b));
        assert(b.frames == fb);
        assert(b.frames.drop_last() =~= a.frames.drop_last());
        assert(b.frames.last() == a.frames.last() + added(a, b));
        assert(b.frames.last() + added(b, c) =~= a.frames.last() + added(a, c));
    } else {
        assert(b.frames.len() == 0);
    }
}

/// A variable that is bound stays bound in every state that can be reached.
pub proof fn lemma_grows_keeps_bound(s: GenState, t: GenState, name: Seq<char>)
    requires
        vars_wf(s.vars),
        grows(s, t),
        lookup(s.vars, name) is Some,
    ensures
        lookup(t.vars, name) == lookup(s.vars, name),
{
    let i = s.vars.names.index_of(name);
    assert(s.vars.names.contains(name));
    assert(0 <= i < s.vars.names.len() && s.vars.names[i] == name);
    assert(t.vars.names.take(s.vars.names.len() as int)[i] == name);
    assert(t.vars.slots.take(s.vars.names.len() as int)[i] == s.vars.slots[i]);
    assert(t.vars.names[i] == name);
    lemma_find_unique(t.vars.names, i);
}

/// The declaration of an unbound name in a function reaches a state in
/// which the name is bound.
pub proof fn lemma_grows_declared(s: GenState, inst: Inst, name: Seq<char>, slot: Slot)
    requires
        vars_wf(s.vars),
        lookup(s.vars, name) is None,
        s.frames.len() > 0,
    ensures
        grows(s, note(bind(emit_inst(s, inst), name, slot), name)),
        lookup(note(bind(emit_inst(s, inst), name, slot), name).vars, name) == Some(slot),
{
    let t = note(bind(emit_inst(s, inst), name, slot), name);
    let n = s.vars.names.len() as int;
    assert(find(s.vars.names, name) is None);
    assert(t.vars.names == s.vars.names.push(name));
    assert(t.vars.slots == s.vars.slots.push(slot));
    assert(t.vars.names.take(n) =~= s.vars.names);
    assert(t.vars.slots.take(n) =~= s.vars.slots);
    assert(added(s, t) =~= seq![name]);
    assert(s.frames.last() + added(s, t) =~= s.frames.last().push(name));
    assert(t.vars.names.no_duplicates()) by {
        assert forall|i: int, j: int|
            0 <= i < t.vars.names.len() && 0 <= j < t.vars.names.len() && i != j implies t.vars.names[i]
            != t.vars.names[j] by {
            if i == n {
                assert(s.vars.names[j] != name) by {
                    if s.vars.names[j] == name {
                        assert(s.vars.names.contains(name));
                    }
                }
            } else if j == n {
                assert(s.vars.names[i] != name) by {
                    if s.vars.names[i] == name {
                        assert(s.vars.names.contains(name));
                    }
                }
            }
        }
    }
    assert(t.vars.names[n] == name);
    lemma_find_unique(t.vars.names, n);
}

/// Lowering of an expression reaches a state that can be reached. A
/// conditional that is lowered is counted, and a declaration that is
/// lowered binds its name.
pub proof fn lemma_lower_expr_grows(s: GenState, e: Expr)
    requires
        vars_wf(s.vars),
        0 <= s.if_count,
    ensures
        lower_expr(s, e).result is Ok ==> grows(s, lower_expr(s, e).st),
        lower_expr(s, e).result is Ok && e is IfElse ==> lower_expr(s, e).st.if_count >= 1,
        lower_expr(s, e).result is Ok ==> (e matches Expr::VarDecl { name, .. } ==> lookup(
            lower_expr(s, e).st.vars,
            name,
        ) is Some),
    decreases e, 1nat,
{
    let r = lower_expr(s, e);
    if r.result is Ok {
        match e {
            Expr::Integer(_) | Expr::Boolean(_) => {
                lemma_grows_same(s, r.st);
            },
            Expr::Str(_) | Expr::Identifier(_) => {
                lemma_grows_same(s, r.st);
            },
            Expr::Use(_) => {},
            Expr::Return(v) => {
                lemma_lower_expr_grows(s, *v);
                let a = lower_expr(s, *v);
                lemma_grows_same(a.st, r.st);
                lemma_grows_trans(s, a.st, r.st);
            },
            Expr::UnOp(_, v) => {
                lemma_lower_expr_grows(s, *v);
                let a = lower_expr(s, *v);
                lemma_grows_same(a.st, r.st);
                lemma_grows_trans(s, a.st, r.st);
            },
            Expr::Array(items, _) => {
                lemma_lower_items_grows(s, items, 0, Seq::empty());
                let a = lower_items(s, items, 0, Seq::empty());
                assert(r == lower_array(s, e));
                lemma_grows_same(a.st, r.st);
                lemma_grows_trans(s, a.st, r.st);
            },
            Expr::VarDecl { .. } => {
                lemma_declaration_grows(s, e);
            },
            Expr::Assign { name, value } => {
                assert(r == lower_assignment(s, e));
                lemma_lower_expr_grows(s, *value);
                let a = lower_expr(s, *value);
                lemma_grows_same(a.st, r.st);
                lemma_grows_trans(s, a.st, r.st);
            },
            Expr::AugAssign { name, op, value } => {
                assert(r == lower_augmented(s, e));
                lemma_lower_expr_grows(s, *value);
                let a = lower_expr(s, *value);
                lemma_grows_same(a.st, r.st);
                lemma_grows_trans(s, a.st, r.st);
            },
            Expr::FnCall(name, args) => {
                assert(r == lower_call(s, e));
                lemma_lower_items_grows(s, args, 0, Seq::empty());
                let a = lower_items(s, args, 0, Seq::empty());
                lemma_grows_same(a.st, r.st);
                lemma_grows_trans(s, a.st, r.st);
            },
            Expr::BinOp(l, op, right) => {
                if op is Dot {
                    assert(r == lower_field(s, e));
                    lemma_lower_expr_grows(s, *l);
                    let a = lower_expr(s, *l);
                    lemma_grows_same(a.st, r.st);
                    lemma_grows_trans(s, a.st, r.st);
                } else {
                    assert(r == lower_binary(s, e));
                    lemma_lower_expr_grows(s, *l);
                    let a = lower_expr(s, *l);
                    lemma_lower_expr_grows(a.st, *right);
                    let b = lower_expr(a.st, *right);
                    lemma_grows_trans(s, a.st, b.st);
                    lemma_grows_same(b.st, r.st);
                    lemma_grows_trans(s, b.st, r.st);
                }
            },
            Expr::IfElse { .. } => {
                lemma_conditional_grows(s, e);
            },
            Expr::While(_, _) => {
                lemma_while_grows(s, e);
            },
        }
    }
}

/// A declaration that is lowered reaches a state that can be reached, in
/// which its name is bound.
pub proof fn lemma_declaration_grows(s: GenState, e: Expr)
    requires
        vars_wf(s.vars),
        0 <= s.if_count,
        e is VarDecl,
    ensures
        lower_expr(s, e).result is Ok ==> grows(s, lower_expr(s, e).st),
        lower_expr(s, e).result is Ok ==> (e matches Expr::VarDecl { name, .. } ==> lookup(
            lower_expr(s, e).st.vars,
            name,
        ) is Some),
    decreases e, 0nat,
{
    let r = lower_expr(s, e);
    if r.result is Ok {
        match e {
            Expr::VarDecl { name, type_, value } => {
                assert(r == lower_declaration(s, e));
                let t = named_type(s.structs, type_)->0;
                let slot = Slot { ptr: reg(s), type_: t };
                let s1 = note(bind(emit_inst(s, Inst::Alloca { type_: t }), name, slot), name);
                lemma_grows_declared(s, Inst::Alloca { type_: t }, name, slot);
                match value {
                    None => {},
                    Some(v) => {
                        lemma_lower_expr_grows(s1, *v);
                        let a = lower_expr(s1, *v);
                        lemma_grows_same(a.st, r.st);
                        lemma_grows_trans(s1, a.st, r.st);
                        lemma_grows_trans(s, s1, r.st);
                        lemma_grows_keeps_bound(s1, r.st, name);
                    },
                }
            },
            _ => {},
        }
    }
}

/// A conditional that is lowered reaches a state that can be reached, in
/// which it is counted.
pub proof fn lemma_conditional_grows(s: GenState, e: Expr)
    requires
        vars_wf(s.vars),
        0 <= s.if_count,
        e is IfElse,
    ensures
        lower_expr(s, e).result is Ok ==> grows(s, lower_expr(s, e).st),
        lower_expr(s, e).result is Ok ==> lower_expr(s, e).st.if_count >= 1,
    decreases e, 0nat,
{
    let r = lower_expr(s, e);
    if r.result is Ok {
        match e {
            Expr::IfElse { cond, if_, else_, type_ } => {
                assert(r == lower_conditional(s, e));
                let function = crate::generator::model::fn_of(s);
                let entry = crate::generator::model::block_of(s);
                let n = (s.if_count + 1) as i32;
                let s0 = GenState { if_count: s.if_count + 1, ..s };
                let end = next_id(s0);
                let s1 = emit(s0, OpModel::AppendBlock { function, label: Label::End(n) });
                let then_ = next_id(s1);
                let s2 = emit(s1, OpModel::AppendBlock { function, label: Label::Then(n) });
                let p = at_block(s2, then_);
                lemma_grows_same(s, p);
                lemma_lower_block_grows(p, if_, 0, nothing());
                let t = lower_block(p, if_, 0, nothing());
                lemma_grows_trans(s, p, t.st);
                let s3 = emit_inst(t.st, Inst::Br { target: end });
                let other = next_id(s3);
                let s4 = emit(s3, OpModel::AppendBlock { function, label: Label::Else(n) });
                let q = at_block(s4, other);
                lemma_grows_same(t.st, q);
                lemma_grows_trans(s, t.st, q);
                lemma_lower_block_grows(q, else_, 0, nothing());
                let f = lower_block(q, else_, 0, nothing());
                lemma_grows_trans(s, q, f.st);
                let s5 = emit_inst(f.st, Inst::Br { target: end });
                let w = at_block(s5, entry);
                lemma_grows_same(f.st, w);
                lemma_grows_trans(s, f.st, w);
                lemma_lower_expr_grows(w, *cond);
                let c = lower_expr(w, *cond);
                lemma_grows_trans(s, w, c.st);
                lemma_grows_same(c.st, r.st);
                lemma_grows_trans(s, c.st, r.st);
            },
            _ => {},
        }
    }
}

/// A loop that is lowered reaches a state that can be reached.
pub proof fn lemma_while_grows(s: GenState, e: Expr)
    requires
        vars_wf(s.vars),
        0 <= s.if_count,
        e is While,
    ensures
        lower_expr(s, e).result is Ok ==> grows(s, lower_expr(s, e).st),
    decreases e, 0nat,
{
    let r = lower_expr(s, e);
    if r.result is Ok {
        match e {
            Expr::While(cond, body) => {
                assert(r == lower_while(s, e));
                let function = crate::generator::model::fn_of(s);
                let check = next_id(s);
                let s1 = emit(s, OpModel::AppendBlock { function, label: Label::WhileCond });
                let inner = next_id(s1);
                let s2 = emit(s1, OpModel::AppendBlock { function, label: Label::WhileBody });
                let end = next_id(s2);
                let s3 = emit(s2, OpModel::AppendBlock { function, label: Label::WhileEnd });
                let s4 = emit_inst(s3, Inst::Br { target: check });
                let p = at_block(s4, check);
                lemma_grows_same(s, p);
                lemma_lower_expr_grows(p, *cond);
                let c = lower_expr(p, *cond);
                lemma_grows_trans(s, p, c.st);
                let s5 = emit_inst(c.st, Inst::CondBr { cond: c.result->Ok_0.0, then_: inner, else_: end });
                let q = at_block(s5, inner);
                lemma_grows_same(c.st, q);
                lemma_grows_trans(s, c.st, q);
                lemma_lower_block_grows(q, body, 0, nothing());
                let b = lower_block(q, body, 0, nothing());
                lemma_grows_trans(s, q, b.st);
                lemma_grows_same(b.st, r.st);
                lemma_grows_trans(s, b.st, r.st);
            },
            _ => {},
        }
    }
}

/// Lowering of a list of expressions to their values reaches a state that
/// can be reached.
pub proof fn lemma_lower_items_grows(s: GenState, es: Seq<Expr>, i: int, acc: Seq<Value>)
    requires
        vars_wf(s.vars),
        0 <= s.if_count,
    ensures
        lower_items(s, es, i, acc).result is Ok ==> grows(s, lower_items(s, es, i, acc).st),
    decreases es, es.len() - i,
{
    if 0 <= i < es.len() {
        let r = lower_expr(s, es[i]);
        lemma_lower_expr_grows(s, es[i]);
        if r.result is Ok {
            lemma_lower_items_grows(r.st, es, i + 1, acc.push(r.result->Ok_0.0));
            if lower_items(s, es, i, acc).result is Ok {
                lemma_grows_trans(s, r.st, lower_items(s, es, i, acc).st);
            }
        }
    } else {
        lemma_grows_same(s, s);
    }
}

/// Lowering of a block reaches a state that can be reached.
pub proof fn lemma_lower_block_grows(s: GenState, es: Seq<Expr>, i: int, last: (Value, IrType))
    requires
        vars_wf(s.vars),
        0 <= s.if_count,
    ensures
        lower_block(s, es, i, last).result is Ok ==> grows(s, lower_block(s, es, i, last).st),
    decreases es, es.len() - i,
{
    if 0 <= i < es.len() {
        let r = lower_expr(s, es[i]);
        lemma_lower_expr_grows(s, es[i]);
        if r.result is Ok {
            lemma_lower_block_grows(r.st, es, i + 1, r.result->Ok_0);
            if lower_block(s, es, i, last).result is Ok {
                lemma_grows_trans(s, r.st, lower_block(s, es, i, last).st);
            }
        }
    } else {
        lemma_grows_same(s, s);
    }
}

/// Binding a name keeps a table of variables well formed.
pub proof fn lemma_bound_wf(v: Vars, name: Seq<char>, slot: Slot)
    requires
        vars_wf(v),
    ensures
        vars_wf(bound(v, name, slot)),
{
    let t = bound(v, name, slot);
    if find(v.names, name) is None {
        let n = v.names.len() as int;
        assert forall|i: int, j: int|
            0 <= i < t.names.len() && 0 <= j < t.names.len() && i != j implies t.names[i]
            != t.names[j] by {
            if i == n {
                if v.names[j] == name {
                    assert(v.names.contains(name));
                }
            } else if j == n {
                if v.names[i] == name {
                    assert(v.names.contains(name));
                }
            }
        }
    } else {
        let i = v.names.index_of(name);
        assert(v.names.contains(name));
    }
}

/// Binding the parameters of a function keeps the table of variables well
/// formed, and leaves the scope frames and the count of conditionals as
/// they were.
pub proof fn lemma_bind_params_keeps(
    s: GenState,
    function: usize,
    names: Seq<Seq<char>>,
    types: Seq<IrType>,
    i: int,
)
    requires
        vars_wf(s.vars),
    ensures
        vars_wf(bind_params(s, function, names, types, i).vars),
        bind_params(s, function, names, types, i).frames == s.frames,
        bind_params(s, function, names, types, i).if_count == s.if_count,
        bind_params(s, function, names, types, i).structs == s.structs,
    decreases names.len() - i,
{
    if 0 <= i < names.len() && i < types.len() {
        let s1 = emit(s, OpModel::NameParam { function, index: i as usize, name: names[i] });
        let ptr = reg(s1);
        let s2 = emit_inst(s1, Inst::Alloca { type_: types[i] });
        let s3 = if names[i] == "_"@ {
            s2
        } else {
            bind(s2, names[i], Slot { ptr, type_: types[i] })
        };
        lemma_bound_wf(s2.vars, names[i], Slot { ptr, type_: types[i] });
        let s4 = emit_inst(s3, Inst::Store { value: Value::Param(function, i as usize), ptr });
        lemma_bind_params_keeps(s4, function, names, types, i + 1);
    }
}

/// Unbinding, in order, the names that were bound behind a table of
/// variables gives that table.
pub proof fn lemma_unbind_declared(base: Vars, d: Seq<Seq<char>>, x: Seq<Slot>, i: int)
    requires
        0 <= i <= d.len(),
        d.len() == x.len(),
        base.names.len() == base.slots.len(),
        (base.names + d).no_duplicates(),
    ensures
        unbound_all(Vars { names: base.names + d.skip(i), slots: base.slots + x.skip(i) }, d, i)
            == base,
    decreases d.len() - i,
{
    let cur = Vars { names: base.names + d.skip(i), slots: base.slots + x.skip(i) };
    let n = base.names.len() as int;
    if i < d.len() {
        assert(cur.names.no_duplicates()) by {
            assert forall|a: int, b: int|
                0 <= a < cur.names.len() && 0 <= b < cur.names.len() && a != b implies cur.names[a]
                != cur.names[b] by {
                let ia = if a < n {
                    a
                } else {
                    a + i
                };
                let ib = if b < n {
                    b
                } else {
                    b + i
                };
                assert(cur.names[a] == (base.names + d)[ia]);
                assert(cur.names[b] == (base.names + d)[ib]);
            }
        }
        assert(cur.names[n] == d[i]);
        lemma_find_unique(cur.names, n);
        let next = unbound(cur, d[i]);
        assert(next.names =~= base.names + d.skip(i + 1));
        assert(next.slots =~= base.slots + x.skip(i + 1));
        lemma_unbind_declared(base, d, x, i + 1);
    } else {
        assert(cur.names =~= base.names);
        assert(cur.slots =~= base.slots);
    }
}

/// Scope hygiene. Where lowering of a function succeeds, the scope frames
/// are as they were before the function, and the variables that are bound
/// are those of the state at the entry of the function: the parameters, and
/// what was bound before. Every variable that the body declared is unbound.
pub proof fn lemma_function_scope(s: GenState, f: FunctionModel)
    requires
        vars_wf(s.vars),
        gen_function_spec(s, f).result is Ok,
    ensures
        ({
            let params = types_of(s.structs, f.args.type_, 0, Seq::empty())->Ok_0;
            let ret = named_type(s.structs, f.return_type)->0;
            &&& gen_function_spec(s, f).st.vars == function_entry(s, f, params, ret).vars
            &&& gen_function_spec(s, f).st.frames == s.frames
        }),
{
    let params = types_of(s.structs, f.args.type_, 0, Seq::empty())->Ok_0;
    let ret = named_type(s.structs, f.return_type)->0;
    let function = next_id(s);
    let s1 = register_fn(
        emit(s, OpModel::DeclareFunction { name: f.name, params, ret, defined: true }),
        f.name,
        FnSig { op: function, ret },
    );
    let s2 = GenState { current_fn: Some(function), if_count: 0, ..s1 };
    let s3 = at_block(emit(s2, OpModel::AppendBlock { function, label: Label::Entry }), next_id(s2));
    lemma_bind_params_keeps(s3, function, f.args.name, params, 0);
    let entry = function_entry(s, f, params, ret);
    assert(entry == bind_params(s3, function, f.args.name, params, 0));
    let s4 = enter(entry);
    lemma_lower_block_grows(s4, f.expressions, 0, nothing());
    let b = lower_block(s4, f.expressions, 0, nothing());
    let s5 = if ends_in_return(f.expressions) {
        b.st
    } else {
        emit_inst(b.st, Inst::Ret { value: Value::Int(0) })
    };
    let d = added(s4, b.st);
    let n = entry.vars.names.len() as int;
    let x = b.st.vars.slots.skip(n);
    assert(s4.frames.last() == Seq::<Seq<char>>::empty());
    assert(s4.frames.drop_last() =~= s.frames);
    assert(s4.frames.last() + d =~= d);
    assert(s5.frames.last() == d);
    assert(s5.frames.drop_last() =~= s.frames);
    assert(b.st.vars.names =~= entry.vars.names + d.skip(0));
    assert(b.st.vars.slots =~= entry.vars.slots + x.skip(0));
    assert(entry.vars.names + d =~= b.st.vars.names);
    lemma_unbind_declared(entry.vars, d, x, 0);
}

/// A block that holds a conditional at index `b`, lowered from index `i`
/// on in a state in which a conditional is counted, fails.
pub proof fn lemma_block_after_conditional(
    s: GenState,
    es: Seq<Expr>,
    i: int,
    b: int,
    last: (Value, IrType),
)
    requires
        vars_wf(s.vars),
        s.if_count >= 1,
        0 <= i <= b < es.len(),
        es[b] is IfElse,
    ensures
        lower_block(s, es, i, last).result is Err,
    decreases es.len() - i,
{
    let r = lower_expr(s, es[i]);
    if i == b {
        assert(lower_conditional(s, es[i]).result is Err);
    } else if r.result is Ok {
        lemma_lower_expr_grows(s, es[i]);
        lemma_block_after_conditional(r.st, es, i + 1, b, r.result->Ok_0);
    }
}

/// A block that holds conditionals at the indices `a` and `b`, lowered from
/// an index up to `a` on, fails.
pub proof fn lemma_block_with_two_conditionals(
    s: GenState,
    es: Seq<Expr>,
    i: int,
    a: int,
    b: int,
    last: (Value, IrType),
)
    requires
        vars_wf(s.vars),
        0 <= s.if_count,
        0 <= i <= a < b < es.len(),
        es[a] is IfElse,
        es[b] is IfElse,
    ensures
        lower_block(s, es, i, last).result is Err,
    decreases es.len() - i,
{
    let r = lower_expr(s, es[i]);
    if r.result is Ok {
        lemma_lower_expr_grows(s, es[i]);
        if i == a {
            lemma_block_after_conditional(r.st, es, i + 1, b, r.result->Ok_0);
        } else {
            lemma_block_with_two_conditionals(r.st, es, i + 1, a, b, r.result->Ok_0);
        }
    }
}

/// One conditional per function. Lowering of a function whose body holds
/// two conditionals, at the indices `a` and `b`, fails.
pub proof fn lemma_function_with_two_conditionals(s: GenState, f: FunctionModel, a: int, b: int)
    requires
        vars_wf(s.vars),
        0 <= a < b < f.expressions.len(),
        f.expressions[a] is IfElse,
        f.expressions[b] is IfElse,
    ensures
        gen_function_spec(s, f).result is Err,
{
    if f.args.name.len() == f.args.type_.len() {
        match types_of(s.structs, f.args.type_, 0, Seq::empty()) {
            Err(_) => {},
            Ok(params) => match named_type(s.structs, f.return_type) {
                None => {},
                Some(ret) => {
                    let function = next_id(s);
                    let s1 = register_fn(
                        emit(s, OpModel::DeclareFunction { name: f.name, params, ret, defined: true }),
                        f.name,
                        FnSig { op: function, ret },
                    );
                    let s2 = GenState { current_fn: Some(function), if_count: 0, ..s1 };
                    let s3 = at_block(
                        emit(s2, OpModel::AppendBlock { function, label: Label::Entry }),
                        next_id(s2),
                    );
                    lemma_bind_params_keeps(s3, function, f.args.name, params, 0);
                    let s4 = enter(function_entry(s, f, params, ret));
                    lemma_block_with_two_conditionals(s4, f.expressions, 0, a, b, nothing());
                },
            },
        }
    }
}

/// A block that declares `name` at index `b`, lowered from index `i` on in
/// a state in which `name` is bound, fails.
pub proof fn lemma_block_after_declaration(
    s: GenState,
    es: Seq<Expr>,
    i: int,
    b: int,
    name: Seq<char>,
    last: (Value, IrType),
)
    requires
        vars_wf(s.vars),
        0 <= s.if_count,
        lookup(s.vars, name) is Some,
        0 <= i <= b < es.len(),
        es[b] matches Expr::VarDecl { name: n, .. } && n == name,
    ensures
        lower_block(s, es, i, last).result is Err,
    decreases es.len() - i,
{
    let r = lower_expr(s, es[i]);
    if i == b {
        assert(lower_declaration(s, es[i]).result is Err);
    } else if r.result is Ok {
        lemma_lower_expr_grows(s, es[i]);
        lemma_grows_keeps_bound(s, r.st, name);
        lemma_block_after_declaration(r.st, es, i + 1, b, name, r.result->Ok_0);
    }
}

/// A block that declares `name` at the indices `a` and `b`, lowered from
/// an index up to `a` on, fails.
pub proof fn lemma_block_with_two_declarations(
    s: GenState,
    es: Seq<Expr>,
    i: int,
    a: int,
    b: int,
    name: Seq<char>,
    last: (Value, IrType),
)
    requires
        vars_wf(s.vars),
        0 <= s.if_count,
        0 <= i <= a < b < es.len(),
        es[a] matches Expr::VarDecl { name: n, .. } && n == name,
        es[b] matches Expr::VarDecl { name: n, .. } && n == name,
    ensures
        lower_block(s, es, i, last).result is Err,
    decreases es.len() - i,
{
    let r = lower_expr(s, es[i]);
    if r.result is Ok {
        lemma_lower_expr_grows(s, es[i]);
        if i == a {
            lemma_block_after_declaration(r.st, es, i + 1, b, name, r.result->Ok_0);
        } else {
            lemma_block_with_two_declarations(r.st, es, i + 1, a, b, name, r.result->Ok_0);
        }
    }
}

/// Duplicate declarations. Lowering of a function whose body declares the
/// same name twice, at the indices `a` and `b`, fails.
pub proof fn lemma_function_with_two_declarations(
    s: GenState,
    f: FunctionModel,
    a: int,
    b: int,
    name: Seq<char>,
)
    requires
        vars_wf(s.vars),
        0 <= a < b < f.expressions.len(),
        f.expressions[a] matches Expr::VarDecl { name: n, .. } && n == name,
        f.expressions[b] matches Expr::VarDecl { name: n, .. } && n == name,
    ensures
        gen_function_spec(s, f).result is Err,
{
    if f.args.name.len() == f.args.type_.len() {
        match types_of(s.structs, f.args.type_, 0, Seq::empty()) {
            Err(_) => {},
            Ok(params) => match named_type(s.structs, f.return_type) {
                None => {},
                Some(ret) => {
                    let function = next_id(s);
                    let s1 = register_fn(
                        emit(s, OpModel::DeclareFunction { name: f.name, params, ret, defined: true }),
                        f.name,
                        FnSig { op: function, ret },
                    );
                    let s2 = GenState { current_fn: Some(function), if_count: 0, ..s1 };
                    let s3 = at_block(
                        emit(s2, OpModel::AppendBlock { function, label: Label::Entry }),
                        next_id(s2),
                    );
                    lemma_bind_params_keeps(s3, function, f.args.name, params, 0);
                    let s4 = enter(function_entry(s, f, params, ret));
                    lemma_block_with_two_declarations(s4, f.expressions, 0, a, b, name, nothing());
                },
            },
        }
    }
}

/// Field indexing. Where `l` lowers to a value of the type of a registered
/// struct, the access to the field `field` of `l` computes the address of
/// the field whose index is the place of `field` among the fields of the
/// struct, counted from 0 in the order of declaration; and the access to a
/// name that is no field of the struct fails.
pub proof fn lemma_field_index(s: GenState, l: Expr, field: Seq<char>, k: usize)
    requires
        s.wf(),
        lower_expr(s, l).result matches Ok((_, t)) && t == IrType::Struct(k),
        k < s.structs.layouts.len(),
    ensures
        ({
            let a = lower_expr(s, l);
            let e = Expr::BinOp(
                Box::new(l),
                crate::lexer::tokens::TokenKind::Dot,
                Box::new(Expr::Identifier(field)),
            );
            let fields = s.structs.layouts[k as int].fields;
            match find(fields.names, field) {
                None => lower_expr(s, e) == err(a.st, GenErrorKind::NoSuchField, field),
                Some(i) => match named_type(s.structs, fields.infos[i].type_) {
                    None => lower_expr(s, e).result is Err,
                    Some(ft) => lower_expr(s, e) == ok(
                        emit_inst(
                            a.st,
                            Inst::StructGep {
                                type_: IrType::Struct(k),
                                ptr: a.result->Ok_0.0,
                                index: i as u32,
                            },
                        ),
                        reg(a.st),
                        ft,
                    ),
                },
            }
        }),
{
    let a = lower_expr(s, l);
    let e = Expr::BinOp(
        Box::new(l),
        crate::lexer::tokens::TokenKind::Dot,
        Box::new(Expr::Identifier(field)),
    );
    lemma_lower_expr_grows(s, l);
    assert(a.st.structs == s.structs);
    assert(lower_expr(s, e) == lower_field(s, e));
    let fields = s.structs.layouts[k as int].fields;
    assert(crate::generator::model::layout_wf(s.structs.layouts[k as int]));
    match find(fields.names, field) {
        None => {},
        Some(i) => {
            assert(fields.names.contains(field));
            assert(0 <= i < fields.names.len());
            assert(fields.infos[i].index == i);
        },
    }
}

/// Scope hygiene, of one variable. Where lowering of a function succeeds,
/// a variable that the body of the function declares is unbound behind the
/// function: a reference to it is unresolved.
pub proof fn lemma_declared_variable_unbound(s: GenState, f: FunctionModel, a: int, name: Seq<char>)
    requires
        vars_wf(s.vars),
        gen_function_spec(s, f).result is Ok,
        0 <= a < f.expressions.len(),
        f.expressions[a] matches Expr::VarDecl { name: n, .. } && n == name,
    ensures
        lookup(gen_function_spec(s, f).st.vars, name) is None,
        lower_expr(gen_function_spec(s, f).st, Expr::Identifier(name)) == err(
            gen_function_spec(s, f).st,
            GenErrorKind::Unresolved,
            name,
        ),
{
    let params = types_of(s.structs, f.args.type_, 0, Seq::empty())->Ok_0;
    let ret = named_type(s.structs, f.return_type)->0;
    let function = next_id(s);
    let s1 = register_fn(
        emit(s, OpModel::DeclareFunction { name: f.name, params, ret, defined: true }),
        f.name,
        FnSig { op: function, ret },
    );
    let s2 = GenState { current_fn: Some(function), if_count: 0, ..s1 };
    let s3 = at_block(emit(s2, OpModel::AppendBlock { function, label: Label::Entry }), next_id(s2));
    lemma_bind_params_keeps(s3, function, f.args.name, params, 0);
    let entry = function_entry(s, f, params, ret);
    lemma_function_scope(s, f);
    if lookup(entry.vars, name) is Some {
        lemma_block_after_declaration(enter(entry), f.expressions, 0, a, name, nothing());
    }
}

} // verus!
