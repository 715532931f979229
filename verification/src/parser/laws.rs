//! What holds of the grammar on every input: parsing moves forwards.
//!
//! The functions of the grammar hold the state that a function leaves
//! against the state in which it started, with `since` and `onward`. The
//! laws here show that this changes nothing: no function leaves a state
//! before the one in which it started, nor one behind the tokens, and a
//! parser of expressions succeeds only behind where it started.

use crate::lexer::tokens::TokenKind;
use crate::parser::ast::{Expr, NodePos};
use crate::parser::grammar::{
    array_items_spec, binop_tail_spec, block_spec, call_args_spec, continues_chain,
    declared_type_spec, eat, if_tail_spec, if_type_spec, is_augmented_assignment,
    is_binary_operator, look, parse_array_spec, parse_declaration_spec, parse_expression_spec,
    parse_false_spec, parse_identifier_spec, parse_if_else_spec, parse_index_spec,
    parse_paren_expression_spec, parse_return_spec, parse_string_spec, parse_true_spec,
    parse_unop_spec, parse_use_spec, parse_while_spec, peek, remaining, skip, Input, Parsed, State,
};
use crate::parser::ast::{ArgsModel, FunctionModel};
use crate::parser::toplevel::{
    class_methods_spec, function_result_spec, params_spec, parse_class_spec, parse_extern_spec,
    parse_function_spec, parse_type_annot_spec, Ctx, Top,
};
use vstd::prelude::*;

verus! {

/// Whether `st` is a state inside the tokens of `inp`.
pub open spec fn within(inp: Input, st: State) -> bool {
    0 <= st.cursor <= inp.toks.len()
}

/// Whether the outcome `r` of a function that started at `st` is not
/// before `st` and inside the tokens.
pub open spec fn moves<T>(inp: Input, st: State, r: Parsed<T>) -> bool {
    st.cursor <= r.st.cursor <= inp.toks.len()
}

/// Whether the outcome `r` of a function that started at `st` is not
/// before `st`, inside the tokens, and behind `st` where it is a success.
pub open spec fn advances<T>(inp: Input, st: State, r: Parsed<T>) -> bool {
    moves(inp, st, r) && (r.result is Ok ==> st.cursor < r.st.cursor)
}

/// An outcome that moves is its own `since`, and one that advances is its
/// own `onward`.
pub proof fn lemma_clamps<T>(inp: Input, st: State, r: Parsed<T>)
    ensures
        moves(inp, st, r) ==> r.since(st) == r,
        advances(inp, st, r) ==> r.onward(st) == r,
{
}

/// Progress of expressions. An expression is parsed forwards, and
/// successfully only behind where it starts.
pub proof fn lemma_expression_advances(inp: Input, st: State)
    requires
        within(inp, st),
    ensures
        advances(inp, st, parse_expression_spec(inp, st)),
    decreases remaining(inp, st), 3nat,
{
    match peek(inp, st) {
        None => {},
        Some(k) => {
            match k {
                TokenKind::LParen => {
                    lemma_paren_advances(inp, eat(inp, st));
                },
                TokenKind::LBrack => {
                    lemma_array_advances(inp, st);
                },
                TokenKind::Plus | TokenKind::Minus | TokenKind::Not => {
                    lemma_unop_advances(inp, st);
                },
                TokenKind::If => {
                    lemma_if_else_advances(inp, st);
                },
                TokenKind::While => {
                    lemma_while_advances(inp, st);
                },
                TokenKind::Let => {
                    lemma_declaration_advances(inp, st);
                },
                TokenKind::Identifier(_) => {
                    lemma_identifier_advances(inp, st);
                },
                TokenKind::Return => {
                    lemma_return_advances(inp, st);
                },
                _ => {},
            }
            let primary: Parsed<(Expr, NodePos)> = match k {
                TokenKind::LParen => parse_paren_expression_spec(inp, eat(inp, st)),
                TokenKind::LBrack => parse_array_spec(inp, st),
                TokenKind::Plus | TokenKind::Minus | TokenKind::Not => parse_unop_spec(inp, st),
                TokenKind::If => parse_if_else_spec(inp, st),
                TokenKind::While => parse_while_spec(inp, st),
                TokenKind::Let => parse_declaration_spec(inp, st),
                TokenKind::True => parse_true_spec(inp, st),
                TokenKind::False => parse_false_spec(inp, st),
                TokenKind::Identifier(_) => parse_identifier_spec(inp, st),
                TokenKind::Return => parse_return_spec(inp, st),
                TokenKind::Use => parse_use_spec(inp, st),
                TokenKind::Integer(i) => crate::parser::grammar::done(
                    eat(inp, st),
                    (Expr::Integer(i), crate::parser::grammar::here(inp, st)),
                ),
                TokenKind::Str(_) => parse_string_spec(inp, st),
                _ => crate::parser::grammar::fail(
                    st,
                    crate::parser::grammar::syntax_at(
                        st,
                        crate::parser::error::SyntaxCause::InvalidExpression,
                    ),
                ),
            };
            assert(advances(inp, st, primary));
            let l = primary.onward(st);
            match l.result {
                Err(_) => {},
                Ok((left, at)) => {
                    lemma_tail_moves(inp, l.st, left, at);
                },
            }
        },
    }
}

/// What follows a left operand is parsed forwards.
pub proof fn lemma_tail_moves(inp: Input, st: State, left: Expr, at: NodePos)
    requires
        within(inp, st),
    ensures
        moves(inp, st, binop_tail_spec(inp, st, left, at)),
    decreases remaining(inp, st), 1nat,
{
    match peek(inp, st) {
        None => {},
        Some(k) => if k is LBrack {
            lemma_index_moves(inp, st);
        } else if is_binary_operator(k) {
            let s1 = eat(inp, st);
            lemma_expression_advances(inp, s1);
            let r = parse_expression_spec(inp, s1).since(s1);
            match peek(inp, r.st) {
                None => {},
                Some(k2) => if continues_chain(k2) {
                    lemma_tail_moves(inp, r.st, left, at);
                },
            }
        },
    }
}

/// An index is parsed forwards.
pub proof fn lemma_index_moves(inp: Input, st: State)
    requires
        within(inp, st),
    ensures
        advances(inp, st, parse_index_spec(inp, st)),
    decreases remaining(inp, st), 0nat,
{
    match peek(inp, st) {
        None => {},
        Some(_) => {
            lemma_expression_advances(inp, eat(inp, st));
        },
    }
}

/// An expression in parentheses is parsed forwards, and successfully only
/// behind where it starts.
pub proof fn lemma_paren_advances(inp: Input, st: State)
    requires
        within(inp, st),
    ensures
        advances(inp, st, parse_paren_expression_spec(inp, st)),
    decreases remaining(inp, st), 5nat,
{
    lemma_expression_advances(inp, st);
}

/// An array literal is parsed forwards, and successfully only behind where
/// it starts.
pub proof fn lemma_array_advances(inp: Input, st: State)
    requires
        within(inp, st),
    ensures
        advances(inp, st, parse_array_spec(inp, st)),
    decreases remaining(inp, st), 2nat,
{
    match peek(inp, st) {
        None => {},
        Some(_) => {
            let s1 = eat(inp, st);
            match peek(inp, s1) {
                Some(TokenKind::Identifier(t)) => {
                    lemma_array_items_move(
                        inp,
                        eat(inp, s1),
                        t,
                        Seq::empty(),
                        crate::parser::grammar::here(inp, st),
                    );
                },
                _ => {},
            }
        },
    }
}

/// The elements of an array literal are parsed forwards.
pub proof fn lemma_array_items_move(
    inp: Input,
    st: State,
    type_: Seq<char>,
    acc: Seq<Expr>,
    at: NodePos,
)
    requires
        within(inp, st),
    ensures
        moves(inp, st, array_items_spec(inp, st, type_, acc, at)),
    decreases remaining(inp, st), 5nat,
{
    match peek(inp, st) {
        None => {},
        Some(k) => if k is Comma {
            lemma_array_items_move(inp, eat(inp, st), type_, acc, at);
        } else if k is RBrack {
        } else {
            lemma_expression_advances(inp, st);
            let r = parse_expression_spec(inp, st).onward(st);
            match r.result {
                Err(_) => {},
                Ok((e, p)) => {
                    lemma_array_items_move(inp, r.st, type_, acc.push(e), p);
                },
            }
        },
    }
}

/// A unary operator and its operand are parsed forwards, and successfully
/// only behind where they start.
pub proof fn lemma_unop_advances(inp: Input, st: State)
    requires
        within(inp, st),
    ensures
        advances(inp, st, parse_unop_spec(inp, st)),
    decreases remaining(inp, st), 2nat,
{
    match peek(inp, st) {
        None => {},
        Some(_) => {
            lemma_expression_advances(inp, look(inp, eat(inp, st)));
        },
    }
}

/// A block is parsed forwards.
pub proof fn lemma_block_moves(inp: Input, st: State, strict: bool, acc: Seq<Expr>)
    requires
        within(inp, st),
    ensures
        moves(inp, st, block_spec(inp, st, strict, acc)),
    decreases remaining(inp, st), 5nat,
{
    if peek(inp, st) is Some {
        lemma_expression_advances(inp, st);
        let r = parse_expression_spec(inp, st).onward(st);
        match r.result {
            Ok((e, _)) => match peek(inp, r.st) {
                None => {},
                Some(k) => if k is Semicolon {
                    lemma_block_moves(inp, eat(inp, r.st), strict, acc.push(e));
                } else if k is End {
                } else if strict {
                } else {
                    lemma_block_moves(inp, r.st, strict, acc.push(e));
                },
            },
            Err(_) => {},
        }
    }
}

/// A conditional is parsed forwards, and successfully only behind where it
/// starts.
pub proof fn lemma_if_else_advances(inp: Input, st: State)
    requires
        within(inp, st),
    ensures
        advances(inp, st, parse_if_else_spec(inp, st)),
    decreases remaining(inp, st), 2nat,
{
    match peek(inp, st) {
        None => {},
        Some(_) => {
            let t = if_type_spec(inp, eat(inp, st)).since(eat(inp, st));
            match t.result {
                Err(_) => {},
                Ok(type_) => {
                    lemma_expression_advances(inp, t.st);
                    let c = parse_expression_spec(inp, t.st).since(t.st);
                    match c.result {
                        Err(_) => {},
                        Ok((cond, _)) => match peek(inp, c.st) {
                            None => {},
                            Some(k) => if k is Do {
                                let s1 = eat(inp, c.st);
                                lemma_block_moves(inp, s1, true, Seq::empty());
                                let b = block_spec(inp, s1, true, Seq::empty()).since(s1);
                                match b.result {
                                    Err(_) => {},
                                    Ok(then_) => {
                                        lemma_if_tail_moves(
                                            inp,
                                            b.st,
                                            cond,
                                            then_,
                                            type_,
                                            crate::parser::grammar::here(inp, st),
                                        );
                                    },
                                }
                            },
                        },
                    }
                },
            }
        },
    }
}

/// What follows the first block of a conditional is parsed forwards.
pub proof fn lemma_if_tail_moves(
    inp: Input,
    st: State,
    cond: Expr,
    then_: Seq<Expr>,
    type_: Seq<char>,
    at: NodePos,
)
    requires
        within(inp, st),
    ensures
        moves(inp, st, if_tail_spec(inp, st, cond, then_, type_, at)),
    decreases remaining(inp, st), 6nat,
{
    match peek(inp, st) {
        None => {},
        Some(k) => {
            let s1 = if k is End {
                eat(inp, st)
            } else {
                st
            };
            match peek(inp, s1) {
                None => {},
                Some(k1) => if k1 is Else {
                    let s2 = eat(inp, s1);
                    match peek(inp, s2) {
                        None => {},
                        Some(k2) => if k2 is Do {
                            lemma_block_moves(inp, eat(inp, s2), true, Seq::empty());
                        },
                    }
                },
            }
        },
    }
}

/// A loop is parsed forwards, and successfully only behind where it starts.
pub proof fn lemma_while_advances(inp: Input, st: State)
    requires
        within(inp, st),
    ensures
        advances(inp, st, parse_while_spec(inp, st)),
    decreases remaining(inp, st), 2nat,
{
    match peek(inp, st) {
        None => {},
        Some(_) => {
            let s1 = eat(inp, st);
            lemma_expression_advances(inp, s1);
            let c = parse_expression_spec(inp, s1).since(s1);
            match c.result {
                Err(_) => {},
                Ok(_) => match peek(inp, c.st) {
                    None => {},
                    Some(k) => if k is Do {
                        lemma_block_moves(inp, eat(inp, c.st), true, Seq::empty());
                    },
                },
            }
        },
    }
}

/// A declaration is parsed forwards, and successfully only behind where it
/// starts.
pub proof fn lemma_declaration_advances(inp: Input, st: State)
    requires
        within(inp, st),
    ensures
        advances(inp, st, parse_declaration_spec(inp, st)),
    decreases remaining(inp, st), 2nat,
{
    match peek(inp, st) {
        None => {},
        Some(_) => {
            let s1 = eat(inp, st);
            match peek(inp, s1) {
                Some(TokenKind::Identifier(name)) => {
                    let s2 = eat(inp, s1);
                    match peek(inp, s2) {
                        None => {},
                        Some(k) => if k is Colon {
                            let s3 = eat(inp, s2);
                            match peek(inp, s3) {
                                Some(TokenKind::Identifier(_)) => {
                                    let s4 = skip(s3);
                                    match peek(inp, s4) {
                                        None => {},
                                        Some(k2) => if k2 is Assign {
                                            lemma_expression_advances(inp, eat(inp, s4));
                                        },
                                    }
                                },
                                _ => {},
                            }
                            assert(advances(
                                inp,
                                s3,
                                declared_type_spec(
                                    inp,
                                    s3,
                                    name,
                                    crate::parser::grammar::here(inp, st),
                                ),
                            ) || declared_type_spec(
                                inp,
                                s3,
                                name,
                                crate::parser::grammar::here(inp, st),
                            ).result is Err);
                        },
                    }
                },
                _ => {},
            }
        },
    }
}

/// What starts with a name is parsed forwards, and successfully only behind
/// where it starts.
pub proof fn lemma_identifier_advances(inp: Input, st: State)
    requires
        within(inp, st),
    ensures
        advances(inp, st, parse_identifier_spec(inp, st)),
    decreases remaining(inp, st), 2nat,
{
    match peek(inp, st) {
        Some(TokenKind::Identifier(name)) => {
            let s1 = eat(inp, st);
            match peek(inp, s1) {
                None => {},
                Some(k) => if k is Assign || is_augmented_assignment(k) {
                    lemma_expression_advances(inp, eat(inp, s1));
                } else if k is LParen {
                    lemma_call_args_move(
                        inp,
                        eat(inp, s1),
                        name,
                        crate::parser::grammar::here(inp, st),
                        Seq::empty(),
                    );
                },
            }
        },
        _ => {},
    }
}

/// The arguments of a call are parsed forwards.
pub proof fn lemma_call_args_move(
    inp: Input,
    st: State,
    name: Seq<char>,
    at: NodePos,
    acc: Seq<Expr>,
)
    requires
        within(inp, st),
    ensures
        moves(inp, st, call_args_spec(inp, st, name, at, acc)),
    decreases remaining(inp, st), 5nat,
{
    if peek(inp, st) is Some {
        lemma_expression_advances(inp, st);
        let r = parse_expression_spec(inp, st).onward(st);
        match r.result {
            Ok((e, _)) => match peek(inp, r.st) {
                None => {},
                Some(k) => if k is Comma {
                    lemma_call_args_move(inp, eat(inp, r.st), name, at, acc.push(e));
                } else {
                    lemma_call_args_move(inp, r.st, name, at, acc.push(e));
                },
            },
            Err(_) => {},
        }
    }
}

/// `return` and its value are parsed forwards, and successfully only
/// behind where they start.
pub proof fn lemma_return_advances(inp: Input, st: State)
    requires
        within(inp, st),
    ensures
        advances(inp, st, parse_return_spec(inp, st)),
    decreases remaining(inp, st), 2nat,
{
    match peek(inp, st) {
        None => {},
        Some(_) => {
            lemma_expression_advances(inp, eat(inp, st));
        },
    }
}

/// Whether the outcome `r` of a function of the top level that started at
/// `st` is not before `st`, inside the tokens, and behind `st` where it is
/// a success.
pub open spec fn top_advances<T>(inp: Input, st: State, r: Top<T>) -> bool {
    advances(inp, st, Parsed { result: r.result, st: r.ctx.st })
}

/// An outcome of the top level that advances is its own `onward`.
pub proof fn lemma_top_clamp<T>(inp: Input, st: State, r: Top<T>)
    ensures
        top_advances(inp, st, r) ==> r.onward(st) == r,
{
}

/// The parameters of a function are parsed forwards, and successfully only
/// behind where they start.
pub proof fn lemma_params_advance(
    inp: Input,
    st: State,
    names: Seq<Seq<char>>,
    types: Seq<Seq<char>>,
)
    requires
        within(inp, st),
    ensures
        advances(inp, st, params_spec(inp, st, names, types)),
    decreases remaining(inp, st),
{
    match peek(inp, st) {
        None => {},
        Some(k) => if k is Comma {
            lemma_params_advance(inp, eat(inp, st), names, types);
        } else if k is RParen {
        } else {
            let a = parse_type_annot_spec(inp, st);
            assert(advances(inp, st, a));
            match a.result {
                Err(_) => {},
                Ok((n, t)) => {
                    lemma_params_advance(inp, a.st, names.push(n), types.push(t));
                },
            }
        },
    }
}

/// The declaration of an outside function is parsed forwards, and
/// successfully only behind where it starts.
pub proof fn lemma_extern_advances(inp: Input, c: Ctx)
    requires
        within(inp, c.st),
    ensures
        top_advances(inp, c.st, parse_extern_spec(inp, c)),
{
    match peek(inp, c.st) {
        None => {},
        Some(_) => {
            let s1 = eat(inp, c.st);
            match peek(inp, s1) {
                Some(TokenKind::Identifier(name)) => {
                    let s2 = eat(inp, s1);
                    match peek(inp, s2) {
                        None => {},
                        Some(k) => if k is LParen {
                            lemma_params_advance(inp, eat(inp, s2), Seq::empty(), Seq::empty());
                        },
                    }
                },
                _ => {},
            }
        },
    }
}

/// The definition of a function is parsed forwards, and successfully only
/// behind where it starts.
pub proof fn lemma_function_advances(inp: Input, c: Ctx)
    requires
        within(inp, c.st),
    ensures
        top_advances(inp, c.st, parse_function_spec(inp, c)),
{
    if peek(inp, c.st) == Some(TokenKind::Def) {
        let s1 = eat(inp, c.st);
        match peek(inp, s1) {
            Some(TokenKind::Identifier(name)) => {
                let s2 = eat(inp, s1);
                match peek(inp, s2) {
                    None => {},
                    Some(k) => if k is LParen {
                        let s3 = skip(s2);
                        match peek(inp, s3) {
                            None => {},
                            Some(k1) => {
                                if !(k1 is RParen) {
                                    lemma_params_advance(inp, s3, Seq::empty(), Seq::empty());
                                }
                                let p = if k1 is RParen {
                                    crate::parser::grammar::done(
                                        skip(s3),
                                        ArgsModel { name: Seq::empty(), type_: Seq::empty() },
                                    )
                                } else {
                                    params_spec(inp, s3, Seq::empty(), Seq::empty())
                                };
                                match p.result {
                                    Err(_) => {},
                                    Ok(args) => {
                                        lemma_function_result_moves(inp, p.st, name, args);
                                    },
                                }
                            },
                        }
                    },
                }
            },
            _ => {},
        }
    }
}

/// What follows the parameters of a function is parsed forwards.
pub proof fn lemma_function_result_moves(inp: Input, st: State, name: Seq<char>, args: ArgsModel)
    requires
        within(inp, st),
    ensures
        moves(inp, st, function_result_spec(inp, st, name, args)),
{
    match peek(inp, st) {
        None => {},
        Some(k) => if k is Arrow {
            let s1 = eat(inp, st);
            match peek(inp, s1) {
                Some(TokenKind::Identifier(ret)) => {
                    let s2 = eat(inp, s1);
                    match peek(inp, s2) {
                        None => {},
                        Some(k2) => if k2 is Do {
                            lemma_block_moves(inp, eat(inp, s2), false, Seq::empty());
                        },
                    }
                },
                _ => {},
            }
        },
    }
}

/// The methods of a class are parsed forwards.
pub proof fn lemma_class_methods_move(
    inp: Input,
    c: Ctx,
    name: Seq<char>,
    pos: NodePos,
    acc: Seq<(FunctionModel, NodePos)>,
)
    requires
        within(inp, c.st),
    ensures
        moves(
            inp,
            c.st,
            Parsed {
                result: class_methods_spec(inp, c, name, pos, acc).result,
                st: class_methods_spec(inp, c, name, pos, acc).ctx.st,
            },
        ),
    decreases remaining(inp, c.st),
{
    match peek(inp, c.st) {
        None => {},
        Some(k) => if k is RBrace {
        } else if k is Def {
            lemma_function_advances(inp, c);
            let f = parse_function_spec(inp, c).onward(c.st);
            match f.result {
                Err(_) => {},
                Ok(m) => {
                    lemma_class_methods_move(inp, f.ctx, name, pos, acc.push(m));
                },
            }
        },
    }
}

/// A class is parsed forwards, and successfully only behind where it starts.
pub proof fn lemma_class_advances(inp: Input, c: Ctx)
    requires
        within(inp, c.st),
    ensures
        top_advances(inp, c.st, parse_class_spec(inp, c)),
{
    match peek(inp, c.st) {
        None => {},
        Some(_) => {
            let s1 = eat(inp, c.st);
            match peek(inp, s1) {
                Some(TokenKind::Identifier(name)) => {
                    let s2 = eat(inp, s1);
                    match peek(inp, s2) {
                        None => {},
                        Some(k) => if k is LBrace {
                            lemma_class_methods_move(
                                inp,
                                crate::parser::toplevel::at(c, eat(inp, s2)),
                                name,
                                crate::parser::grammar::here(inp, c.st),
                                Seq::empty(),
                            );
                        },
                    }
                },
                _ => {},
            }
        },
    }
}

} // verus!
