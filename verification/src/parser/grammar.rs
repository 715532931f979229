//! The grammar of expressions, as functions on sequences of tokens.
//!
//! Each function takes the input and the state of the parser in it, and gives
//! what is parsed there together with the state behind it. The parser's
//! methods compute exactly these functions.

use crate::lexer::tokens::{TokenKind, TokenModel};
use crate::parser::ast::{Expr, NodePos};
use crate::parser::error::{ParseError, SyntaxCause};
use vstd::prelude::*;

verus! {

/// What the parser reads: the tokens and the name of their file.
pub ghost struct Input {
    pub toks: Seq<TokenModel>,
    pub file: Seq<char>,
}

/// Where the parser stands: the index of the next token, and the column and
/// line of the token that it last took note of.
pub ghost struct State {
    pub cursor: int,
    pub pos: i32,
    pub line_no: i32,
}

/// The outcome of a parsing function: a value or an error, and the state
/// in which the function leaves the parser.
pub ghost struct Parsed<T> {
    pub result: Result<T, ParseError>,
    pub st: State,
}

/// The outcome of parsing an expression.
pub type ParsedExpr = Parsed<(Expr, NodePos)>;

/// The number of tokens that are left at `st`.
pub open spec fn remaining(inp: Input, st: State) -> nat {
    if 0 <= st.cursor <= inp.toks.len() {
        (inp.toks.len() - st.cursor) as nat
    } else {
        0
    }
}

/// The kind of the next token, if there is one.
pub open spec fn peek(inp: Input, st: State) -> Option<TokenKind> {
    if 0 <= st.cursor < inp.toks.len() {
        Some(inp.toks[st.cursor].kind)
    } else {
        None
    }
}

/// The position of the next token.
pub open spec fn here(inp: Input, st: State) -> NodePos {
    let t = inp.toks[st.cursor];
    NodePos { pos: t.pos, line_no: t.line_no, file: t.file }
}

/// The state after taking note of where the next token stands, if there is one.
pub open spec fn look(inp: Input, st: State) -> State {
    if 0 <= st.cursor < inp.toks.len() {
        State {
            cursor: st.cursor,
            pos: inp.toks[st.cursor].pos,
            line_no: inp.toks[st.cursor].line_no,
        }
    } else {
        st
    }
}

/// The state after passing the next token without taking note of its place.
pub open spec fn skip(st: State) -> State {
    State { cursor: st.cursor + 1, pos: st.pos, line_no: st.line_no }
}

/// The state after taking note of the next token's place and passing it.
pub open spec fn eat(inp: Input, st: State) -> State {
    skip(look(inp, st))
}

/// The syntax error with the given cause at the place noted in `st`.
pub open spec fn syntax_at(st: State, cause: SyntaxCause) -> ParseError {
    ParseError::Syntax { cause, pos: st.pos, line_no: st.line_no }
}

/// Failure with `e` in state `st`.
pub open spec fn fail<T>(st: State, e: ParseError) -> Parsed<T> {
    Parsed { result: Err(e), st }
}

/// Success with `v` in state `st`.
pub open spec fn done<T>(st: State, v: T) -> Parsed<T> {
    Parsed { result: Ok(v), st }
}

impl<T> Parsed<T> {
    /// This outcome, of a function that started at `from`: its state is
    /// never before `from`.
    pub open spec fn since(self, from: State) -> Self {
        if self.st.cursor < from.cursor {
            Parsed {
                result: self.result,
                st: State { cursor: from.cursor, pos: self.st.pos, line_no: self.st.line_no },
            }
        } else {
            self
        }
    }

    /// This outcome, of a function that started at `from` and succeeds only
    /// when it has passed a token: its state is never before `from`, and
    /// behind `from` where it succeeded.
    pub open spec fn onward(self, from: State) -> Self {
        if self.result is Ok {
            self.since(skip(from))
        } else {
            self.since(from)
        }
    }
}

/// The operators that join two expressions.
pub open spec fn is_binary_operator(k: TokenKind) -> bool {
    k is Plus || k is Minus || k is Div || k is Mul || k is Less || k is Dot || k is LessEq
        || k is Greater || k is GreaterEq || k is Equal || k is NotEq
}

/// The operators that, behind a right operand, make the parser drop that
/// operand and take the operator as the new one.
pub open spec fn continues_chain(k: TokenKind) -> bool {
    is_binary_operator(k) && !(k is Dot)
}

/// The operators of augmented assignment.
pub open spec fn is_augmented_assignment(k: TokenKind) -> bool {
    k is PlusEq || k is MinusEq || k is DivEq || k is MulEq
}

/// An expression: a primary expression and, behind it, operators with their
/// right operands. A right operand is a whole expression, so chains of
/// operators group to the right.
pub open spec fn parse_expression_spec(inp: Input, st: State) -> ParsedExpr
    decreases remaining(inp, st), 3nat,
{
    match peek(inp, st) {
        None => fail(st, ParseError::Eof),
        Some(k) => {
            let primary: ParsedExpr = match k {
                TokenKind::LParen => parse_paren_expression_spec(inp, eat(inp, st)),
                TokenKind::LBrack => parse_array_spec(inp, st),
                TokenKind::Plus | TokenKind::Minus | TokenKind::Not => parse_unop_spec(inp, st),
                TokenKind::If => parse_if_else_spec(inp, st),
                TokenKind::While => parse_while_spec(inp, st),
                TokenKind::Let => parse_declaration_spec(inp, st),
                TokenKind::True => parse_true_spec(inp, st),
                TokenKind::False => parse_false_spec(inp, st),
                TokenKind::Identifier(_) => parse_identifier_spec(inp, st),
                TokenKind::Return => parse_return_spec(inp, st),
                TokenKind::Use => parse_use_spec(inp, st),
                TokenKind::Integer(i) => done(eat(inp, st), (Expr::Integer(i), here(inp, st))),
                TokenKind::Str(_) => parse_string_spec(inp, st),
                _ => fail(st, syntax_at(st, SyntaxCause::InvalidExpression)),
            };
            let l = primary.onward(st);
            match l.result {
                Err(e) => l,
                Ok((left, at)) => binop_tail_spec(inp, l.st, left, at),
            }
        },
    }
}

/// What follows the left operand `left`, which stands at `at`: nothing, an
/// index, or an operator and a right operand.
pub open spec fn binop_tail_spec(inp: Input, st: State, left: Expr, at: NodePos) -> ParsedExpr
    decreases remaining(inp, st), 1nat,
{
    match peek(inp, st) {
        None => fail(st, ParseError::Eof),
        Some(k) => if k is LBrack {
            parse_index_spec(inp, st)
        } else if is_binary_operator(k) {
            let s1 = eat(inp, st);
            let r = parse_expression_spec(inp, s1).since(s1);
            match peek(inp, r.st) {
                None => fail(r.st, ParseError::Eof),
                Some(k2) => if continues_chain(k2) {
                    binop_tail_spec(inp, r.st, left, at)
                } else {
                    match r.result {
                        Err(e) => fail(r.st, e),
                        Ok((right, _)) => done(
                            r.st,
                            (
                                Expr::BinOp(Box::new(left), k, Box::new(right)),
                                NodePos { pos: r.st.pos, line_no: r.st.line_no, file: inp.file },
                            ),
                        ),
                    }
                },
            }
        } else {
            done(st, (left, at))
        },
    }
}

/// An index behind an expression. The language does not index yet: the
/// brackets and what stands between them are read, and then refused.
pub open spec fn parse_index_spec(inp: Input, st: State) -> ParsedExpr
    decreases remaining(inp, st), 0nat,
{
    match peek(inp, st) {
        None => fail(st, ParseError::Eof),
        Some(_) => {
            let s1 = eat(inp, st);
            let r = parse_expression_spec(inp, s1).since(s1);
            match peek(inp, r.st) {
                None => fail(r.st, ParseError::Eof),
                Some(k) => if k is RBrack {
                    fail(skip(r.st), ParseError::Unsupported)
                } else {
                    fail(skip(r.st), syntax_at(r.st, SyntaxCause::MissingCloseBracket))
                },
            }
        },
    }
}

/// An expression and the parenthesis that closes it; the opening one has
/// been passed.
pub open spec fn parse_paren_expression_spec(inp: Input, st: State) -> ParsedExpr
    decreases remaining(inp, st), 5nat,
{
    let r = parse_expression_spec(inp, st).since(st);
    match r.result {
        Err(e) => fail(r.st, e),
        Ok((e, _)) => match peek(inp, r.st) {
            None => fail(r.st, ParseError::Eof),
            Some(k) => if k is RParen {
                done(eat(inp, r.st), (e, here(inp, r.st)))
            } else {
                fail(r.st, syntax_at(r.st, SyntaxCause::MissingCloseParen))
            },
        },
    }
}

/// An array literal: a bracket, the type of the elements, the elements with
/// or without commas between them, and the closing bracket.
pub open spec fn parse_array_spec(inp: Input, st: State) -> ParsedExpr
    decreases remaining(inp, st), 2nat,
{
    match peek(inp, st) {
        None => fail(st, ParseError::Eof),
        Some(_) => {
            let s1 = eat(inp, st);
            match peek(inp, s1) {
                None => fail(s1, ParseError::Eof),
                Some(TokenKind::Identifier(t)) => array_items_spec(
                    inp,
                    eat(inp, s1),
                    t,
                    Seq::empty(),
                    here(inp, st),
                ),
                Some(_) => fail(eat(inp, s1), syntax_at(eat(inp, s1), SyntaxCause::ExpectedArrayType)),
            }
        },
    }
}

/// The elements of an array literal behind those in `acc`, up to the closing
/// bracket. The literal stands where its last element stands, and at `at`
/// where it has none.
pub open spec fn array_items_spec(
    inp: Input,
    st: State,
    type_: Seq<char>,
    acc: Seq<Expr>,
    at: NodePos,
) -> ParsedExpr
    decreases remaining(inp, st), 5nat,
{
    match peek(inp, st) {
        None => fail(st, ParseError::Eof),
        Some(k) => if k is Comma {
            array_items_spec(inp, eat(inp, st), type_, acc, at)
        } else if k is RBrack {
            done(eat(inp, st), (Expr::Array(acc, type_), at))
        } else {
            let r = parse_expression_spec(inp, st).onward(st);
            match r.result {
                Err(e) => fail(r.st, e),
                Ok((e, p)) => array_items_spec(inp, r.st, type_, acc.push(e), p),
            }
        },
    }
}

/// A unary operator and its operand.
pub open spec fn parse_unop_spec(inp: Input, st: State) -> ParsedExpr
    decreases remaining(inp, st), 2nat,
{
    match peek(inp, st) {
        None => fail(st, ParseError::Eof),
        Some(op) => {
            let s1 = look(inp, eat(inp, st));
            let r = parse_expression_spec(inp, s1).since(s1);
            match r.result {
                Err(e) => fail(r.st, e),
                Ok((e, _)) => done(r.st, (Expr::UnOp(op, Box::new(e)), here(inp, st))),
            }
        },
    }
}

/// The expressions of a block behind those in `acc`, up to but without the
/// `end` (or the stray semicolon) that closes the block.
///
/// Expressions are separated by semicolons. Where no expression starts, the
/// block has ended if `end` or a semicolon stands there. In a `strict` block
/// an expression is followed by a semicolon or by `end`; in the body of a
/// function the next expression may follow at once.
pub open spec fn block_spec(inp: Input, st: State, strict: bool, acc: Seq<Expr>) -> Parsed<
    Seq<Expr>,
>
    decreases remaining(inp, st), 5nat,
{
    if peek(inp, st) is None {
        fail(st, ParseError::Eof)
    } else {
        let r = parse_expression_spec(inp, st).onward(st);
        match r.result {
            Ok((e, _)) => match peek(inp, r.st) {
                None => fail(r.st, ParseError::Eof),
                Some(k) => if k is Semicolon {
                    block_spec(inp, eat(inp, r.st), strict, acc.push(e))
                } else if k is End {
                    done(r.st, acc.push(e))
                } else if strict {
                    fail(r.st, syntax_at(r.st, SyntaxCause::ExpectedSemicolonOrEnd))
                } else {
                    block_spec(inp, r.st, strict, acc.push(e))
                },
            },
            Err(e) => if e == syntax_at(r.st, SyntaxCause::InvalidExpression) {
                match peek(inp, r.st) {
                    None => fail(r.st, ParseError::Eof),
                    Some(k) => if k is End || k is Semicolon {
                        done(r.st, acc)
                    } else {
                        fail(r.st, e)
                    },
                }
            } else {
                fail(r.st, e)
            },
        }
    }
}

/// The type that a conditional declares for its value, behind the `if`: the
/// name behind a colon, and `void` where none is written.
pub open spec fn if_type_spec(inp: Input, st: State) -> Parsed<Seq<char>> {
    match peek(inp, st) {
        None => fail(st, ParseError::Eof),
        Some(k) => if k is Colon {
            let s1 = eat(inp, st);
            match peek(inp, s1) {
                None => fail(s1, ParseError::Eof),
                Some(TokenKind::Identifier(t)) => done(eat(inp, s1), t),
                Some(_) => done(s1, "void"@),
            }
        } else {
            done(st, "void"@)
        },
    }
}

/// A conditional: `if`, an optional type, the condition, `do`, a block and
/// `end`, and optionally `else`, `do`, a block and `end`.
pub open spec fn parse_if_else_spec(inp: Input, st: State) -> ParsedExpr
    decreases remaining(inp, st), 2nat,
{
    match peek(inp, st) {
        None => fail(st, ParseError::Eof),
        Some(_) => {
            let t = if_type_spec(inp, eat(inp, st)).since(eat(inp, st));
            match t.result {
                Err(e) => fail(t.st, e),
                Ok(type_) => {
                    let c = parse_expression_spec(inp, t.st).since(t.st);
                    match c.result {
                        Err(e) => fail(c.st, e),
                        Ok((cond, _)) => match peek(inp, c.st) {
                            None => fail(c.st, ParseError::Eof),
                            Some(k) => if k is Do {
                                let s1 = eat(inp, c.st);
                                let b = block_spec(inp, s1, true, Seq::empty()).since(s1);
                                match b.result {
                                    Err(e) => fail(b.st, e),
                                    Ok(then_) => if_tail_spec(
                                        inp,
                                        b.st,
                                        cond,
                                        then_,
                                        type_,
                                        here(inp, st),
                                    ),
                                }
                            } else {
                                fail(c.st, syntax_at(c.st, SyntaxCause::ExpectedDoAfterIf))
                            },
                        },
                    }
                },
            }
        },
    }
}

/// What follows the first block of a conditional: its `end`, and the `else`
/// part where there is one.
pub open spec fn if_tail_spec(
    inp: Input,
    st: State,
    cond: Expr,
    then_: Seq<Expr>,
    type_: Seq<char>,
    at: NodePos,
) -> ParsedExpr
    decreases remaining(inp, st), 6nat,
{
    match peek(inp, st) {
        None => fail(st, ParseError::Eof),
        Some(k) => {
            let s1 = if k is End {
                eat(inp, st)
            } else {
                st
            };
            match peek(inp, s1) {
                None => fail(s1, ParseError::Eof),
                Some(k1) => if k1 is Else {
                    let s2 = eat(inp, s1);
                    match peek(inp, s2) {
                        None => fail(s2, ParseError::Eof),
                        Some(k2) => if k2 is Do {
                            let s3 = eat(inp, s2);
                            let b = block_spec(inp, s3, true, Seq::empty()).since(s3);
                            match b.result {
                                Err(e) => fail(b.st, e),
                                Ok(else_) => match peek(inp, b.st) {
                                    None => fail(b.st, ParseError::Eof),
                                    Some(k3) => if k3 is End {
                                        done(
                                            eat(inp, b.st),
                                            (
                                                Expr::IfElse {
                                                    cond: Box::new(cond),
                                                    if_: then_,
                                                    else_,
                                                    type_,
                                                },
                                                at,
                                            ),
                                        )
                                    } else {
                                        fail(b.st, syntax_at(b.st, SyntaxCause::MissingEndAtElse))
                                    },
                                },
                            }
                        } else {
                            fail(s2, syntax_at(s2, SyntaxCause::ExpectedDoAfterElse))
                        },
                    }
                } else {
                    done(
                        s1,
                        (
                            Expr::IfElse {
                                cond: Box::new(cond),
                                if_: then_,
                                else_: Seq::empty(),
                                type_,
                            },
                            at,
                        ),
                    )
                },
            }
        },
    }
}

/// A loop: `while`, the condition, `do`, a block and `end`.
pub open spec fn parse_while_spec(inp: Input, st: State) -> ParsedExpr
    decreases remaining(inp, st), 2nat,
{
    match peek(inp, st) {
        None => fail(st, ParseError::Eof),
        Some(_) => {
            let s1 = eat(inp, st);
            let c = parse_expression_spec(inp, s1).since(s1);
            match c.result {
                Err(e) => fail(c.st, e),
                Ok((cond, _)) => match peek(inp, c.st) {
                    None => fail(c.st, ParseError::Eof),
                    Some(k) => if k is Do {
                        let s2 = eat(inp, c.st);
                        let b = block_spec(inp, s2, true, Seq::empty()).since(s2);
                        match b.result {
                            Err(e) => fail(b.st, e),
                            Ok(body) => match peek(inp, b.st) {
                                None => fail(b.st, ParseError::Eof),
                                Some(k2) => done(
                                    if k2 is End {
                                        eat(inp, b.st)
                                    } else {
                                        b.st
                                    },
                                    (Expr::While(Box::new(cond), body), here(inp, st)),
                                ),
                            },
                        }
                    } else {
                        fail(c.st, syntax_at(c.st, SyntaxCause::ExpectedDoAfterWhile))
                    },
                },
            }
        },
    }
}

/// A declaration: `let`, a name, a colon, a type, and optionally `=` and the
/// first value.
pub open spec fn parse_declaration_spec(inp: Input, st: State) -> ParsedExpr
    decreases remaining(inp, st), 2nat,
{
    match peek(inp, st) {
        None => fail(st, ParseError::Eof),
        Some(_) => {
            let s1 = eat(inp, st);
            match peek(inp, s1) {
                None => fail(s1, ParseError::Eof),
                Some(TokenKind::Identifier(name)) => {
                    let s2 = eat(inp, s1);
                    match peek(inp, s2) {
                        None => fail(s2, ParseError::Eof),
                        Some(k) => if k is Colon {
                            declared_type_spec(inp, eat(inp, s2), name, here(inp, st))
                        } else {
                            fail(s2, syntax_at(s2, SyntaxCause::MissingColon))
                        },
                    }
                },
                Some(_) => fail(
                    eat(inp, s1),
                    syntax_at(eat(inp, s1), SyntaxCause::ExpectedNameAfterLet),
                ),
            }
        },
    }
}

/// The type of a declaration of `name` and what follows it.
pub open spec fn declared_type_spec(inp: Input, st: State, name: Seq<char>, at: NodePos) -> ParsedExpr
    decreases remaining(inp, st), 1nat,
{
    match peek(inp, st) {
        None => fail(st, ParseError::Eof),
        Some(TokenKind::Identifier(type_)) => {
            let s1 = skip(st);
            match peek(inp, s1) {
                None => fail(s1, ParseError::Eof),
                Some(k) => if k is Assign {
                    let s2 = eat(inp, s1);
                    let v = parse_expression_spec(inp, s2).since(s2);
                    match v.result {
                        Err(e) => fail(v.st, e),
                        Ok((value, _)) => done(
                            v.st,
                            (Expr::VarDecl { name, type_, value: Some(Box::new(value)) }, at),
                        ),
                    }
                } else {
                    done(s1, (Expr::VarDecl { name, type_, value: None }, at))
                },
            }
        },
        Some(_) => fail(skip(st), syntax_at(st, SyntaxCause::ExpectedTypeName)),
    }
}

/// The literal `true`.
pub open spec fn parse_true_spec(inp: Input, st: State) -> ParsedExpr {
    match peek(inp, st) {
        None => fail(st, ParseError::Eof),
        Some(_) => done(eat(inp, st), (Expr::Boolean(true), here(inp, st))),
    }
}

/// The literal `false`.
pub open spec fn parse_false_spec(inp: Input, st: State) -> ParsedExpr {
    match peek(inp, st) {
        None => fail(st, ParseError::Eof),
        Some(_) => done(eat(inp, st), (Expr::Boolean(false), here(inp, st))),
    }
}

/// What starts with a name: an assignment, an augmented assignment, a call,
/// or a reference to the name.
pub open spec fn parse_identifier_spec(inp: Input, st: State) -> ParsedExpr
    decreases remaining(inp, st), 2nat,
{
    match peek(inp, st) {
        None => fail(st, ParseError::Eof),
        Some(TokenKind::Identifier(name)) => {
            let s1 = eat(inp, st);
            match peek(inp, s1) {
                None => fail(s1, ParseError::Eof),
                Some(k) => if k is Assign {
                    let s2 = eat(inp, s1);
                    let v = parse_expression_spec(inp, s2).since(s2);
                    match v.result {
                        Err(e) => fail(v.st, e),
                        Ok((value, _)) => done(
                            v.st,
                            (Expr::Assign { name, value: Box::new(value) }, here(inp, st)),
                        ),
                    }
                } else if is_augmented_assignment(k) {
                    let s2 = eat(inp, s1);
                    let v = parse_expression_spec(inp, s2).since(s2);
                    match v.result {
                        Err(e) => fail(v.st, e),
                        Ok((value, _)) => done(
                            v.st,
                            (
                                Expr::AugAssign { name, op: k, value: Box::new(value) },
                                here(inp, st),
                            ),
                        ),
                    }
                } else if k is LParen {
                    call_args_spec(inp, eat(inp, s1), name, here(inp, st), Seq::empty())
                } else {
                    done(s1, (Expr::Identifier(name), here(inp, st)))
                },
            }
        },
        Some(_) => fail(eat(inp, st), syntax_at(eat(inp, st), SyntaxCause::InvalidExpression)),
    }
}

/// The arguments of a call of `name` behind those in `acc`, up to the closing
/// parenthesis. Arguments follow each other with or without a comma. Where no
/// argument can be read in front of a comma, the name alone is the value.
pub open spec fn call_args_spec(
    inp: Input,
    st: State,
    name: Seq<char>,
    at: NodePos,
    acc: Seq<Expr>,
) -> ParsedExpr
    decreases remaining(inp, st), 5nat,
{
    if peek(inp, st) is None {
        fail(st, ParseError::Eof)
    } else {
        let r = parse_expression_spec(inp, st).onward(st);
        match r.result {
            Ok((e, _)) => match peek(inp, r.st) {
                None => fail(r.st, ParseError::Eof),
                Some(k) => if k is Comma {
                    call_args_spec(inp, eat(inp, r.st), name, at, acc.push(e))
                } else {
                    call_args_spec(inp, r.st, name, at, acc.push(e))
                },
            },
            Err(e) => match peek(inp, r.st) {
                None => fail(r.st, ParseError::Eof),
                Some(k) => if k is Comma {
                    done(r.st, (Expr::Identifier(name), at))
                } else if k is RParen {
                    done(eat(inp, r.st), (Expr::FnCall(name, acc), at))
                } else {
                    fail(r.st, e)
                },
            },
        }
    }
}

/// `return` and the value that is returned.
pub open spec fn parse_return_spec(inp: Input, st: State) -> ParsedExpr
    decreases remaining(inp, st), 2nat,
{
    match peek(inp, st) {
        None => fail(st, ParseError::Eof),
        Some(_) => {
            let s1 = eat(inp, st);
            let r = parse_expression_spec(inp, s1).since(s1);
            match r.result {
                Err(e) => fail(r.st, e),
                Ok((e, _)) => done(r.st, (Expr::Return(Box::new(e)), here(inp, st))),
            }
        },
    }
}

/// A string literal.
pub open spec fn parse_string_spec(inp: Input, st: State) -> ParsedExpr {
    match peek(inp, st) {
        None => fail(st, ParseError::Eof),
        Some(TokenKind::Str(s)) => done(eat(inp, st), (Expr::Str(s), here(inp, st))),
        Some(_) => fail(eat(inp, st), syntax_at(eat(inp, st), SyntaxCause::InvalidExpression)),
    }
}

/// `use` and the name of the module, a string literal.
pub open spec fn parse_use_spec(inp: Input, st: State) -> ParsedExpr {
    match peek(inp, st) {
        None => fail(st, ParseError::Eof),
        Some(_) => {
            let s1 = eat(inp, st);
            match peek(inp, s1) {
                None => fail(s1, ParseError::Eof),
                Some(TokenKind::Str(s)) => done(eat(inp, s1), (Expr::Use(s), here(inp, st))),
                Some(_) => fail(eat(inp, s1), syntax_at(eat(inp, s1), SyntaxCause::InvalidUse)),
            }
        },
    }
}

} // verus!
