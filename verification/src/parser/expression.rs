//! Parsing of expressions.

use crate::lexer::tokens::TokenType;
use crate::parser::ast::{exprs_view, lemma_exprs_view_push, ExprValue, NodePosition};
use crate::parser::error::{ParseError, SyntaxCause};
use crate::parser::{expr_outcome, exprs_outcome, text_outcome};
use crate::parser::grammar::{
    array_items_spec, binop_tail_spec, block_spec, call_args_spec, eat, here, if_tail_spec,
    if_type_spec, parse_array_spec, parse_declaration_spec, parse_expression_spec,
    parse_false_spec, parse_identifier_spec, parse_if_else_spec, parse_index_spec,
    parse_paren_expression_spec, parse_return_spec, parse_string_spec, parse_true_spec,
    parse_unop_spec, parse_use_spec, parse_while_spec, remaining,
};
use crate::parser::Parser;
use vstd::prelude::*;

verus! {

impl Parser {
    /// Parses an expression: a primary expression and the operators and
    /// right operands behind it.
    pub fn parse_expression(&mut self) -> (r: Result<(ExprValue, NodePosition), ParseError>)
        requires
            old(self).wf(),
        ensures
            old(self).yields(
                final(self),
                r,
                parse_expression_spec(old(self).input(), old(self).state()),
            ),
        decreases remaining(old(self).input(), old(self).state()), 3nat,
    {
        proof {
            self.lemma_cursor_in_input();
        }
        if self.at_end() {
            return Err(ParseError::Eof);
        }
        let primary: Result<(ExprValue, NodePosition), ParseError> = match self.peek_type() {
            TokenType::LParen => {
                self.eat();
                self.parse_paren_expression()
            },
            TokenType::LBrack => self.parse_array(),
            TokenType::Plus | TokenType::Minus | TokenType::Not => self.parse_unop(),
            TokenType::If => self.parse_if_else(),
            TokenType::While => self.parse_while(),
            TokenType::Let => self.parse_declaration(),
            TokenType::True => self.parse_true(),
            TokenType::False => self.parse_false(),
            TokenType::Identifier(_) => self.parse_identifier(),
            TokenType::Return => self.parse_return(),
            TokenType::Use => self.parse_use(),
            TokenType::Integer(i) => {
                let value: i32 = *i;
                let at = self.here();
                self.eat();
                Ok((ExprValue::Integer(value), at))
            },
            TokenType::Str(_) => self.parse_string(),
            _ => {
                return Err(self.parser_error(SyntaxCause::InvalidExpression));
            },
        };
        match primary {
            Err(e) => Err(e),
            Ok((left, at)) => self.binop_tail(left, at),
        }
    }

    /// Parses what follows a left operand.
    #[verifier::rlimit(60)]
    fn binop_tail(&mut self, left: ExprValue, at: NodePosition) -> (r: Result<
        (ExprValue, NodePosition),
        ParseError,
    >)
        requires
            old(self).wf(),
        ensures
            final(self).continues(old(self)),
            final(self).state() == binop_tail_spec(
                old(self).input(),
                old(self).state(),
                left@,
                at@,
            ).st,
            expr_outcome(r) == binop_tail_spec(
                old(self).input(),
                old(self).state(),
                left@,
                at@,
            ).result,
        decreases remaining(old(self).input(), old(self).state()), 1nat,
    {
        proof {
            self.lemma_cursor_in_input();
        }
        if self.at_end() {
            return Err(ParseError::Eof);
        }
        let is_index: bool = matches!(self.peek_type(), TokenType::LBrack);
        if is_index {
            return self.parse_index();
        }
        let op: TokenType = match self.peek_type() {
            TokenType::Plus => TokenType::Plus,
            TokenType::Minus => TokenType::Minus,
            TokenType::Div => TokenType::Div,
            TokenType::Mul => TokenType::Mul,
            TokenType::Less => TokenType::Less,
            TokenType::Dot => TokenType::Dot,
            TokenType::LessEq => TokenType::LessEq,
            TokenType::Greater => TokenType::Greater,
            TokenType::GreaterEq => TokenType::GreaterEq,
            TokenType::Equal => TokenType::Equal,
            TokenType::NotEq => TokenType::NotEq,
            _ => {
                return Ok((left, at));
            },
        };
        self.eat();
        let right = self.parse_expression();
        proof {
            self.lemma_cursor_in_input();
        }
        if self.at_end() {
            return Err(ParseError::Eof);
        }
        let chain: bool = match self.peek_type() {
            TokenType::Plus
            | TokenType::Minus
            | TokenType::Div
            | TokenType::Mul
            | TokenType::Less
            | TokenType::LessEq
            | TokenType::Greater
            | TokenType::GreaterEq
            | TokenType::Equal
            | TokenType::NotEq => true,
            _ => false,
        };
        if chain {
            return self.binop_tail(left, at);
        }
        match right {
            Err(e) => Err(e),
            Ok((value, _)) => {
                let place = self.noted();
                Ok((ExprValue::BinOp(Box::new(left), Box::new(op), Box::new(value)), place))
            },
        }
    }

    /// Parses a unary operator and its operand.
    pub fn parse_unop(&mut self) -> (r: Result<(ExprValue, NodePosition), ParseError>)
        requires
            old(self).wf(),
        ensures
            old(self).yields(final(self), r, parse_unop_spec(old(self).input(), old(self).state())),
        decreases remaining(old(self).input(), old(self).state()), 2nat,
    {
        proof {
            self.lemma_cursor_in_input();
        }
        if self.at_end() {
            return Err(ParseError::Eof);
        }
        let start = self.here();
        let op: TokenType = self.peek_type().duplicate();
        self.eat();
        self.advance();
        match self.parse_expression() {
            Err(e) => Err(e),
            Ok((e, _)) => Ok((ExprValue::UnOp(Box::new(op), Box::new(e)), start)),
        }
    }

    /// Parses an index behind an expression, which the language refuses.
    pub fn parse_index(&mut self) -> (r: Result<(ExprValue, NodePosition), ParseError>)
        requires
            old(self).wf(),
        ensures
            old(self).yields(final(self), r, parse_index_spec(old(self).input(), old(self).state())),
        decreases remaining(old(self).input(), old(self).state()), 0nat,
    {
        proof {
            self.lemma_cursor_in_input();
        }
        if self.at_end() {
            return Err(ParseError::Eof);
        }
        self.eat();
        let _inner = self.parse_expression();
        if self.at_end() {
            return Err(ParseError::Eof);
        }
        let closed: bool = matches!(self.peek_type(), TokenType::RBrack);
        let e = self.parser_error(SyntaxCause::MissingCloseBracket);
        self.skip_token();
        if closed {
            Err(ParseError::Unsupported)
        } else {
            Err(e)
        }
    }

    /// Parses an expression and the parenthesis that closes it.
    pub fn parse_paren_expression(&mut self) -> (r: Result<(ExprValue, NodePosition), ParseError>)
        requires
            old(self).wf(),
        ensures
            final(self).continues(old(self)),
            final(self).state() == parse_paren_expression_spec(
                old(self).input(),
                old(self).state(),
            ).st,
            expr_outcome(r) == parse_paren_expression_spec(
                old(self).input(),
                old(self).state(),
            ).result,
            r is Ok ==> final(self).state().cursor > old(self).state().cursor,
        decreases remaining(old(self).input(), old(self).state()), 5nat,
    {
        match self.parse_expression() {
            Err(e) => Err(e),
            Ok((e, _)) => {
                if self.at_end() {
                    return Err(ParseError::Eof);
                }
                if matches!(self.peek_type(), TokenType::RParen) {
                    let at = self.here();
                    self.eat();
                    Ok((e, at))
                } else {
                    Err(self.parser_error(SyntaxCause::MissingCloseParen))
                }
            },
        }
    }

    /// Parses an array literal.
    pub fn parse_array(&mut self) -> (r: Result<(ExprValue, NodePosition), ParseError>)
        requires
            old(self).wf(),
        ensures
            old(self).yields(final(self), r, parse_array_spec(old(self).input(), old(self).state())),
        decreases remaining(old(self).input(), old(self).state()), 2nat,
    {
        proof {
            self.lemma_cursor_in_input();
        }
        if self.at_end() {
            return Err(ParseError::Eof);
        }
        let first = self.here();
        self.eat();
        if self.at_end() {
            return Err(ParseError::Eof);
        }
        let type_: String = match self.peek_type() {
            TokenType::Identifier(n) => n.clone(),
            _ => {
                self.eat();
                return Err(self.parser_error(SyntaxCause::ExpectedArrayType));
            },
        };
        self.eat();
        self.array_items(type_, first)
    }

    /// Parses the elements of an array literal and its closing bracket.
    fn array_items(&mut self, type_: String, first: NodePosition) -> (r: Result<
        (ExprValue, NodePosition),
        ParseError,
    >)
        requires
            old(self).wf(),
        ensures
            final(self).continues(old(self)),
            final(self).state() == array_items_spec(
                old(self).input(),
                old(self).state(),
                type_@,
                Seq::empty(),
                first@,
            ).st,
            expr_outcome(r) == array_items_spec(
                old(self).input(),
                old(self).state(),
                type_@,
                Seq::empty(),
                first@,
            ).result,
        decreases remaining(old(self).input(), old(self).state()), 5nat,
    {
        let ghost inp = self.input();
        let ghost start = self.state();
        let ghost first_at = first@;
        let mut expressions: Vec<ExprValue> = Vec::new();
        let mut pos = first;
        proof {
            lemma_exprs_view_push(expressions@, ExprValue::Boolean(false));
        }
        loop
            invariant
                self.continues(old(self)),
                inp == old(self).input(),
                start == old(self).state(),
                first_at == first@,
                array_items_spec(inp, self.state(), type_@, exprs_view(expressions@), pos@)
                    == array_items_spec(inp, start, type_@, Seq::empty(), first_at),
            decreases remaining(inp, self.state()),
        {
            proof {
                self.lemma_cursor_in_input();
            }
            if self.at_end() {
                return Err(ParseError::Eof);
            }
            if matches!(self.peek_type(), TokenType::Comma) {
                self.eat();
                continue ;
            }
            if matches!(self.peek_type(), TokenType::RBrack) {
                self.eat();
                return Ok((ExprValue::Array(expressions, type_), pos));
            }
            match self.parse_expression() {
                Ok((e, p)) => {
                    proof {
                        lemma_exprs_view_push(expressions@, e);
                    }
                    expressions.push(e);
                    pos = p;
                },
                Err(e) => {
                    return Err(e);
                },
            }
        }
    }

    /// Parses the expressions of a block, up to the token that closes it.
    pub fn parse_block(&mut self, strict: bool) -> (r: Result<Vec<ExprValue>, ParseError>)
        requires
            old(self).wf(),
        ensures
            final(self).continues(old(self)),
            final(self).state() == block_spec(
                old(self).input(),
                old(self).state(),
                strict,
                Seq::empty(),
            ).st,
            exprs_outcome(r) == block_spec(
                old(self).input(),
                old(self).state(),
                strict,
                Seq::empty(),
            ).result,
        decreases remaining(old(self).input(), old(self).state()), 5nat,
    {
        let ghost inp = self.input();
        let ghost start = self.state();
        let mut expressions: Vec<ExprValue> = Vec::new();
        proof {
            lemma_exprs_view_push(expressions@, ExprValue::Boolean(false));
        }
        loop
            invariant
                self.continues(old(self)),
                inp == old(self).input(),
                start == old(self).state(),
                block_spec(inp, self.state(), strict, exprs_view(expressions@)) == block_spec(
                    inp,
                    start,
                    strict,
                    Seq::empty(),
                ),
            decreases remaining(inp, self.state()),
        {
            proof {
                self.lemma_cursor_in_input();
            }
            if self.at_end() {
                return Err(ParseError::Eof);
            }
            match self.parse_expression() {
                Ok((e, _)) => {
                    if self.at_end() {
                        return Err(ParseError::Eof);
                    }
                    proof {
                        lemma_exprs_view_push(expressions@, e);
                    }
                    expressions.push(e);
                    if matches!(self.peek_type(), TokenType::Semicolon) {
                        self.eat();
                    } else if matches!(self.peek_type(), TokenType::End) {
                        return Ok(expressions);
                    } else if strict {
                        return Err(self.parser_error(SyntaxCause::ExpectedSemicolonOrEnd));
                    }
                },
                Err(e) => {
                    if e == self.parser_error(SyntaxCause::InvalidExpression) {
                        if self.at_end() {
                            return Err(ParseError::Eof);
                        }
                        if matches!(self.peek_type(), TokenType::End) || matches!(
                            self.peek_type(),
                            TokenType::Semicolon
                        ) {
                            return Ok(expressions);
                        }
                        return Err(e);
                    }
                    return Err(e);
                },
            }
        }
    }

    /// Parses the type that a conditional declares for its value.
    fn if_type(&mut self) -> (r: Result<String, ParseError>)
        requires
            old(self).wf(),
        ensures
            final(self).continues(old(self)),
            final(self).state() == if_type_spec(old(self).input(), old(self).state()).st,
            text_outcome(r) == if_type_spec(old(self).input(), old(self).state()).result,
    {
        if self.at_end() {
            return Err(ParseError::Eof);
        }
        if matches!(self.peek_type(), TokenType::Colon) {
            self.eat();
            if self.at_end() {
                return Err(ParseError::Eof);
            }
            let named: Option<String> = match self.peek_type() {
                TokenType::Identifier(t) => Some(t.clone()),
                _ => None,
            };
            match named {
                Some(t) => {
                    self.eat();
                    Ok(t)
                },
                None => Ok(String::from_str("void")),
            }
        } else {
            Ok(String::from_str("void"))
        }
    }

    /// Parses a conditional.
    pub fn parse_if_else(&mut self) -> (r: Result<(ExprValue, NodePosition), ParseError>)
        requires
            old(self).wf(),
        ensures
            old(self).yields(
                final(self),
                r,
                parse_if_else_spec(old(self).input(), old(self).state()),
            ),
        decreases remaining(old(self).input(), old(self).state()), 2nat,
    {
        proof {
            self.lemma_cursor_in_input();
        }
        if self.at_end() {
            return Err(ParseError::Eof);
        }
        let start = self.here();
        self.eat();
        let type_: String = match self.if_type() {
            Err(e) => {
                return Err(e);
            },
            Ok(t) => t,
        };
        let cond: ExprValue = match self.parse_expression() {
            Err(e) => {
                return Err(e);
            },
            Ok((c, _)) => c,
        };
        if self.at_end() {
            return Err(ParseError::Eof);
        }
        if !matches!(self.peek_type(), TokenType::Do) {
            return Err(self.parser_error(SyntaxCause::ExpectedDoAfterIf));
        }
        self.eat();
        let then_: Vec<ExprValue> = match self.parse_block(true) {
            Err(e) => {
                return Err(e);
            },
            Ok(b) => b,
        };
        self.if_tail(cond, then_, type_, start)
    }

    /// Parses what follows the first block of a conditional.
    #[verifier::rlimit(60)]
    fn if_tail(
        &mut self,
        cond: ExprValue,
        then_: Vec<ExprValue>,
        type_: String,
        start: NodePosition,
    ) -> (r: Result<(ExprValue, NodePosition), ParseError>)
        requires
            old(self).wf(),
        ensures
            final(self).continues(old(self)),
            final(self).state() == if_tail_spec(
                old(self).input(),
                old(self).state(),
                cond@,
                exprs_view(then_@),
                type_@,
                start@,
            ).st,
            expr_outcome(r) == if_tail_spec(
                old(self).input(),
                old(self).state(),
                cond@,
                exprs_view(then_@),
                type_@,
                start@,
            ).result,
        decreases remaining(old(self).input(), old(self).state()), 6nat,
    {
        proof {
            self.lemma_cursor_in_input();
        }
        if self.at_end() {
            return Err(ParseError::Eof);
        }
        if matches!(self.peek_type(), TokenType::End) {
            self.eat();
        }
        if self.at_end() {
            return Err(ParseError::Eof);
        }
        if !matches!(self.peek_type(), TokenType::Else) {
            let none: Vec<ExprValue> = Vec::new();
            proof {
                lemma_exprs_view_push(none@, ExprValue::Boolean(false));
            }
            return Ok(
                (ExprValue::IfElse { cond: Box::new(cond), if_: then_, else_: none, type_ }, start),
            );
        }
        self.eat();
        if self.at_end() {
            return Err(ParseError::Eof);
        }
        if !matches!(self.peek_type(), TokenType::Do) {
            return Err(self.parser_error(SyntaxCause::ExpectedDoAfterElse));
        }
        self.eat();
        let else_: Vec<ExprValue> = match self.parse_block(true) {
            Err(e) => {
                return Err(e);
            },
            Ok(b) => b,
        };
        if self.at_end() {
            return Err(ParseError::Eof);
        }
        if !matches!(self.peek_type(), TokenType::End) {
            return Err(self.parser_error(SyntaxCause::MissingEndAtElse));
        }
        self.eat();
        Ok((ExprValue::IfElse { cond: Box::new(cond), if_: then_, else_, type_ }, start))
    }

    /// Parses a loop.
    pub fn parse_while(&mut self) -> (r: Result<(ExprValue, NodePosition), ParseError>)
        requires
            old(self).wf(),
        ensures
            old(self).yields(final(self), r, parse_while_spec(old(self).input(), old(self).state())),
        decreases remaining(old(self).input(), old(self).state()), 2nat,
    {
        proof {
            self.lemma_cursor_in_input();
        }
        if self.at_end() {
            return Err(ParseError::Eof);
        }
        let start = self.here();
        self.eat();
        let cond: ExprValue = match self.parse_expression() {
            Err(e) => {
                return Err(e);
            },
            Ok((c, _)) => c,
        };
        if self.at_end() {
            return Err(ParseError::Eof);
        }
        if !matches!(self.peek_type(), TokenType::Do) {
            return Err(self.parser_error(SyntaxCause::ExpectedDoAfterWhile));
        }
        self.eat();
        let body: Vec<ExprValue> = match self.parse_block(true) {
            Err(e) => {
                return Err(e);
            },
            Ok(b) => b,
        };
        if self.at_end() {
            return Err(ParseError::Eof);
        }
        if matches!(self.peek_type(), TokenType::End) {
            self.eat();
        }
        Ok((ExprValue::While(Box::new(cond), body), start))
    }

    /// Parses a declaration.
    pub fn parse_declaration(&mut self) -> (r: Result<(ExprValue, NodePosition), ParseError>)
        requires
            old(self).wf(),
        ensures
            old(self).yields(
                final(self),
                r,
                parse_declaration_spec(old(self).input(), old(self).state()),
            ),
        decreases remaining(old(self).input(), old(self).state()), 2nat,
    {
        proof {
            self.lemma_cursor_in_input();
        }
        if self.at_end() {
            return Err(ParseError::Eof);
        }
        let start = self.here();
        self.eat();
        if self.at_end() {
            return Err(ParseError::Eof);
        }
        let name: String = match self.peek_type() {
            TokenType::Identifier(n) => n.clone(),
            _ => {
                self.eat();
                return Err(self.parser_error(SyntaxCause::ExpectedNameAfterLet));
            },
        };
        self.eat();
        if self.at_end() {
            return Err(ParseError::Eof);
        }
        if !matches!(self.peek_type(), TokenType::Colon) {
            return Err(self.parser_error(SyntaxCause::MissingColon));
        }
        self.eat();
        if self.at_end() {
            return Err(ParseError::Eof);
        }
        let type_: String = match self.peek_type() {
            TokenType::Identifier(t) => t.clone(),
            _ => {
                let e = self.parser_error(SyntaxCause::ExpectedTypeName);
                self.skip_token();
                return Err(e);
            },
        };
        self.skip_token();
        if self.at_end() {
            return Err(ParseError::Eof);
        }
        if matches!(self.peek_type(), TokenType::Assign) {
            self.eat();
            match self.parse_expression() {
                Err(e) => Err(e),
                Ok((v, _)) => Ok((ExprValue::VarDecl { name, type_, value: Some(Box::new(v)) }, start)),
            }
        } else {
            Ok((ExprValue::VarDecl { name, type_, value: None }, start))
        }
    }

    /// Parses the literal `true`.
    pub fn parse_true(&mut self) -> (r: Result<(ExprValue, NodePosition), ParseError>)
        requires
            old(self).wf(),
        ensures
            old(self).yields(final(self), r, parse_true_spec(old(self).input(), old(self).state())),
    {
        if self.at_end() {
            return Err(ParseError::Eof);
        }
        let at = self.here();
        self.eat();
        Ok((ExprValue::Boolean(true), at))
    }

    /// Parses the literal `false`.
    pub fn parse_false(&mut self) -> (r: Result<(ExprValue, NodePosition), ParseError>)
        requires
            old(self).wf(),
        ensures
            old(self).yields(final(self), r, parse_false_spec(old(self).input(), old(self).state())),
    {
        if self.at_end() {
            return Err(ParseError::Eof);
        }
        let at = self.here();
        self.eat();
        Ok((ExprValue::Boolean(false), at))
    }

    /// Parses what starts with a name: an assignment, an augmented
    /// assignment, a call, or a reference to the name.
    pub fn parse_identifier(&mut self) -> (r: Result<(ExprValue, NodePosition), ParseError>)
        requires
            old(self).wf(),
        ensures
            old(self).yields(
                final(self),
                r,
                parse_identifier_spec(old(self).input(), old(self).state()),
            ),
        decreases remaining(old(self).input(), old(self).state()), 2nat,
    {
        proof {
            self.lemma_cursor_in_input();
        }
        if self.at_end() {
            return Err(ParseError::Eof);
        }
        let start = self.here();
        let name: String = match self.peek_type() {
            TokenType::Identifier(n) => n.clone(),
            _ => {
                self.eat();
                return Err(self.parser_error(SyntaxCause::InvalidExpression));
            },
        };
        self.eat();
        if self.at_end() {
            return Err(ParseError::Eof);
        }
        if matches!(self.peek_type(), TokenType::Assign) {
            self.eat();
            return match self.parse_expression() {
                Err(e) => Err(e),
                Ok((v, _)) => Ok((ExprValue::Assign { name, value: Box::new(v) }, start)),
            };
        }
        let augmented: Option<TokenType> = match self.peek_type() {
            TokenType::PlusEq => Some(TokenType::PlusEq),
            TokenType::MinusEq => Some(TokenType::MinusEq),
            TokenType::DivEq => Some(TokenType::DivEq),
            TokenType::MulEq => Some(TokenType::MulEq),
            _ => None,
        };
        match augmented {
            Some(op) => {
                self.eat();
                return match self.parse_expression() {
                    Err(e) => Err(e),
                    Ok((v, _)) => Ok(
                        (ExprValue::AugAssign { name, op: Box::new(op), value: Box::new(v) }, start),
                    ),
                };
            },
            None => {},
        }
        if matches!(self.peek_type(), TokenType::LParen) {
            self.eat();
            return self.call_args(name, start);
        }
        Ok((ExprValue::Identifier(name), start))
    }

    /// Parses the arguments of a call and its closing parenthesis.
    fn call_args(&mut self, name: String, start: NodePosition) -> (r: Result<
        (ExprValue, NodePosition),
        ParseError,
    >)
        requires
            old(self).wf(),
        ensures
            final(self).continues(old(self)),
            final(self).state() == call_args_spec(
                old(self).input(),
                old(self).state(),
                name@,
                start@,
                Seq::empty(),
            ).st,
            expr_outcome(r) == call_args_spec(
                old(self).input(),
                old(self).state(),
                name@,
                start@,
                Seq::empty(),
            ).result,
        decreases remaining(old(self).input(), old(self).state()), 5nat,
    {
        let ghost inp = self.input();
        let ghost begin = self.state();
        let mut values: Vec<ExprValue> = Vec::new();
        proof {
            lemma_exprs_view_push(values@, ExprValue::Boolean(false));
        }
        loop
            invariant
                self.continues(old(self)),
                inp == old(self).input(),
                begin == old(self).state(),
                call_args_spec(inp, self.state(), name@, start@, exprs_view(values@))
                    == call_args_spec(inp, begin, name@, start@, Seq::empty()),
            decreases remaining(inp, self.state()),
        {
            proof {
                self.lemma_cursor_in_input();
            }
            if self.at_end() {
                return Err(ParseError::Eof);
            }
            match self.parse_expression() {
                Ok((e, _)) => {
                    if self.at_end() {
                        return Err(ParseError::Eof);
                    }
                    proof {
                        lemma_exprs_view_push(values@, e);
                    }
                    values.push(e);
                    if matches!(self.peek_type(), TokenType::Comma) {
                        self.eat();
                    }
                },
                Err(e) => {
                    if self.at_end() {
                        return Err(ParseError::Eof);
                    }
                    if matches!(self.peek_type(), TokenType::Comma) {
                        return Ok((ExprValue::Identifier(name), start));
                    }
                    if matches!(self.peek_type(), TokenType::RParen) {
                        self.eat();
                        return Ok((ExprValue::FnCall(name, values), start));
                    }
                    return Err(e);
                },
            }
        }
    }

    /// Parses `return` and the value that is returned.
    pub fn parse_return(&mut self) -> (r: Result<(ExprValue, NodePosition), ParseError>)
        requires
            old(self).wf(),
        ensures
            old(self).yields(final(self), r, parse_return_spec(old(self).input(), old(self).state())),
        decreases remaining(old(self).input(), old(self).state()), 2nat,
    {
        proof {
            self.lemma_cursor_in_input();
        }
        if self.at_end() {
            return Err(ParseError::Eof);
        }
        let start = self.here();
        self.eat();
        match self.parse_expression() {
            Err(e) => Err(e),
            Ok((e, _)) => Ok((ExprValue::Return(Box::new(e)), start)),
        }
    }

    /// Parses a string literal.
    pub fn parse_string(&mut self) -> (r: Result<(ExprValue, NodePosition), ParseError>)
        requires
            old(self).wf(),
        ensures
            old(self).yields(final(self), r, parse_string_spec(old(self).input(), old(self).state())),
    {
        if self.at_end() {
            return Err(ParseError::Eof);
        }
        let at = self.here();
        let text: Option<String> = match self.peek_type() {
            TokenType::Str(s) => Some(s.clone()),
            _ => None,
        };
        self.eat();
        match text {
            Some(s) => Ok((ExprValue::Str(s), at)),
            None => Err(self.parser_error(SyntaxCause::InvalidExpression)),
        }
    }

    /// Parses `use` and the name of the module.
    pub fn parse_use(&mut self) -> (r: Result<(ExprValue, NodePosition), ParseError>)
        requires
            old(self).wf(),
        ensures
            old(self).yields(final(self), r, parse_use_spec(old(self).input(), old(self).state())),
    {
        if self.at_end() {
            return Err(ParseError::Eof);
        }
        let start = self.here();
        self.eat();
        if self.at_end() {
            return Err(ParseError::Eof);
        }
        let text: Option<String> = match self.peek_type() {
            TokenType::Str(s) => Some(s.clone()),
            _ => None,
        };
        self.eat();
        match text {
            Some(s) => Ok((ExprValue::Use(s), start)),
            None => Err(self.parser_error(SyntaxCause::InvalidUse)),
        }
    }
}

} // verus!
