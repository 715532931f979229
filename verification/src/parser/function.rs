//! Parsing of declarations and definitions of functions.

use crate::lexer::tokens::TokenType;
use crate::names::texts;
use crate::parser::ast::{Args, ArgsModel, ExprValue, External, ExternalModel, Function, FunctionModel, NodePos, NodePosition};
use crate::parser::error::{ParseError, SyntaxCause};
use crate::parser::grammar::remaining;
use crate::parser::toplevel::{
    function_rest_spec, function_result_spec, params_spec, parse_extern_spec, parse_function_spec,
    parse_type_annot_spec,
};
use crate::parser::Parser;
use vstd::prelude::*;

verus! {

/// The model of a vector of texts grows with the vector.
pub proof fn lemma_texts_push(v: Seq<String>, s: String)
    ensures
        texts(v.push(s)) == texts(v).push(s@),
{
    assert(texts(v.push(s)) =~= texts(v).push(s@));
}

/// The model of an empty vector of texts is empty.
pub proof fn lemma_texts_empty()
    ensures
        texts(Seq::<String>::empty()) == Seq::<Seq<char>>::empty(),
{
    assert(texts(Seq::<String>::empty()) =~= Seq::<Seq<char>>::empty());
}

/// The model of what the parser of a parameter returns.
pub open spec fn annot_outcome(r: Result<(String, String), ParseError>) -> Result<
    (Seq<char>, Seq<char>),
    ParseError,
> {
    match r {
        Ok((n, t)) => Ok((n@, t@)),
        Err(e) => Err(e),
    }
}

/// The model of what the parser of a list of parameters returns.
pub open spec fn args_outcome(r: Result<Args, ParseError>) -> Result<ArgsModel, ParseError> {
    match r {
        Ok(a) => Ok(a@),
        Err(e) => Err(e),
    }
}

/// The model of what the parser of a declaration of an outside function returns.
pub open spec fn external_outcome(r: Result<(External, NodePosition), ParseError>) -> Result<
    (ExternalModel, NodePos),
    ParseError,
> {
    match r {
        Ok((e, at)) => Ok((e@, at@)),
        Err(e) => Err(e),
    }
}

/// The model of what the parser of a definition of a function returns.
pub open spec fn function_outcome(r: Result<(Function, NodePosition), ParseError>) -> Result<
    (FunctionModel, NodePos),
    ParseError,
> {
    match r {
        Ok((f, at)) => Ok((f@, at@)),
        Err(e) => Err(e),
    }
}

impl Parser {
    /// Parses a parameter: a name, a colon and a type.
    pub fn parse_type_annot(&mut self) -> (r: Result<(String, String), ParseError>)
        requires
            old(self).wf(),
        ensures
            final(self).continues(old(self)),
            final(self).state() == parse_type_annot_spec(old(self).input(), old(self).state()).st,
            annot_outcome(r) == parse_type_annot_spec(old(self).input(), old(self).state()).result,
            r is Ok ==> final(self).state().cursor > old(self).state().cursor,
    {
        if self.at_end() {
            return Err(ParseError::Eof);
        }
        let name: String = match self.peek_type() {
            TokenType::Identifier(n) => n.clone(),
            _ => {
                return Err(self.parser_error(SyntaxCause::ExpectedParameterName));
            },
        };
        self.eat();
        if self.at_end() {
            return Err(ParseError::Eof);
        }
        if !matches!(self.peek_type(), TokenType::Colon) {
            return Err(ParseError::Bare(SyntaxCause::ExpectedParameterColon));
        }
        self.eat();
        if self.at_end() {
            return Err(ParseError::Eof);
        }
        let type_: String = match self.peek_type() {
            TokenType::Identifier(t) => t.clone(),
            _ => {
                return Err(ParseError::Bare(SyntaxCause::ExpectedParameterType));
            },
        };
        self.eat();
        Ok((name, type_))
    }

    /// Parses the parameters of a function and the parenthesis that closes them.
    pub fn parse_params(&mut self) -> (r: Result<Args, ParseError>)
        requires
            old(self).wf(),
        ensures
            final(self).continues(old(self)),
            final(self).state() == params_spec(
                old(self).input(),
                old(self).state(),
                Seq::empty(),
                Seq::empty(),
            ).st,
            args_outcome(r) == params_spec(
                old(self).input(),
                old(self).state(),
                Seq::empty(),
                Seq::empty(),
            ).result,
    {
        let ghost inp = self.input();
        let ghost start = self.state();
        let mut args = Args { name: Vec::new(), type_: Vec::new() };
        proof {
            lemma_texts_empty();
        }
        loop
            invariant
                self.continues(old(self)),
                inp == old(self).input(),
                start == old(self).state(),
                params_spec(inp, self.state(), texts(args.name@), texts(args.type_@)) == params_spec(
                    inp,
                    start,
                    Seq::empty(),
                    Seq::empty(),
                ),
            decreases remaining(inp, self.state()),
        {
            proof {
                self.lemma_cursor_in_input();
            }
            if self.at_end() {
                return Err(ParseError::Eof);
            }
            if matches!(self.peek_type(), TokenType::Comma) {
                self.eat();
                continue ;
            }
            if matches!(self.peek_type(), TokenType::RParen) {
                self.eat();
                return Ok(args);
            }
            match self.parse_type_annot() {
                Ok((n, t)) => {
                    proof {
                        lemma_texts_push(args.name@, n);
                        lemma_texts_push(args.type_@, t);
                    }
                    args.name.push(n);
                    args.type_.push(t);
                },
                Err(e) => {
                    return Err(e);
                },
            }
        }
    }

    /// Parses the declaration of an outside function and records the
    /// function in the symbol table.
    pub fn parse_extern(&mut self) -> (r: Result<(External, NodePosition), ParseError>)
        requires
            old(self).wf(),
        ensures
            final(self).follows(old(self)),
            final(self).ctx() == parse_extern_spec(old(self).input(), old(self).ctx()).ctx,
            external_outcome(r) == parse_extern_spec(old(self).input(), old(self).ctx()).result,
            r is Ok ==> final(self).state().cursor > old(self).state().cursor,
    {
        if self.at_end() {
            return Err(ParseError::Eof);
        }
        let start = self.here();
        self.eat();
        if self.at_end() {
            return Err(ParseError::Eof);
        }
        let name: String = match self.peek_type() {
            TokenType::Identifier(n) => n.clone(),
            _ => {
                return Err(self.parser_error(SyntaxCause::ExpectedNameAfterExtern));
            },
        };
        self.eat();
        if self.at_end() {
            return Err(ParseError::Eof);
        }
        if !matches!(self.peek_type(), TokenType::LParen) {
            return Err(self.parser_error(SyntaxCause::ExpectedParenAfterExternName));
        }
        self.eat();
        let args: Args = match self.parse_params() {
            Err(e) => {
                return Err(e);
            },
            Ok(a) => a,
        };
        if self.at_end() {
            return Err(ParseError::Eof);
        }
        if !matches!(self.peek_type(), TokenType::Arrow) {
            return Err(self.parser_error(SyntaxCause::ExpectedArrow));
        }
        self.eat();
        if self.at_end() {
            return Err(ParseError::Eof);
        }
        let return_type: String = match self.peek_type() {
            TokenType::Identifier(n) => n.clone(),
            _ => {
                return Err(self.parser_error(SyntaxCause::ExpectedReturnTypeAfterExtern));
            },
        };
        self.eat();
        if self.at_end() {
            return Err(ParseError::Eof);
        }
        if !matches!(self.peek_type(), TokenType::Semicolon) {
            return Err(self.parser_error(SyntaxCause::ExpectedSemicolonAfterExtern));
        }
        self.eat();
        self.declare(name.clone(), return_type.clone());
        Ok((External { name, args, return_type }, start))
    }

    /// Parses what follows the name of a function in its definition.
    fn function_rest(&mut self, name: String) -> (r: Result<Function, ParseError>)
        requires
            old(self).wf(),
        ensures
            final(self).continues(old(self)),
            final(self).state() == function_rest_spec(old(self).input(), old(self).state(), name@).st,
            match r {
                Ok(f) => function_rest_spec(old(self).input(), old(self).state(), name@).result
                    == Ok::<FunctionModel, ParseError>(f@),
                Err(e) => function_rest_spec(old(self).input(), old(self).state(), name@).result
                    == Err::<FunctionModel, ParseError>(e),
            },
    {
        if self.at_end() {
            return Err(ParseError::Eof);
        }
        if !matches!(self.peek_type(), TokenType::LParen) {
            return Err(self.parser_error(SyntaxCause::ExpectedParenAfterDefName));
        }
        self.skip_token();
        if self.at_end() {
            return Err(ParseError::Eof);
        }
        let args: Args = if matches!(self.peek_type(), TokenType::RParen) {
            self.skip_token();
            let none = Args { name: Vec::new(), type_: Vec::new() };
            proof {
                lemma_texts_empty();
            }
            none
        } else {
            match self.parse_params() {
                Err(e) => {
                    return Err(e);
                },
                Ok(a) => a,
            }
        };
        self.function_result(name, args)
    }

    /// Parses what follows the parameters of a function in its definition.
    fn function_result(&mut self, name: String, args: Args) -> (r: Result<Function, ParseError>)
        requires
            old(self).wf(),
        ensures
            final(self).continues(old(self)),
            final(self).state() == function_result_spec(
                old(self).input(),
                old(self).state(),
                name@,
                args@,
            ).st,
            match r {
                Ok(f) => function_result_spec(old(self).input(), old(self).state(), name@, args@).result
                    == Ok::<FunctionModel, ParseError>(f@),
                Err(e) => function_result_spec(
                    old(self).input(),
                    old(self).state(),
                    name@,
                    args@,
                ).result == Err::<FunctionModel, ParseError>(e),
            },
    {
        if self.at_end() {
            return Err(ParseError::Eof);
        }
        if !matches!(self.peek_type(), TokenType::Arrow) {
            return Err(self.parser_error(SyntaxCause::ExpectedArrow));
        }
        self.eat();
        if self.at_end() {
            return Err(ParseError::Eof);
        }
        let return_type: String = match self.peek_type() {
            TokenType::Identifier(n) => n.clone(),
            _ => {
                return Err(self.parser_error(SyntaxCause::ExpectedReturnType));
            },
        };
        self.eat();
        if self.at_end() {
            return Err(ParseError::Eof);
        }
        if !matches!(self.peek_type(), TokenType::Do) {
            return Err(self.parser_error(SyntaxCause::ExpectedDoInFunction));
        }
        self.eat();
        let expressions: Vec<ExprValue> = match self.parse_block(false) {
            Err(e) => {
                return Err(e);
            },
            Ok(b) => b,
        };
        if self.at_end() {
            return Err(ParseError::Eof);
        }
        if !matches!(self.peek_type(), TokenType::End) {
            return Err(self.parser_error(SyntaxCause::ExpectedEnd));
        }
        self.eat();
        if !self.at_end() {
            if matches!(self.peek_type(), TokenType::Semicolon) {
                self.eat();
            }
        }
        Ok(Function { name, args, expressions, return_type })
    }

    /// Parses the definition of a function and records the function in the
    /// symbol table.
    pub fn parse_function(&mut self) -> (r: Result<(Function, NodePosition), ParseError>)
        requires
            old(self).wf(),
        ensures
            final(self).follows(old(self)),
            final(self).ctx() == parse_function_spec(old(self).input(), old(self).ctx()).ctx,
            function_outcome(r) == parse_function_spec(old(self).input(), old(self).ctx()).result,
            r is Ok ==> final(self).state().cursor > old(self).state().cursor,
    {
        if self.at_end() {
            return Err(ParseError::Bare(SyntaxCause::NotAFunction));
        }
        if !matches!(self.peek_type(), TokenType::Def) {
            return Err(ParseError::Bare(SyntaxCause::NotAFunction));
        }
        let start = self.here();
        self.eat();
        if self.at_end() {
            return Err(ParseError::Eof);
        }
        let name: String = match self.peek_type() {
            TokenType::Identifier(n) => n.clone(),
            _ => {
                return Err(self.parser_error(SyntaxCause::ExpectedNameAfterDef));
            },
        };
        self.eat();
        self.enter_scope(name.as_str());
        match self.function_rest(name.clone()) {
            Err(e) => Err(e),
            Ok(f) => {
                self.leave_scope();
                self.declare(name, f.return_type.clone());
                Ok((f, start))
            },
        }
    }
}

} // verus!
