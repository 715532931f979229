//! Recursive-descent parsing of a token sequence into a syntax tree.
//!
//! The grammar is stated in [`grammar`] and [`toplevel`] as functions on
//! sequences of tokens; the methods of [`Parser`] compute those functions.

pub mod ast;
pub mod class;
pub mod error;
pub mod expression;
pub mod function;
pub mod grammar;
pub mod laws;
pub mod program;
pub mod toplevel;

use crate::lexer::tokens::{Token, TokenType};
use crate::lexer::token_models;
use crate::parser::ast::{exprs_view, Expr, ExprValue, NodePos, NodePosition};
use crate::parser::error::{ParseError, SyntaxCause};
use crate::parser::grammar::{eat, here, look, peek, skip, syntax_at, Input, ParsedExpr, State};
use crate::parser::toplevel::{record, Ctx, Table};
use crate::{Symbol, SymbolModel, SymbolTable};
use vstd::prelude::*;

verus! {

/// A parser that generates an abstract syntax tree.
pub struct Parser {
    tokens: Vec<Token>,
    /// Index of the next token.
    cursor: usize,
    pub symtab: SymbolTable,
    current_scope: String,
    pos: i32,
    line_no: i32,
    file: String,
}

/// The model of what an expression parser returns.
pub open spec fn expr_outcome(r: Result<(ExprValue, NodePosition), ParseError>) -> Result<
    (Expr, NodePos),
    ParseError,
> {
    match r {
        Ok((e, at)) => Ok((e@, at@)),
        Err(e) => Err(e),
    }
}

/// The model of what a parser of a sequence of expressions returns.
pub open spec fn exprs_outcome(r: Result<Vec<ExprValue>, ParseError>) -> Result<
    Seq<Expr>,
    ParseError,
> {
    match r {
        Ok(v) => Ok(exprs_view(v@)),
        Err(e) => Err(e),
    }
}

/// The model of what a parser of a name returns.
pub open spec fn text_outcome(r: Result<String, ParseError>) -> Result<Seq<char>, ParseError> {
    match r {
        Ok(s) => Ok(s@),
        Err(e) => Err(e),
    }
}

impl Parser {
    /// What the parser reads.
    pub closed spec fn input(&self) -> Input {
        Input { toks: token_models(self.tokens@), file: self.file@ }
    }

    /// Where the parser stands.
    pub closed spec fn state(&self) -> State {
        State { cursor: self.cursor as int, pos: self.pos, line_no: self.line_no }
    }

    /// The label of the scope that the parser is in.
    pub closed spec fn scope(&self) -> Seq<char> {
        self.current_scope@
    }

    /// The symbols that the parser has recorded.
    pub closed spec fn symbols(&self) -> SymbolTable {
        self.symtab
    }

    /// The invariant of a parser: it stands inside its input.
    pub closed spec fn wf(&self) -> bool {
        &&& self.cursor <= self.tokens.len()
        &&& self.symtab.wf()
    }

    /// Whether this parser is a well-formed successor of `old`: on the same
    /// input, and not before where `old` stands.
    pub open spec fn follows(&self, old: &Parser) -> bool {
        &&& self.wf()
        &&& self.input() == old.input()
        &&& old.state().cursor <= self.state().cursor <= self.input().toks.len()
    }

    /// Whether this parser is a successor of `old` with the same symbols and
    /// in the same scope.
    pub open spec fn continues(&self, old: &Parser) -> bool {
        &&& self.follows(old)
        &&& self.symbols() == old.symbols()
        &&& self.scope() == old.scope()
    }

    /// Whether `new` and `r` are what a parser of expressions leaves and
    /// returns that started in this parser's state and is specified by
    /// `expected`. Such a parser passes at least one token where it succeeds.
    pub open spec fn yields(
        &self,
        new: &Parser,
        r: Result<(ExprValue, NodePosition), ParseError>,
        expected: ParsedExpr,
    ) -> bool {
        &&& new.continues(self)
        &&& new.state() == expected.st
        &&& expr_outcome(r) == expected.result
        &&& r is Ok ==> new.state().cursor > self.state().cursor
    }

    /// The model of the symbols that the parser has recorded.
    pub open spec fn table(&self) -> Table {
        Table { names: self.symbols().names(), symbols: self.symbols().symbols() }
    }

    /// What parsing at the top level reads and changes.
    pub open spec fn ctx(&self) -> Ctx {
        Ctx { st: self.state(), scope: self.scope(), table: self.table() }
    }

    /// A well-formed parser stands inside its input.
    pub proof fn lemma_cursor_in_input(&self)
        requires
            self.wf(),
        ensures
            0 <= self.state().cursor <= self.input().toks.len(),
    {
    }

    /// A parser at the start of `tokens`, which come from `file_path`, in the
    /// scope `global` and with no symbols.
    pub fn new(tokens: Vec<Token>, file_path: &str) -> (r: Self)
        ensures
            r.wf(),
            r.input() == (Input { toks: token_models(tokens@), file: file_path@ }),
            r.state() == (State { cursor: 0, pos: -1i32, line_no: 1i32 }),
            r.scope() == "global"@,
            r.table() == (Table { names: Seq::empty(), symbols: Seq::empty() }),
    {
        Parser {
            tokens,
            cursor: 0,
            symtab: SymbolTable::new(),
            current_scope: String::from_str("global"),
            pos: -1,
            line_no: 1,
            file: String::from_str(file_path),
        }
    }

    /// Whether `tok` is an operator that has a precedence.
    pub open spec fn has_precedence(tok: TokenType) -> bool {
        tok is Equal || tok is NotEq || tok is Greater || tok is GreaterEq || tok is Less
            || tok is LessEq || tok is Minus || tok is Plus || tok is DivEq || tok is Mul
    }

    /// The precedence of an operator: 0 for comparisons, 1 for `+` and `-`,
    /// 2 for `/=` and `*`.
    pub fn get_tok_precedence(&mut self, tok: TokenType) -> (r: i32)
        requires
            Self::has_precedence(tok),
        ensures
            *final(self) == *old(self),
            r == if tok is Minus || tok is Plus {
                1i32
            } else if tok is DivEq || tok is Mul {
                2i32
            } else {
                0i32
            },
    {
        match tok {
            TokenType::Equal
            | TokenType::NotEq
            | TokenType::Greater
            | TokenType::GreaterEq
            | TokenType::Less
            | TokenType::LessEq => 0,
            TokenType::Minus | TokenType::Plus => 1,
            _ => 2,
        }
    }

    /// Whether no token is left.
    pub fn at_end(&self) -> (r: bool)
        requires
            self.wf(),
        ensures
            r == (peek(self.input(), self.state()) is None),
            r == (self.state().cursor >= self.input().toks.len()),
    {
        self.cursor >= self.tokens.len()
    }

    /// The kind of the next token.
    pub fn peek_type(&self) -> (r: &TokenType)
        requires
            self.wf(),
            self.state().cursor < self.input().toks.len(),
        ensures
            peek(self.input(), self.state()) == Some(r@),
    {
        &self.tokens[self.cursor].type_
    }

    /// The position of the next token.
    pub fn here(&self) -> (r: NodePosition)
        requires
            self.wf(),
            self.state().cursor < self.input().toks.len(),
        ensures
            r@ == here(self.input(), self.state()),
    {
        let t = &self.tokens[self.cursor];
        NodePosition { pos: t.pos, line_no: t.line_no, file: t.file.clone() }
    }

    /// The place that the parser last took note of, as a position in its file.
    pub fn noted(&self) -> (r: NodePosition)
        requires
            self.wf(),
        ensures
            r@ == (NodePos {
                pos: self.state().pos,
                line_no: self.state().line_no,
                file: self.input().file,
            }),
    {
        NodePosition { pos: self.pos, line_no: self.line_no, file: self.file.clone() }
    }

    /// Takes note of where the next token stands, if there is one.
    pub fn advance(&mut self)
        requires
            old(self).wf(),
        ensures
            final(self).continues(old(self)),
            final(self).state() == look(old(self).input(), old(self).state()),
    {
        if self.cursor < self.tokens.len() {
            self.pos = self.tokens[self.cursor].pos;
            self.line_no = self.tokens[self.cursor].line_no;
        }
    }

    /// Passes the next token without taking note of its place.
    pub fn skip_token(&mut self)
        requires
            old(self).wf(),
            old(self).state().cursor < old(self).input().toks.len(),
        ensures
            final(self).continues(old(self)),
            final(self).state() == skip(old(self).state()),
    {
        self.cursor += 1;
    }

    /// Takes note of the next token's place and passes it.
    pub fn eat(&mut self)
        requires
            old(self).wf(),
            old(self).state().cursor < old(self).input().toks.len(),
        ensures
            final(self).continues(old(self)),
            final(self).state() == eat(old(self).input(), old(self).state()),
    {
        self.advance();
        self.skip_token();
    }

    /// The syntax error with the given cause at the place last noted.
    pub fn parser_error(&self, cause: SyntaxCause) -> (r: ParseError)
        ensures
            r == syntax_at(self.state(), cause),
    {
        ParseError::Syntax { cause, pos: self.pos, line_no: self.line_no }
    }

    /// Enters the scope of `name` inside the current scope.
    pub fn enter_scope(&mut self, name: &str)
        requires
            old(self).wf(),
        ensures
            final(self).follows(old(self)),
            final(self).state() == old(self).state(),
            final(self).symbols() == old(self).symbols(),
            final(self).scope() == old(self).scope() + "."@ + name@,
    {
        self.current_scope.append(".");
        self.current_scope.append(name);
    }

    /// Goes back to the outermost scope.
    pub fn leave_scope(&mut self)
        requires
            old(self).wf(),
        ensures
            final(self).follows(old(self)),
            final(self).state() == old(self).state(),
            final(self).symbols() == old(self).symbols(),
            final(self).scope() == "global"@,
    {
        self.current_scope = String::from_str("global");
    }

    /// Records a function of the given result type under `name`, in the
    /// current scope.
    pub fn declare(&mut self, name: String, type_: String)
        requires
            old(self).wf(),
        ensures
            final(self).follows(old(self)),
            final(self).state() == old(self).state(),
            final(self).scope() == old(self).scope(),
            final(self).table() == record(
                old(self).table(),
                name@,
                SymbolModel { type_: type_@, scope: old(self).scope() },
            ),
    {
        let symbol = Symbol::new(type_, self.current_scope.clone());
        self.symtab.insert(name, symbol);
    }
}

} // verus!
