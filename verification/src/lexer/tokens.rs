//! Tokens and their mathematical models.

use vstd::prelude::*;

verus! {

/// The kind of a token, with the payload of the kinds that carry one.
#[derive(Debug, PartialEq, Clone)]
pub enum TokenType {
    /// An identifier of a variable or function with its name.
    Identifier(String),
    If,
    Else,
    Let,
    Def,
    Class,
    Extern,
    Use,
    Return,
    True,
    False,
    Module,
    While,
    Do,
    End,
    /// An integer literal.
    Integer(i32),
    /// A string literal, without its delimiters.
    Str(String),
    Semicolon,
    Colon,
    Comma,
    LParen,
    RParen,
    LBrack,
    RBrack,
    LBrace,
    RBrace,
    Arrow,
    Minus,
    Plus,
    Div,
    Mul,
    Dot,
    Assign,
    Less,
    Greater,
    LessEq,
    GreaterEq,
    Equal,
    Not,
    NotEq,
    PlusEq,
    MinusEq,
    MulEq,
    DivEq,
    Walrus,
    Unknown,
}

/// The model of a [`TokenType`]: the same kinds, with texts as sequences of
/// characters.
pub ghost enum TokenKind {
    Identifier(Seq<char>),
    If,
    Else,
    Let,
    Def,
    Class,
    Extern,
    Use,
    Return,
    True,
    False,
    Module,
    While,
    Do,
    End,
    Integer(i32),
    Str(Seq<char>),
    Semicolon,
    Colon,
    Comma,
    LParen,
    RParen,
    LBrack,
    RBrack,
    LBrace,
    RBrace,
    Arrow,
    Minus,
    Plus,
    Div,
    Mul,
    Dot,
    Assign,
    Less,
    Greater,
    LessEq,
    GreaterEq,
    Equal,
    Not,
    NotEq,
    PlusEq,
    MinusEq,
    MulEq,
    DivEq,
    Walrus,
    Unknown,
}

impl View for TokenType {
    type V = TokenKind;

    open spec fn view(&self) -> TokenKind {
        match *self {
            TokenType::Identifier(s) => TokenKind::Identifier(s@),
            TokenType::If => TokenKind::If,
            TokenType::Else => TokenKind::Else,
            TokenType::Let => TokenKind::Let,
            TokenType::Def => TokenKind::Def,
            TokenType::Class => TokenKind::Class,
            TokenType::Extern => TokenKind::Extern,
            TokenType::Use => TokenKind::Use,
            TokenType::Return => TokenKind::Return,
            TokenType::True => TokenKind::True,
            TokenType::False => TokenKind::False,
            TokenType::Module => TokenKind::Module,
            TokenType::While => TokenKind::While,
            TokenType::Do => TokenKind::Do,
            TokenType::End => TokenKind::End,
            TokenType::Integer(i) => TokenKind::Integer(i),
            TokenType::Str(s) => TokenKind::Str(s@),
            TokenType::Semicolon => TokenKind::Semicolon,
            TokenType::Colon => TokenKind::Colon,
            TokenType::Comma => TokenKind::Comma,
            TokenType::LParen => TokenKind::LParen,
            TokenType::RParen => TokenKind::RParen,
            TokenType::LBrack => TokenKind::LBrack,
            TokenType::RBrack => TokenKind::RBrack,
            TokenType::LBrace => TokenKind::LBrace,
            TokenType::RBrace => TokenKind::RBrace,
            TokenType::Arrow => TokenKind::Arrow,
            TokenType::Minus => TokenKind::Minus,
            TokenType::Plus => TokenKind::Plus,
            TokenType::Div => TokenKind::Div,
            TokenType::Mul => TokenKind::Mul,
            TokenType::Dot => TokenKind::Dot,
            TokenType::Assign => TokenKind::Assign,
            TokenType::Less => TokenKind::Less,
            TokenType::Greater => TokenKind::Greater,
            TokenType::LessEq => TokenKind::LessEq,
            TokenType::GreaterEq => TokenKind::GreaterEq,
            TokenType::Equal => TokenKind::Equal,
            TokenType::Not => TokenKind::Not,
            TokenType::NotEq => TokenKind::NotEq,
            TokenType::PlusEq => TokenKind::PlusEq,
            TokenType::MinusEq => TokenKind::MinusEq,
            TokenType::MulEq => TokenKind::MulEq,
            TokenType::DivEq => TokenKind::DivEq,
            TokenType::Walrus => TokenKind::Walrus,
            TokenType::Unknown => TokenKind::Unknown,
        }
    }
}

impl TokenType {
    /// A copy of the token kind.
    pub fn duplicate(&self) -> (r: TokenType)
        ensures
            r == *self,
    {
        match self {
            TokenType::Identifier(s) => TokenType::Identifier(s.clone()),
            TokenType::If => TokenType::If,
            TokenType::Else => TokenType::Else,
            TokenType::Let => TokenType::Let,
            TokenType::Def => TokenType::Def,
            TokenType::Class => TokenType::Class,
            TokenType::Extern => TokenType::Extern,
            TokenType::Use => TokenType::Use,
            TokenType::Return => TokenType::Return,
            TokenType::True => TokenType::True,
            TokenType::False => TokenType::False,
            TokenType::Module => TokenType::Module,
            TokenType::While => TokenType::While,
            TokenType::Do => TokenType::Do,
            TokenType::End => TokenType::End,
            TokenType::Integer(i) => TokenType::Integer(*i),
            TokenType::Str(s) => TokenType::Str(s.clone()),
            TokenType::Semicolon => TokenType::Semicolon,
            TokenType::Colon => TokenType::Colon,
            TokenType::Comma => TokenType::Comma,
            TokenType::LParen => TokenType::LParen,
            TokenType::RParen => TokenType::RParen,
            TokenType::LBrack => TokenType::LBrack,
            TokenType::RBrack => TokenType::RBrack,
            TokenType::LBrace => TokenType::LBrace,
            TokenType::RBrace => TokenType::RBrace,
            TokenType::Arrow => TokenType::Arrow,
            TokenType::Minus => TokenType::Minus,
            TokenType::Plus => TokenType::Plus,
            TokenType::Div => TokenType::Div,
            TokenType::Mul => TokenType::Mul,
            TokenType::Dot => TokenType::Dot,
            TokenType::Assign => TokenType::Assign,
            TokenType::Less => TokenType::Less,
            TokenType::Greater => TokenType::Greater,
            TokenType::LessEq => TokenType::LessEq,
            TokenType::GreaterEq => TokenType::GreaterEq,
            TokenType::Equal => TokenType::Equal,
            TokenType::Not => TokenType::Not,
            TokenType::NotEq => TokenType::NotEq,
            TokenType::PlusEq => TokenType::PlusEq,
            TokenType::MinusEq => TokenType::MinusEq,
            TokenType::MulEq => TokenType::MulEq,
            TokenType::DivEq => TokenType::DivEq,
            TokenType::Walrus => TokenType::Walrus,
            TokenType::Unknown => TokenType::Unknown,
        }
    }
}

/// A token with the place where it ends.
#[derive(Debug, Clone)]
pub struct Token {
    pub type_: TokenType,
    /// Column of the token's last character that the lexer counted.
    pub pos: i32,
    /// Line of the token, counted from 1.
    pub line_no: i32,
    pub file: String,
}

/// The model of a [`Token`].
pub ghost struct TokenModel {
    pub kind: TokenKind,
    pub pos: i32,
    pub line_no: i32,
    pub file: Seq<char>,
}

impl View for Token {
    type V = TokenModel;

    open spec fn view(&self) -> TokenModel {
        TokenModel {
            kind: self.type_@,
            pos: self.pos,
            line_no: self.line_no,
            file: self.file@,
        }
    }
}

} // verus!
