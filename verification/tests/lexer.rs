use frontend::lexer::tokens::{Token, TokenType};
use frontend::lexer::{LexError, Lexer};

fn kinds(text: &str) -> Vec<TokenType> {
    let mut lexer = Lexer::from_text(text, "test.sk");
    let tokens: Vec<Token> = lexer.collect().expect("the text lexes");
    tokens.into_iter().map(|t| t.type_).collect()
}

#[test]
fn is_in_identifier() {
    for &i in &['a', 'z', '_', '0', '9'] {
        assert!(Lexer::is_in_identifier(i));
    }

    for &s in &['+', '*', '@', ';'] {
        assert!(!Lexer::is_in_identifier(s));
    }
}

#[test]
fn keywords_and_identifiers() {
    assert_eq!(
        kinds("if else let def extern use return true false class mod while do end"),
        vec![
            TokenType::If,
            TokenType::Else,
            TokenType::Let,
            TokenType::Def,
            TokenType::Extern,
            TokenType::Use,
            TokenType::Return,
            TokenType::True,
            TokenType::False,
            TokenType::Class,
            TokenType::Module,
            TokenType::While,
            TokenType::Do,
            TokenType::End,
        ]
    );
    assert_eq!(
        kinds("iff _x do1 End"),
        vec![
            TokenType::Identifier("iff".to_string()),
            TokenType::Identifier("_x".to_string()),
            TokenType::Identifier("do1".to_string()),
            TokenType::Identifier("End".to_string()),
        ]
    );
}

#[test]
fn invalid_integer_literal() {
    let mut lexer = Lexer::from_text("x 99999999999 y", "test.sk");
    let first = lexer.next().unwrap().unwrap();
    assert_eq!(first.type_, TokenType::Identifier("x".to_string()));
    let second: Result<Token, LexError> = lexer.next().unwrap();
    assert_eq!(second.unwrap_err().literal, "99999999999");
}

fn places(text: &str) -> Vec<(i32, i32)> {
    let mut lexer = Lexer::from_text(text, "test.sk");
    let tokens: Vec<Token> = lexer.collect().expect("the text lexes");
    tokens.into_iter().map(|t| (t.pos, t.line_no)).collect()
}

#[test]
fn tokens_carry_their_place_and_file() {
    assert_eq!(places("ab cd\n ef"), vec![(1, 1), (4, 1), (3, 2)]);
    let mut lexer = Lexer::from_text("x", "dir/file.sk");
    assert_eq!(lexer.next().unwrap().unwrap().file, "dir/file.sk");
    assert!(lexer.next().is_none());
}

#[test]
fn operators_and_punctuators() {
    assert_eq!(
        kinds("+= -= *= /= -> == != <= >= =:"),
        vec![
            TokenType::PlusEq,
            TokenType::MinusEq,
            TokenType::MulEq,
            TokenType::DivEq,
            TokenType::Arrow,
            TokenType::Equal,
            TokenType::NotEq,
            TokenType::LessEq,
            TokenType::GreaterEq,
            TokenType::Walrus,
        ]
    );
    assert_eq!(
        kinds("+ - * / < > = ! . , ; : ( ) [ ] { }"),
        vec![
            TokenType::Plus,
            TokenType::Minus,
            TokenType::Mul,
            TokenType::Div,
            TokenType::Less,
            TokenType::Greater,
            TokenType::Assign,
            TokenType::Not,
            TokenType::Dot,
            TokenType::Comma,
            TokenType::Semicolon,
            TokenType::Colon,
            TokenType::LParen,
            TokenType::RParen,
            TokenType::LBrack,
            TokenType::RBrack,
            TokenType::LBrace,
            TokenType::RBrace,
        ]
    );
    assert_eq!(kinds("a>b"), vec![
        TokenType::Identifier("a".to_string()),
        TokenType::Greater,
        TokenType::Identifier("b".to_string()),
    ]);
    assert_eq!(kinds("@ $"), vec![TokenType::Unknown, TokenType::Unknown]);
}

#[test]
fn blanks_and_comments_yield_no_token() {
    assert_eq!(
        kinds("a # b c\n\t d # e"),
        vec![TokenType::Identifier("a".to_string()), TokenType::Identifier("d".to_string())]
    );
    assert_eq!(kinds(""), vec![]);
    assert_eq!(kinds("  \n # only a comment"), vec![]);
}

#[test]
fn string_literals() {
    assert_eq!(
        kinds("'it' \"x # y\" `z\n`"),
        vec![
            TokenType::Str("it".to_string()),
            TokenType::Str("x # y".to_string()),
            TokenType::Str("z\n".to_string()),
        ]
    );
    assert_eq!(kinds("\"abc"), vec![TokenType::Str("abc".to_string())]);
    assert_eq!(kinds("'a\\'"), vec![TokenType::Str("a\\".to_string())]);
}

#[test]
fn integer_literals() {
    assert_eq!(kinds("0 007 2147483647"), vec![
        TokenType::Integer(0),
        TokenType::Integer(7),
        TokenType::Integer(2147483647),
    ]);
    assert_eq!(kinds("12ab"), vec![
        TokenType::Integer(12),
        TokenType::Identifier("ab".to_string()),
    ]);
    let mut lexer = Lexer::from_text("2147483648", "test.sk");
    assert_eq!(lexer.next().unwrap().unwrap_err().literal, "2147483648");
}

#[test]
fn numeric_characters_beyond_ascii_start_a_literal_without_value() {
    let mut lexer = Lexer::from_text("1\u{0663}2 x", "test.sk");
    let e = lexer.next().unwrap().unwrap_err();
    assert_eq!(e.literal, "1\u{0663}2");
    assert_eq!(e.message(), "Integer literal 1\u{0663}2 is invalid");
    assert_eq!(lexer.next().unwrap().unwrap().type_, TokenType::Identifier("x".to_string()));
    assert_eq!(kinds("\u{00e9}"), vec![TokenType::Unknown]);
}

#[test]
fn relexing_the_spelling_of_tokens() {
    let source = "def f(x: i32) -> i32 do return x <= 10; end; s = 'a b';";
    let first = kinds(source);
    let spelled = "def f ( x : i32 ) -> i32 do return x <= 10 ; end ; s = \"a b\" ;";
    assert_eq!(kinds(spelled), first);
}
