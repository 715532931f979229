use frontend::lexer::tokens::{Token, TokenType};
use frontend::lexer::Lexer;
use frontend::parser::ast::AstNode;
use frontend::parser::error::{ParseError, SyntaxCause};
use frontend::parser::Parser;

fn tokens(text: &str) -> Vec<Token> {
    Lexer::from_text(text, "test.sk").collect().expect("the text lexes")
}

fn parser(text: &str) -> Parser {
    Parser::new(tokens(text), "test.sk")
}

fn expression(text: &str) -> String {
    let (e, _) = parser(text).parse_expression().expect("the text parses");
    format!("{:?}", e)
}

#[test]
fn end_to_end_add() {
    let source = "def add(x: i32, y: i32) -> i32 do return x + y; end; add(2, 3);";
    let kinds: Vec<TokenType> = tokens(source).into_iter().map(|t| t.type_).collect();
    assert_eq!(
        &kinds[..7],
        &[
            TokenType::Def,
            TokenType::Identifier("add".to_string()),
            TokenType::LParen,
            TokenType::Identifier("x".to_string()),
            TokenType::Colon,
            TokenType::Identifier("i32".to_string()),
            TokenType::Comma,
        ]
    );
    let program = parser(source).parse_program().expect("the program parses");
    assert_eq!(program.len(), 2);
    match &program[0].0 {
        AstNode::FunctionDef(f) => {
            assert_eq!(f.name, "add");
            assert_eq!(f.args.name, vec!["x".to_string(), "y".to_string()]);
            assert_eq!(f.args.type_, vec!["i32".to_string(), "i32".to_string()]);
            assert_eq!(f.return_type, "i32");
            assert_eq!(
                format!("{:?}", f.expressions),
                "[Return(BinOp(Identifier(\"x\"), Plus, Identifier(\"y\")))]"
            );
        }
        other => panic!("expected a function, got {:?}", other),
    }
    match &program[1].0 {
        AstNode::Expression(e) => {
            assert_eq!(format!("{:?}", e), "FnCall(\"add\", [Integer(2), Integer(3)])");
        }
        other => panic!("expected an expression, got {:?}", other),
    }
}

#[test]
fn operators_group_to_the_right() {
    assert_eq!(
        expression("1 * 2 + 3;"),
        "BinOp(Integer(1), Mul, BinOp(Integer(2), Plus, Integer(3)))"
    );
    assert_eq!(
        expression("a . b;"),
        "BinOp(Identifier(\"a\"), Dot, Identifier(\"b\"))"
    );
}

#[test]
fn expression_at_end_of_input_is_eof() {
    assert_eq!(parser("1 + 2").parse_expression().unwrap_err(), ParseError::Eof);
    assert_eq!(parser("").parse_expression().unwrap_err(), ParseError::Eof);
}

#[test]
fn invalid_expression_is_reported_at_the_last_noted_place() {
    assert_eq!(
        parser(";").parse_expression().unwrap_err(),
        ParseError::Syntax { cause: SyntaxCause::InvalidExpression, pos: -1, line_no: 1 }
    );
}

#[test]
fn conditional_with_type_and_else() {
    assert_eq!(
        expression("if : i32 true do 1 end else do 2 end;"),
        "IfElse { cond: Boolean(true), if_: [Integer(1)], else_: [Integer(2)], type_: \"i32\" }"
    );
    assert_eq!(
        expression("if x do f(); g() end;"),
        "IfElse { cond: Identifier(\"x\"), if_: [FnCall(\"f\", []), FnCall(\"g\", [])], else_: [], type_: \"void\" }"
    );
}

#[test]
fn declarations_and_assignments() {
    assert_eq!(
        expression("let x: i32 = 4;"),
        "VarDecl { name: \"x\", type_: \"i32\", value: Some(Integer(4)) }"
    );
    assert_eq!(expression("let x: i32;"), "VarDecl { name: \"x\", type_: \"i32\", value: None }");
    assert_eq!(expression("x = 1;"), "Assign { name: \"x\", value: Integer(1) }");
    assert_eq!(expression("x += 1;"), "AugAssign { name: \"x\", op: PlusEq, value: Integer(1) }");
}

#[test]
fn struct_fields_are_numbered_in_order() {
    let mut p = parser("struct P { a : i32 b : bool }");
    let ((name, fields), _) = p.parse_struct().expect("the struct parses");
    assert_eq!(name, "P");
    let a = fields.position("a").expect("a is a field");
    let b = fields.position("b").expect("b is a field");
    assert_eq!(fields.get(a).index, 0);
    assert_eq!(fields.get(a).type_, "i32");
    assert_eq!(fields.get(b).index, 1);
    assert_eq!(fields.get(b).type_, "bool");
    assert!(fields.position("c").is_none());
}

#[test]
fn extern_is_recorded() {
    let mut p = parser("extern puts(s: str) -> i32;");
    let program = p.parse_program().expect("the program parses");
    assert_eq!(program.len(), 1);
    let symbol = p.symtab.lookup("puts".to_string()).expect("puts is recorded");
    assert_eq!(symbol.type_(), "i32");
    assert_eq!(symbol.scope(), "global");
}

fn syntax(cause: SyntaxCause, pos: i32) -> ParseError {
    ParseError::Syntax { cause, pos, line_no: 1 }
}

fn expression_error(text: &str) -> ParseError {
    parser(text).parse_expression().unwrap_err()
}

fn program_error(text: &str) -> ParseError {
    parser(text).parse_program().unwrap_err()
}

#[test]
fn expression_errors() {
    assert_eq!(expression_error("a [ 1 ;"), syntax(SyntaxCause::MissingCloseBracket, 4));
    assert_eq!(expression_error("a [ 1 ] ;"), ParseError::Unsupported);
    assert_eq!(expression_error("( 1 ;"), syntax(SyntaxCause::MissingCloseParen, 2));
    assert_eq!(expression_error("[ 1 ]"), syntax(SyntaxCause::ExpectedArrayType, 2));
    assert_eq!(expression_error("if x ;"), syntax(SyntaxCause::ExpectedDoAfterIf, 3));
    assert_eq!(
        expression_error("if x do 1 2 end ;"),
        syntax(SyntaxCause::ExpectedSemicolonOrEnd, 8)
    );
    assert_eq!(
        expression_error("if x do 1 end else 2 ;"),
        syntax(SyntaxCause::ExpectedDoAfterElse, 17)
    );
    assert_eq!(
        expression_error("if x do 1 end else do 2 ; ; x"),
        syntax(SyntaxCause::MissingEndAtElse, 24)
    );
    assert_eq!(expression_error("while x ;"), syntax(SyntaxCause::ExpectedDoAfterWhile, 6));
    assert_eq!(expression_error("let 1"), syntax(SyntaxCause::ExpectedNameAfterLet, 4));
    assert_eq!(expression_error("let x 1"), syntax(SyntaxCause::MissingColon, 4));
    assert_eq!(expression_error("let x : 1"), syntax(SyntaxCause::ExpectedTypeName, 6));
    assert_eq!(expression_error("use 1"), syntax(SyntaxCause::InvalidUse, 4));
    assert_eq!(expression_error("- ;"), syntax(SyntaxCause::InvalidExpression, 2));
}

#[test]
fn declaration_errors() {
    assert_eq!(program_error("extern 1"), syntax(SyntaxCause::ExpectedNameAfterExtern, 5));
    assert_eq!(program_error("extern f 1"), syntax(SyntaxCause::ExpectedParenAfterExternName, 7));
    assert_eq!(program_error("extern f ( 1"), syntax(SyntaxCause::ExpectedParameterName, 9));
    assert_eq!(
        program_error("extern f ( a 1"),
        ParseError::Bare(SyntaxCause::ExpectedParameterColon)
    );
    assert_eq!(
        program_error("extern f ( a : 1"),
        ParseError::Bare(SyntaxCause::ExpectedParameterType)
    );
    assert_eq!(program_error("extern f ( ) 1"), syntax(SyntaxCause::ExpectedArrow, 11));
    assert_eq!(
        program_error("extern f ( ) -> 1"),
        syntax(SyntaxCause::ExpectedReturnTypeAfterExtern, 13)
    );
    assert_eq!(
        program_error("extern f ( ) -> i32 x"),
        syntax(SyntaxCause::ExpectedSemicolonAfterExtern, 17)
    );
    assert_eq!(program_error("def 1"), syntax(SyntaxCause::ExpectedNameAfterDef, 2));
    assert_eq!(program_error("def f 1"), syntax(SyntaxCause::ExpectedParenAfterDefName, 4));
    assert_eq!(program_error("def f ( ) 1"), syntax(SyntaxCause::ExpectedArrow, 4));
    assert_eq!(program_error("def f ( ) -> 1"), syntax(SyntaxCause::ExpectedReturnType, 10));
    assert_eq!(program_error("def f ( ) -> i32 1"), syntax(SyntaxCause::ExpectedDoInFunction, 14));
    assert_eq!(
        program_error("def f ( ) -> i32 do 1 ; ; x"),
        syntax(SyntaxCause::ExpectedEnd, 21)
    );
    assert_eq!(program_error("class 1"), ParseError::Bare(SyntaxCause::ExpectedNameAfterClass));
    assert_eq!(program_error("class A 1"), ParseError::Bare(SyntaxCause::ExpectedBraceInClass));
    assert_eq!(program_error("class A { 1"), syntax(SyntaxCause::ExpectedFunction, 8));
    assert_eq!(
        program_error("1 2"),
        syntax(SyntaxCause::ExpectedSemicolonAfterExpression, 0)
    );
    assert_eq!(
        parser("x").parse_function().unwrap_err(),
        ParseError::Bare(SyntaxCause::NotAFunction)
    );
}

#[test]
fn struct_errors() {
    let error = |text: &str| parser(text).parse_struct().unwrap_err();
    assert_eq!(error("struct 1"), ParseError::Bare(SyntaxCause::ExpectedNameAfterStruct));
    assert_eq!(error("struct P 1"), ParseError::Bare(SyntaxCause::ExpectedBraceInStruct));
    assert_eq!(error("struct P { 1"), syntax(SyntaxCause::ExpectedFieldName, 9));
    assert_eq!(error("struct P { a 1"), syntax(SyntaxCause::ExpectedFieldColon, 13));
    assert_eq!(error("struct P { a : 1"), syntax(SyntaxCause::ExpectedFieldType, 15));
    assert_eq!(error("struct P { a : i32"), ParseError::Eof);
}

#[test]
fn end_of_input_inside_a_node_ends_the_program() {
    let program = parser("f(1); def g() -> i32 do return 1;").parse_program().unwrap();
    assert_eq!(program.len(), 1);
    let program = parser("f(1); g(2)").parse_program().unwrap();
    assert_eq!(program.len(), 1);
    assert_eq!(parser("").parse_program().unwrap().len(), 0);
}

#[test]
fn classes_hold_functions() {
    let mut p = parser("class A { def f() -> i32 do return 1; end def g() -> i32 do end } x;");
    let (class, at) = p.parse_class().expect("the class parses");
    assert_eq!(class.name, "A");
    assert_eq!(class.fns.len(), 2);
    assert_eq!(class.fns[0].0.name, "f");
    assert_eq!(class.fns[1].0.name, "g");
    assert_eq!((at.pos, at.line_no), (4, 1));
    assert_eq!(p.symtab.lookup("g".to_string()).unwrap().scope(), "global");
}

#[test]
fn calls_and_their_quirks() {
    assert_eq!(expression("f(1 2, 3);"), "FnCall(\"f\", [Integer(1), Integer(2), Integer(3)])");
    assert_eq!(expression("f(,"), "Identifier(\"f\")");
    assert_eq!(expression("a + * b;"), "BinOp(Identifier(\"a\"), Mul, Identifier(\"b\"))");
    assert_eq!(expression("(1);"), "Integer(1)");
    assert_eq!(expression("-x;"), "UnOp(Minus, Identifier(\"x\"))");
    assert_eq!(expression("[i32 1, 2 3];"), "Array([Integer(1), Integer(2), Integer(3)], \"i32\")");
    assert_eq!(expression("while x do y = 1; end;"),
        "While(Identifier(\"x\"), [Assign { name: \"y\", value: Integer(1) }])");
    assert_eq!(expression("return 'a';"), "Return(Str(\"a\"))");
    assert_eq!(expression("use 'm';"), "Use(\"m\")");
    assert_eq!(expression("true;"), "Boolean(true)");
    assert_eq!(expression("false;"), "Boolean(false)");
}

#[test]
fn positions_of_expressions() {
    let (_, at) = parser("  x + y;").parse_expression().unwrap();
    assert_eq!((at.pos, at.line_no, at.file.as_str()), (6, 1, "test.sk"));
    let (_, at) = parser("\n foo;").parse_expression().unwrap();
    assert_eq!((at.pos, at.line_no), (4, 2));
}

#[test]
fn precedence_of_operators() {
    let mut p = parser("");
    assert_eq!(p.get_tok_precedence(TokenType::Equal), 0);
    assert_eq!(p.get_tok_precedence(TokenType::LessEq), 0);
    assert_eq!(p.get_tok_precedence(TokenType::Plus), 1);
    assert_eq!(p.get_tok_precedence(TokenType::Minus), 1);
    assert_eq!(p.get_tok_precedence(TokenType::Mul), 2);
    assert_eq!(p.get_tok_precedence(TokenType::DivEq), 2);
}

#[test]
fn reports_of_errors() {
    let e = ParseError::Syntax { cause: SyntaxCause::InvalidExpression, pos: 2, line_no: 2 };
    assert_eq!(
        e.render("f.sk", "ab\ncd ef\r\ngh"),
        "\ncd ef\n\x1b[31m~~^\x1b[39m\n\x1b[33mInvalid expression\x1b[39m\n\n    at \x1b[32m2\x1b[39m:\x1b[32m2\x1b[39m in file `\x1b[32mf.sk\x1b[39m`."
    );
    let e = ParseError::Syntax { cause: SyntaxCause::ExpectedEnd, pos: -1, line_no: 7 };
    assert_eq!(
        e.render("f", "one line"),
        "\n\n\x1b[31m^\x1b[39m\n\x1b[33mexpected 'end'\x1b[39m\n\n    at \x1b[32m7\x1b[39m:\x1b[32m-1\x1b[39m in file `\x1b[32mf\x1b[39m`."
    );
    assert_eq!(ParseError::Eof.render("f", ""), "EOF");
    assert_eq!(ParseError::Bare(SyntaxCause::NotAFunction).render("f", ""), "PASS");
    assert_eq!(ParseError::Unsupported.render("f", ""), "Indexing is not supported");
    assert_eq!(SyntaxCause::MissingColon.message(), "Missing ':'.");
}
