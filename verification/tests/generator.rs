use frontend::generator::ir::{BinaryOp, ElemType, Inst, IrType, Label, Op, Value};
use frontend::generator::model::GenErrorKind;
use frontend::generator::Generator;
use frontend::lexer::tokens::TokenType;
use frontend::lexer::Lexer;
use frontend::names::NameMap;
use frontend::parser::ast::{Args, AstNode, Class, ExprValue, External, FieldInfo, Function, NodePosition};
use frontend::parser::Parser;

fn parse(text: &str) -> Vec<(AstNode, NodePosition)> {
    let tokens = Lexer::from_text(text, "test.sk").collect().expect("the text lexes");
    Parser::new(tokens, "test.sk").parse_program().expect("the text parses")
}

fn function(name: &str, body: Vec<ExprValue>) -> Function {
    Function {
        name: name.to_string(),
        args: Args { name: vec![], type_: vec![] },
        expressions: body,
        return_type: "i32".to_string(),
    }
}

fn conditional(cond: bool) -> ExprValue {
    ExprValue::IfElse {
        cond: Box::new(ExprValue::Boolean(cond)),
        if_: vec![ExprValue::Integer(1)],
        else_: vec![ExprValue::Integer(2)],
        type_: "i32".to_string(),
    }
}

fn declaration(name: &str, value: Option<ExprValue>) -> ExprValue {
    ExprValue::VarDecl { name: name.to_string(), type_: "i32".to_string(), value: value.map(Box::new) }
}

/// A generator that stands inside a function `host` with an open scope.
fn inside_function() -> Generator {
    let mut g = Generator::new(vec![], "m");
    g.gen_function(&function("host", vec![])).expect("the function lowers");
    g.enter_scope();
    g
}

fn point_fields() -> NameMap<FieldInfo> {
    let mut fields = NameMap::new();
    fields.insert("a".to_string(), FieldInfo { type_: "i32".to_string(), index: 0 });
    fields.insert("b".to_string(), FieldInfo { type_: "bool".to_string(), index: 1 });
    fields
}

#[test]
fn end_to_end_add_lowers() {
    let program = parse("def add(x: i32, y: i32) -> i32 do return x + y; end; add(2, 3);");
    let mut g = Generator::new(program, "m");
    g.generate().expect("the program lowers");
    let text = format!("{:?}", g.ops());
    let expected = "[DeclareFunction { name: \"add\", params: [I32, I32], ret: I32, defined: true }, \
AppendBlock { function: 0, label: Entry }, \
NameParam { function: 0, index: 0, name: \"x\" }, \
Inst { block: 1, inst: Alloca { type_: I32 } }, \
Inst { block: 1, inst: Store { value: Param(0, 0), ptr: Reg(3) } }, \
NameParam { function: 0, index: 1, name: \"y\" }, \
Inst { block: 1, inst: Alloca { type_: I32 } }, \
Inst { block: 1, inst: Store { value: Param(0, 1), ptr: Reg(6) } }, \
Inst { block: 1, inst: Load { type_: I32, ptr: Reg(3) } }, \
Inst { block: 1, inst: Load { type_: I32, ptr: Reg(6) } }, \
Inst { block: 1, inst: Binary { op: Add, left: Reg(8), right: Reg(9) } }, \
Inst { block: 1, inst: Ret { value: Reg(10) } }, \
Call { block: 1, callee: 0, args: [Int(2), Int(3)] }]";
    assert_eq!(text, expected);
}

#[test]
fn implicit_return_of_zero() {
    let mut g = Generator::new(vec![], "m");
    g.gen_function(&function("f", vec![ExprValue::Integer(7)])).unwrap();
    match g.ops().last() {
        Some(Op::Inst { inst: Inst::Ret { value: Value::Int(0) }, .. }) => {}
        other => panic!("expected a return of 0, got {:?}", other),
    }
}

#[test]
fn scope_hygiene() {
    let mut g = Generator::new(vec![], "m");
    g.gen_function(&function("f", vec![declaration("v", Some(ExprValue::Integer(1)))])).unwrap();
    assert!(g.lookup_var("v").is_none());
    let e = g.gen_expression(&ExprValue::Identifier("v".to_string())).unwrap_err();
    assert_eq!(e.kind, GenErrorKind::Unresolved);
    assert_eq!(e.subject, "v");
}

#[test]
fn duplicate_declaration() {
    let mut g = Generator::new(vec![], "m");
    let e = g
        .gen_function(&function("f", vec![declaration("v", None), declaration("v", None)]))
        .unwrap_err();
    assert_eq!(e.kind, GenErrorKind::AlreadyExists);
    assert_eq!(e.subject, "v");
}

#[test]
fn parameters_are_bound_unless_discarded() {
    let mut g = Generator::new(vec![], "m");
    let f = Function {
        name: "f".to_string(),
        args: Args {
            name: vec!["x".to_string(), "_".to_string()],
            type_: vec!["i32".to_string(), "bool".to_string()],
        },
        expressions: vec![],
        return_type: "void".to_string(),
    };
    g.gen_function(&f).unwrap();
    let x = g.lookup_var("x").expect("x is bound");
    assert_eq!(x.type_, IrType::I32);
    assert!(g.lookup_var("_").is_none());
}

#[test]
fn struct_field_indexing() {
    let mut g = inside_function();
    g.gen_struct(&"P".to_string(), &point_fields()).unwrap();
    g.gen_expression(&ExprValue::VarDecl {
        name: "p".to_string(),
        type_: "P".to_string(),
        value: None,
    })
    .unwrap();
    let access = |field: &str| {
        ExprValue::BinOp(
            Box::new(ExprValue::Identifier("p".to_string())),
            Box::new(TokenType::Dot),
            Box::new(ExprValue::Identifier(field.to_string())),
        )
    };
    let (_, ta) = g.gen_expression(&access("a")).unwrap();
    assert_eq!(ta, IrType::I32);
    match g.ops().last() {
        Some(Op::Inst { inst: Inst::StructGep { index: 0, type_: IrType::Struct(0), .. }, .. }) => {}
        other => panic!("expected the address of field 0, got {:?}", other),
    }
    let (_, tb) = g.gen_expression(&access("b")).unwrap();
    assert_eq!(tb, IrType::Bool);
    match g.ops().last() {
        Some(Op::Inst { inst: Inst::StructGep { index: 1, .. }, .. }) => {}
        other => panic!("expected the address of field 1, got {:?}", other),
    }
    let e = g.gen_expression(&access("c")).unwrap_err();
    assert_eq!(e.kind, GenErrorKind::NoSuchField);
    assert_eq!(e.subject, "c");
}

#[test]
fn conditional_merge() {
    let mut g = inside_function();
    let (v, _) = g.gen_expression(&conditional(true)).unwrap();
    assert_eq!(v, Value::Int(1));
    let mut g = inside_function();
    let (v, _) = g.gen_expression(&conditional(false)).unwrap();
    assert_eq!(v, Value::Int(2));
}

#[test]
fn conditional_blocks() {
    let mut g = inside_function();
    let before = g.ops().len();
    let entry = g.block().unwrap();
    let cond = ExprValue::IfElse {
        cond: Box::new(ExprValue::Identifier("c".to_string())),
        if_: vec![ExprValue::Integer(1)],
        else_: vec![ExprValue::Integer(2)],
        type_: "i32".to_string(),
    };
    g.bind_var(
        "c".to_string(),
        frontend::generator::model::Slot { ptr: Value::Reg(0), type_: IrType::Bool },
    );
    let (v, t) = g.gen_expression(&cond).unwrap();
    let ops = g.ops();
    let end = before;
    let then_ = before + 1;
    let else_ = before + 3;
    assert!(matches!(ops[end], Op::AppendBlock { label: Label::End(1), .. }));
    assert!(matches!(ops[then_], Op::AppendBlock { label: Label::Then(1), .. }));
    assert!(matches!(ops[before + 2], Op::Inst { block, inst: Inst::Br { target } } if block == then_ && target == end));
    assert!(matches!(ops[else_], Op::AppendBlock { label: Label::Else(1), .. }));
    assert!(matches!(ops[before + 4], Op::Inst { block, inst: Inst::Br { target } } if block == else_ && target == end));
    assert!(matches!(ops[before + 5], Op::Inst { block, inst: Inst::Load { .. } } if block == entry));
    assert!(matches!(
        ops[before + 6],
        Op::Inst { block, inst: Inst::CondBr { cond: Value::Reg(c), then_: t, else_: e } }
            if block == entry && c == before + 5 && t == then_ && e == else_
    ));
    assert!(matches!(
        ops[before + 7],
        Op::Inst {
            block,
            inst: Inst::Phi {
                type_: IrType::I32,
                then_value: Value::Int(1),
                then_block,
                else_value: Value::Int(2),
                else_block
            }
        } if block == end && then_block == then_ && else_block == else_
    ));
    assert_eq!(v, Value::Reg(before + 7));
    assert_eq!(t, IrType::I32);
    assert_eq!(g.block(), Some(end));
}

#[test]
fn single_conditional_constraint() {
    let mut g = Generator::new(vec![], "m");
    let e = g.gen_function(&function("f", vec![conditional(true), conditional(false)])).unwrap_err();
    assert_eq!(e.kind, GenErrorKind::TwoConditionals);
    let mut g = Generator::new(vec![], "m");
    g.gen_function(&function("f", vec![conditional(true)])).unwrap();
    g.gen_function(&function("g", vec![conditional(true)])).unwrap();
}

#[test]
fn call_arity_checking() {
    let mut g = inside_function();
    g.gen_struct(&"P".to_string(), &point_fields()).unwrap();
    let before = g.ops().len();
    let call = ExprValue::FnCall("P".to_string(), vec![ExprValue::Integer(1)]);
    let e = g.gen_expression(&call).unwrap_err();
    assert_eq!(e.kind, GenErrorKind::ArityMismatch);
    assert_eq!(g.ops().len(), before);
    let call = ExprValue::FnCall(
        "P".to_string(),
        vec![ExprValue::Integer(1), ExprValue::Boolean(true)],
    );
    let (v, t) = g.gen_expression(&call).unwrap();
    assert_eq!(t, IrType::Struct(0));
    assert_eq!(v, Value::Reg(before + 1));
    assert!(matches!(g.ops()[before], Op::Inst { inst: Inst::Alloca { type_: IrType::Struct(0) }, .. }));
    assert_eq!(
        format!("{:?}", g.ops()[before + 1]),
        "ConstStruct { struct_: 0, values: [Int(1), Bool(true)] }"
    );
}

#[test]
fn unknown_function_and_types() {
    let mut g = inside_function();
    let e = g.gen_expression(&ExprValue::FnCall("nope".to_string(), vec![])).unwrap_err();
    assert_eq!(e.kind, GenErrorKind::NoSuchFunction);
    let e = g
        .gen_expression(&ExprValue::VarDecl {
            name: "x".to_string(),
            type_: "Q".to_string(),
            value: None,
        })
        .unwrap_err();
    assert_eq!(e.kind, GenErrorKind::UnknownType);
    let e = g
        .gen_expression(&ExprValue::Assign {
            name: "y".to_string(),
            value: Box::new(ExprValue::Integer(1)),
        })
        .unwrap_err();
    assert_eq!(e.kind, GenErrorKind::NoSuchVariable);
}

#[test]
fn expression_before_any_function() {
    let mut g = Generator::new(vec![], "m");
    let e = g.gen_expression(&ExprValue::Integer(1)).unwrap_err();
    assert_eq!(e.kind, GenErrorKind::NoInsertionPoint);
}

#[test]
fn array_literal_and_tags() {
    let mut g = inside_function();
    let array = ExprValue::Array(
        vec![ExprValue::Integer(1), ExprValue::Integer(2)],
        "i32".to_string(),
    );
    let (_, t) = g.gen_expression(&array).unwrap();
    assert_eq!(t, IrType::Array(2, ElemType::I32));
    let array = ExprValue::Array(vec![], "str12".to_string());
    let (_, t) = g.gen_expression(&array).unwrap();
    assert_eq!(t, IrType::Array(0, ElemType::Str(12)));
    let array = ExprValue::Array(vec![], "strx".to_string());
    assert_eq!(g.gen_expression(&array).unwrap_err().kind, GenErrorKind::UnknownType);
    let array = ExprValue::Array(vec![], "str4294967296".to_string());
    assert_eq!(g.gen_expression(&array).unwrap_err().kind, GenErrorKind::UnknownType);
    let (_, t) = g.gen_expression(&ExprValue::Str("héllo".to_string())).unwrap();
    assert_eq!(t, IrType::Str(6));
}

#[test]
fn augmented_assignment_composes() {
    let mut g = inside_function();
    g.gen_expression(&declaration("x", Some(ExprValue::Integer(1)))).unwrap();
    let before = g.ops().len();
    let e = ExprValue::AugAssign {
        name: "x".to_string(),
        op: Box::new(TokenType::MinusEq),
        value: Box::new(ExprValue::Integer(5)),
    };
    g.gen_expression(&e).unwrap();
    let ops = g.ops();
    assert!(matches!(ops[before], Op::Inst { inst: Inst::Load { .. }, .. }));
    assert!(matches!(
        ops[before + 1],
        Op::Inst { inst: Inst::Binary { op: BinaryOp::Sub, left: Value::Reg(l), right: Value::Int(5) }, .. }
            if l == before
    ));
    assert!(matches!(
        ops[before + 2],
        Op::Inst { inst: Inst::Store { value: Value::Reg(v), .. }, .. } if v == before + 1
    ));
}

#[test]
fn while_loop_branches_back() {
    let mut g = inside_function();
    let before = g.ops().len();
    let e = ExprValue::While(Box::new(ExprValue::Boolean(true)), vec![ExprValue::Integer(1)]);
    g.gen_expression(&e).unwrap();
    let ops = g.ops();
    let check = before;
    let body = before + 1;
    let end = before + 2;
    assert!(matches!(ops[before + 3], Op::Inst { inst: Inst::Br { target }, .. } if target == check));
    assert!(matches!(
        ops[before + 4],
        Op::Inst { block, inst: Inst::CondBr { cond: Value::Bool(true), then_, else_ } }
            if block == check && then_ == body && else_ == end
    ));
    assert!(matches!(
        ops[before + 5],
        Op::Inst { block, inst: Inst::Br { target } } if block == body && target == check
    ));
    assert_eq!(g.block(), Some(end));
}

#[test]
fn struct_redeclaration_and_order() {
    let mut g = Generator::new(vec![], "m");
    g.gen_struct(&"P".to_string(), &point_fields()).unwrap();
    assert_eq!(
        g.gen_struct(&"P".to_string(), &point_fields()).unwrap_err().kind,
        GenErrorKind::StructExists
    );
    let mut fields = NameMap::new();
    fields.insert("a".to_string(), FieldInfo { type_: "i32".to_string(), index: 1 });
    assert_eq!(g.gen_struct(&"Q".to_string(), &fields).unwrap_err().kind, GenErrorKind::FieldOrder);
}

fn kind_of(g: &mut Generator, e: ExprValue) -> GenErrorKind {
    g.gen_expression(&e).unwrap_err().kind
}

fn binary(l: ExprValue, op: TokenType, r: ExprValue) -> ExprValue {
    ExprValue::BinOp(Box::new(l), Box::new(op), Box::new(r))
}

#[test]
fn refused_expressions() {
    let mut g = inside_function();
    let one = || ExprValue::Integer(1);
    assert_eq!(
        kind_of(&mut g, ExprValue::UnOp(Box::new(TokenType::Plus), Box::new(one()))),
        GenErrorKind::UnknownUnary
    );
    assert_eq!(
        kind_of(&mut g, binary(one(), TokenType::Assign, one())),
        GenErrorKind::UnsupportedOperator
    );
    assert_eq!(
        kind_of(&mut g, binary(ExprValue::Str("a".to_string()), TokenType::Plus, one())),
        GenErrorKind::StringOperand
    );
    assert_eq!(kind_of(&mut g, ExprValue::Use("m".to_string())), GenErrorKind::UnsupportedUse);
    assert_eq!(kind_of(&mut g, binary(one(), TokenType::Dot, one())), GenErrorKind::FieldNotNamed);
    assert_eq!(
        kind_of(&mut g, binary(one(), TokenType::Dot, ExprValue::Identifier("a".to_string()))),
        GenErrorKind::NotAStruct
    );
    assert_eq!(
        kind_of(&mut g, declaration("b", Some(ExprValue::Boolean(true)))),
        GenErrorKind::TypeMismatch
    );
    assert_eq!(
        kind_of(
            &mut g,
            ExprValue::AugAssign {
                name: "b".to_string(),
                op: Box::new(TokenType::Plus),
                value: Box::new(one()),
            }
        ),
        GenErrorKind::UnsupportedOperator
    );
    let before = g.ops().len();
    assert_eq!(
        kind_of(
            &mut g,
            ExprValue::IfElse {
                cond: Box::new(one()),
                if_: vec![],
                else_: vec![],
                type_: "float".to_string(),
            }
        ),
        GenErrorKind::UnknownType
    );
    assert_eq!(g.ops().len(), before);
}

#[test]
fn declaration_outside_every_function() {
    let mut g = Generator::new(vec![], "m");
    g.gen_function(&function("f", vec![])).unwrap();
    assert_eq!(kind_of(&mut g, declaration("x", None)), GenErrorKind::NoScope);
}

#[test]
fn classes_are_refused() {
    let mut g = Generator::new(vec![], "m");
    let class = Class { name: "A".to_string(), fns: vec![] };
    let e = g.gen_class(&class).unwrap_err();
    assert_eq!(e.kind, GenErrorKind::UnsupportedClass);
    assert_eq!(e.subject, "A");
    assert_eq!(g.gen_vtable(IrType::Void, &class).unwrap_err().kind, GenErrorKind::UnsupportedClass);
    assert_eq!(g.ops().len(), 0);
}

#[test]
fn outside_functions_are_declared_and_called() {
    let mut g = inside_function();
    let puts = External {
        name: "puts".to_string(),
        args: Args { name: vec!["s".to_string()], type_: vec!["str".to_string()] },
        return_type: "i64".to_string(),
    };
    g.gen_extern(&puts).unwrap();
    let declared = g.ops().len() - 1;
    assert_eq!(
        format!("{:?}", g.ops()[declared]),
        "DeclareFunction { name: \"puts\", params: [PStr], ret: I32, defined: false }"
    );
    let call = ExprValue::FnCall("puts".to_string(), vec![ExprValue::Str("hi".to_string())]);
    let (v, t) = g.gen_expression(&call).unwrap();
    assert_eq!(t, IrType::I32);
    assert_eq!(v, Value::Reg(declared + 2));
    assert_eq!(format!("{:?}", g.ops()[declared + 1]), "ConstString { text: \"hi\" }");
    let bad = External {
        name: "f".to_string(),
        args: Args { name: vec!["a".to_string()], type_: vec![] },
        return_type: "i32".to_string(),
    };
    assert_eq!(g.gen_extern(&bad).unwrap_err().kind, GenErrorKind::ArityMismatch);
    let bad = External {
        name: "f".to_string(),
        args: Args { name: vec![], type_: vec![] },
        return_type: "P".to_string(),
    };
    assert_eq!(g.gen_extern(&bad).unwrap_err().kind, GenErrorKind::UnknownType);
}

#[test]
fn the_runtime_allocator_is_declared() {
    let mut g = Generator::new(vec![], "module");
    g.init();
    assert_eq!(g.name(), "module");
    assert_eq!(
        format!("{:?}", g.ops()),
        "[DeclareFunction { name: \"GC_malloc\", params: [I64], ret: Void, defined: false }]"
    );
    let sig = g.find_function("GC_malloc").expect("the allocator is registered");
    assert_eq!((sig.op, sig.ret), (0, IrType::Void));
}

#[test]
fn comparisons_are_widened_to_booleans() {
    let mut g = inside_function();
    let before = g.ops().len();
    let (v, t) = g
        .gen_expression(&binary(ExprValue::Integer(1), TokenType::LessEq, ExprValue::Integer(2)))
        .unwrap();
    assert_eq!(t, IrType::Bool);
    assert_eq!(v, Value::Reg(before + 1));
    assert_eq!(
        format!("{:?}", &g.ops()[before..]),
        "[Inst { block: 1, inst: ICmp { pred: Sle, left: Int(1), right: Int(2) } }, \
Inst { block: 1, inst: ZExt { value: Reg(3), type_: Bool } }]"
    );
    let (_, t) = g
        .gen_expression(&ExprValue::UnOp(
            Box::new(TokenType::Not),
            Box::new(ExprValue::Boolean(true)),
        ))
        .unwrap();
    assert_eq!(t, IrType::Bool);
}

#[test]
fn copies_of_expressions() {
    let e = conditional(true);
    assert_eq!(format!("{:?}", e.clone()), format!("{:?}", e));
    let f = function("f", vec![declaration("v", Some(ExprValue::Integer(1)))]);
    assert_eq!(format!("{:?}", f.clone()), format!("{:?}", f));
}
