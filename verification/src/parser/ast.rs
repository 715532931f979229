//! The syntax tree and its mathematical model.

use crate::lexer::tokens::{TokenKind, TokenType};
use crate::names::{texts, NameMap};
use vstd::prelude::*;

verus! {

/// Where a node of the syntax tree stands in the source.
#[derive(Debug, Clone)]
pub struct NodePosition {
    pub pos: i32,
    pub line_no: i32,
    pub file: String,
}

/// The model of a [`NodePosition`].
pub ghost struct NodePos {
    pub pos: i32,
    pub line_no: i32,
    pub file: Seq<char>,
}

impl View for NodePosition {
    type V = NodePos;

    open spec fn view(&self) -> NodePos {
        NodePos { pos: self.pos, line_no: self.line_no, file: self.file@ }
    }
}

/// An expression.
#[allow(inconsistent_fields)]
#[derive(Debug)]
pub enum ExprValue {
    FnCall(String, Vec<ExprValue>),
    UnOp(Box<TokenType>, Box<ExprValue>),
    BinOp(Box<ExprValue>, Box<TokenType>, Box<ExprValue>),
    Boolean(bool),
    Integer(i32),
    Str(String),
    Identifier(String),
    VarDecl { name: String, type_: String, value: Option<Box<ExprValue>> },
    IfElse { cond: Box<ExprValue>, if_: Vec<ExprValue>, else_: Vec<ExprValue>, type_: String },
    Assign { name: String, value: Box<ExprValue> },
    AugAssign { name: String, op: Box<TokenType>, value: Box<ExprValue> },
    Return(Box<ExprValue>),
    Use(String),
    While(Box<ExprValue>, Vec<ExprValue>),
    Array(Vec<ExprValue>, String),
}

/// The model of an [`ExprValue`]: the same tree over sequences.
#[allow(inconsistent_fields)]
pub ghost enum Expr {
    FnCall(Seq<char>, Seq<Expr>),
    UnOp(TokenKind, Box<Expr>),
    BinOp(Box<Expr>, TokenKind, Box<Expr>),
    Boolean(bool),
    Integer(i32),
    Str(Seq<char>),
    Identifier(Seq<char>),
    VarDecl { name: Seq<char>, type_: Seq<char>, value: Option<Box<Expr>> },
    IfElse { cond: Box<Expr>, if_: Seq<Expr>, else_: Seq<Expr>, type_: Seq<char> },
    Assign { name: Seq<char>, value: Box<Expr> },
    AugAssign { name: Seq<char>, op: TokenKind, value: Box<Expr> },
    Return(Box<Expr>),
    Use(Seq<char>),
    While(Box<Expr>, Seq<Expr>),
    Array(Seq<Expr>, Seq<char>),
}

/// The models of a sequence of expressions.
pub open spec fn exprs_view(v: Seq<ExprValue>) -> Seq<Expr>
    decreases v,
{
    Seq::new(v.len(), |i: int| if 0 <= i < v.len() { expr_model(v[i]) } else { Expr::Boolean(false) })
}

/// The model of an expression.
pub open spec fn expr_model(e: ExprValue) -> Expr
    decreases e,
{
    match e {
        ExprValue::FnCall(name, args) => Expr::FnCall(name@, exprs_view(args@)),
        ExprValue::UnOp(op, e) => Expr::UnOp(op@, Box::new(expr_model(*e))),
        ExprValue::BinOp(l, op, r) => Expr::BinOp(
            Box::new(expr_model(*l)),
            op@,
            Box::new(expr_model(*r)),
        ),
        ExprValue::Boolean(b) => Expr::Boolean(b),
        ExprValue::Integer(i) => Expr::Integer(i),
        ExprValue::Str(s) => Expr::Str(s@),
        ExprValue::Identifier(s) => Expr::Identifier(s@),
        ExprValue::VarDecl { name, type_, value } => Expr::VarDecl {
            name: name@,
            type_: type_@,
            value: match value {
                Some(v) => Some(Box::new(expr_model(*v))),
                None => None,
            },
        },
        ExprValue::IfElse { cond, if_, else_, type_ } => Expr::IfElse {
            cond: Box::new(expr_model(*cond)),
            if_: exprs_view(if_@),
            else_: exprs_view(else_@),
            type_: type_@,
        },
        ExprValue::Assign { name, value } => Expr::Assign {
            name: name@,
            value: Box::new(expr_model(*value)),
        },
        ExprValue::AugAssign { name, op, value } => Expr::AugAssign {
            name: name@,
            op: op@,
            value: Box::new(expr_model(*value)),
        },
        ExprValue::Return(e) => Expr::Return(Box::new(expr_model(*e))),
        ExprValue::Use(s) => Expr::Use(s@),
        ExprValue::While(cond, body) => Expr::While(Box::new(expr_model(*cond)), exprs_view(body@)),
        ExprValue::Array(items, type_) => Expr::Array(exprs_view(items@), type_@),
    }
}

impl View for ExprValue {
    type V = Expr;

    open spec fn view(&self) -> Expr {
        expr_model(*self)
    }
}

/// A copy of a sequence of expressions.
pub fn clone_exprs(v: &Vec<ExprValue>) -> (r: Vec<ExprValue>)
    ensures
        exprs_view(r@) == exprs_view(v@),
    decreases v, 0nat,
{
    let mut r: Vec<ExprValue> = Vec::new();
    let mut i: usize = 0;
    while i < v.len()
        invariant
            i <= v.len(),
            r.len() == i,
            forall|j: int| 0 <= j < i ==> expr_model(r@[j]) == expr_model(v@[j]),
        decreases v.len() - i,
    {
        proof {
            broadcast use vstd::std_specs::vec::axiom_vec_index_decreases;

        }
        let e = v[i].clone();
        r.push(e);
        i += 1;
    }
    assert(exprs_view(r@) =~= exprs_view(v@));
    r
}

impl Clone for ExprValue {
    /// A copy of the expression.
    fn clone(&self) -> (r: Self)
        ensures
            r@ == self@,
        decreases self, 1nat,
    {
        match self {
            ExprValue::FnCall(name, args) => ExprValue::FnCall(name.clone(), clone_exprs(args)),
            ExprValue::UnOp(op, e) => ExprValue::UnOp(
                Box::new((**op).duplicate()),
                Box::new((**e).clone()),
            ),
            ExprValue::BinOp(l, op, r) => ExprValue::BinOp(
                Box::new((**l).clone()),
                Box::new((**op).duplicate()),
                Box::new((**r).clone()),
            ),
            ExprValue::Boolean(b) => ExprValue::Boolean(*b),
            ExprValue::Integer(i) => ExprValue::Integer(*i),
            ExprValue::Str(s) => ExprValue::Str(s.clone()),
            ExprValue::Identifier(s) => ExprValue::Identifier(s.clone()),
            ExprValue::VarDecl { name, type_, value } => ExprValue::VarDecl {
                name: name.clone(),
                type_: type_.clone(),
                value: match value {
                    Some(v) => Some(Box::new((**v).clone())),
                    None => None,
                },
            },
            ExprValue::IfElse { cond, if_, else_, type_ } => ExprValue::IfElse {
                cond: Box::new((**cond).clone()),
                if_: clone_exprs(if_),
                else_: clone_exprs(else_),
                type_: type_.clone(),
            },
            ExprValue::Assign { name, value } => ExprValue::Assign {
                name: name.clone(),
                value: Box::new((**value).clone()),
            },
            ExprValue::AugAssign { name, op, value } => ExprValue::AugAssign {
                name: name.clone(),
                op: Box::new((**op).duplicate()),
                value: Box::new((**value).clone()),
            },
            ExprValue::Return(e) => ExprValue::Return(Box::new((**e).clone())),
            ExprValue::Use(s) => ExprValue::Use(s.clone()),
            ExprValue::While(cond, body) => ExprValue::While(
                Box::new((**cond).clone()),
                clone_exprs(body),
            ),
            ExprValue::Array(items, type_) => ExprValue::Array(clone_exprs(items), type_.clone()),
        }
    }
}

/// The model of a vector of expressions grows with the vector.
pub proof fn lemma_exprs_view_push(v: Seq<ExprValue>, e: ExprValue)
    ensures
        exprs_view(v.push(e)) == exprs_view(v).push(e@),
        exprs_view(Seq::<ExprValue>::empty()) == Seq::<Expr>::empty(),
{
    assert(exprs_view(v.push(e)) =~= exprs_view(v).push(e@));
    assert(exprs_view(Seq::<ExprValue>::empty()) =~= Seq::<Expr>::empty());
}

/// The parameters of a function: their names and, index by index, their types.
#[derive(Debug, Clone)]
pub struct Args {
    pub name: Vec<String>,
    pub type_: Vec<String>,
}

/// The model of [`Args`].
pub ghost struct ArgsModel {
    pub name: Seq<Seq<char>>,
    pub type_: Seq<Seq<char>>,
}

impl View for Args {
    type V = ArgsModel;

    open spec fn view(&self) -> ArgsModel {
        ArgsModel { name: texts(self.name@), type_: texts(self.type_@) }
    }
}

/// The declaration of a function that is defined elsewhere:
/// its name, its parameters and the type of its result.
#[derive(Debug)]
pub struct External {
    pub name: String,
    pub args: Args,
    pub return_type: String,
}

/// The model of an [`External`].
pub ghost struct ExternalModel {
    pub name: Seq<char>,
    pub args: ArgsModel,
    pub return_type: Seq<char>,
}

impl View for External {
    type V = ExternalModel;

    open spec fn view(&self) -> ExternalModel {
        ExternalModel { name: self.name@, args: self.args@, return_type: self.return_type@ }
    }
}

/// The definition of a function: its name, its parameters, the expressions
/// of its body and the type of its result.
#[derive(Debug, Clone)]
pub struct Function {
    pub name: String,
    pub args: Args,
    pub expressions: Vec<ExprValue>,
    pub return_type: String,
}

/// The model of a [`Function`].
pub ghost struct FunctionModel {
    pub name: Seq<char>,
    pub args: ArgsModel,
    pub expressions: Seq<Expr>,
    pub return_type: Seq<char>,
}

impl View for Function {
    type V = FunctionModel;

    open spec fn view(&self) -> FunctionModel {
        FunctionModel {
            name: self.name@,
            args: self.args@,
            expressions: exprs_view(self.expressions@),
            return_type: self.return_type@,
        }
    }
}

/// The models of a sequence of functions with their positions.
pub open spec fn methods_view(v: Seq<(Function, NodePosition)>) -> Seq<(FunctionModel, NodePos)> {
    Seq::new(v.len(), |i: int| (v[i].0@, v[i].1@))
}

/// A class: its name and its methods.
#[derive(Debug)]
pub struct Class {
    pub name: String,
    pub fns: Vec<(Function, NodePosition)>,
}

/// The model of a [`Class`].
pub ghost struct ClassModel {
    pub name: Seq<char>,
    pub fns: Seq<(FunctionModel, NodePos)>,
}

impl View for Class {
    type V = ClassModel;

    open spec fn view(&self) -> ClassModel {
        ClassModel { name: self.name@, fns: methods_view(self.fns@) }
    }
}

/// A module: its name, its classes and its functions.
#[derive(Debug)]
pub struct Module {
    pub name: String,
    pub classes: Vec<(Class, NodePosition)>,
    pub fns: Vec<(Function, NodePosition)>,
}

/// What a struct declaration says of one field: its type and its index among
/// the fields, counted from 0 in the order of declaration.
#[derive(Debug, Clone)]
pub struct FieldInfo {
    pub type_: String,
    pub index: i32,
}

/// The model of a [`FieldInfo`].
pub ghost struct FieldModel {
    pub type_: Seq<char>,
    pub index: int,
}

impl View for FieldInfo {
    type V = FieldModel;

    open spec fn view(&self) -> FieldModel {
        FieldModel { type_: self.type_@, index: self.index as int }
    }
}

/// The models of the fields of a struct declaration.
pub open spec fn fields_view(v: Seq<FieldInfo>) -> Seq<FieldModel> {
    Seq::new(v.len(), |i: int| v[i]@)
}

/// A node at the top level of a program.
#[derive(Debug)]
pub enum AstNode {
    Extern(External),
    FunctionDef(Function),
    Class(Class),
    /// A struct: its name and, for each field name, the field's type and index.
    Struct(String, NameMap<FieldInfo>),
    Expression(ExprValue),
}

/// The model of an [`AstNode`].
pub ghost enum Node {
    Extern(ExternalModel),
    FunctionDef(FunctionModel),
    Class(ClassModel),
    /// A struct: its name, the names of its fields and what is known of each.
    Struct(Seq<char>, Seq<Seq<char>>, Seq<FieldModel>),
    Expression(Expr),
}

impl View for AstNode {
    type V = Node;

    open spec fn view(&self) -> Node {
        match self {
            AstNode::Extern(e) => Node::Extern(e@),
            AstNode::FunctionDef(f) => Node::FunctionDef(f@),
            AstNode::Class(c) => Node::Class(c@),
            AstNode::Struct(name, fields) => Node::Struct(
                name@,
                fields.names(),
                fields_view(fields.values()),
            ),
            AstNode::Expression(e) => Node::Expression(e@),
        }
    }
}

/// The models of a program: of its nodes with their positions.
pub open spec fn program_view(v: Seq<(AstNode, NodePosition)>) -> Seq<(Node, NodePos)> {
    Seq::new(v.len(), |i: int| (v[i].0@, v[i].1@))
}

} // verus!
