//! The intermediate representation that lowering produces: a list of
//! operations for a backend that builds functions out of basic blocks.
//!
//! An operation is identified by its index in the list. The value that an
//! operation computes, the block that it appends and the function or struct
//! that it declares are all named by that index.

use vstd::prelude::*;

verus! {

/// The types that the elements of an array literal and the value of a
/// conditional can be declared with.
#[derive(Debug, Clone, Copy, PartialEq, Eq, Structural)]
pub enum ElemType {
    I32,
    Bool,
    Void,
    /// A pointer to bytes.
    PStr,
    /// An array of so many bytes.
    Str(u32),
}

/// The type of a value.
#[derive(Debug, Clone, Copy, PartialEq, Eq, Structural)]
pub enum IrType {
    I32,
    I64,
    Bool,
    Void,
    /// A pointer to bytes.
    PStr,
    /// A pointer to 32-bit integers.
    PArr,
    /// An array of so many bytes.
    Str(u32),
    /// An array of so many elements of a type.
    Array(u32, ElemType),
    /// The struct that was registered at this index of the registry.
    Struct(usize),
}

impl ElemType {
    /// This type as the type of a value.
    pub open spec fn spec_as_type(self) -> IrType {
        match self {
            ElemType::I32 => IrType::I32,
            ElemType::Bool => IrType::Bool,
            ElemType::Void => IrType::Void,
            ElemType::PStr => IrType::PStr,
            ElemType::Str(n) => IrType::Str(n),
        }
    }

    /// This type as the type of a value.
    #[verifier::when_used_as_spec(spec_as_type)]
    pub fn as_type(self) -> (r: IrType)
        ensures
            r == self.spec_as_type(),
    {
        match self {
            ElemType::I32 => IrType::I32,
            ElemType::Bool => IrType::Bool,
            ElemType::Void => IrType::Void,
            ElemType::PStr => IrType::PStr,
            ElemType::Str(n) => IrType::Str(n),
        }
    }
}

/// A value that an operation can take.
#[derive(Debug, Clone, Copy, PartialEq, Eq, Structural)]
pub enum Value {
    /// A constant of type `I32`.
    Int(i32),
    /// A constant of type `Bool`.
    Bool(bool),
    /// What the operation at this index computes.
    Reg(usize),
    /// The parameter with the given number of the function that the
    /// operation at the given index declares.
    Param(usize, usize),
}

/// The arithmetic operations.
#[derive(Debug, Clone, Copy, PartialEq, Eq, Structural)]
pub enum BinaryOp {
    Add,
    Sub,
    Mul,
    /// Signed division.
    SDiv,
}

/// The signed comparisons.
#[derive(Debug, Clone, Copy, PartialEq, Eq, Structural)]
pub enum Predicate {
    Eq,
    Ne,
    Slt,
    Sgt,
    Sle,
    Sge,
}

/// The label of a basic block: its role and, for the blocks of a
/// conditional, the number of the conditional in its function.
#[derive(Debug, Clone, Copy, PartialEq, Eq, Structural)]
pub enum Label {
    Entry,
    Then(i32),
    Else(i32),
    End(i32),
    WhileCond,
    WhileBody,
    WhileEnd,
}

/// An instruction of a basic block.
#[derive(Debug, Clone, Copy, PartialEq, Eq, Structural)]
pub enum Inst {
    /// Allocates storage for a value of the type; computes its address.
    Alloca { type_: IrType },
    /// Stores the value at the address.
    Store { value: Value, ptr: Value },
    /// Loads a value of the type from the address.
    Load { type_: IrType, ptr: Value },
    /// Arithmetic negation.
    Neg { operand: Value },
    /// Logical negation.
    Not { operand: Value },
    Binary { op: BinaryOp, left: Value, right: Value },
    /// A signed comparison; computes one bit.
    ICmp { pred: Predicate, left: Value, right: Value },
    /// Widens the value to the type, filling with zeros.
    ZExt { value: Value, type_: IrType },
    /// Returns the value from the function.
    Ret { value: Value },
    /// Jumps to the block.
    Br { target: usize },
    /// Jumps to one block if the condition holds and to the other if not.
    CondBr { cond: Value, then_: usize, else_: usize },
    /// The first value where control came from the first block, and the
    /// second value where it came from the second.
    Phi { type_: IrType, then_value: Value, then_block: usize, else_value: Value, else_block: usize },
    /// The address of the field with the given index in the struct of the
    /// given type at the given address.
    StructGep { type_: IrType, ptr: Value, index: u32 },
}

/// An operation of the backend.
#[derive(Debug)]
pub enum Op {
    /// Declares a function. A defined function gets blocks; an outside
    /// one has none.
    DeclareFunction { name: String, params: Vec<IrType>, ret: IrType, defined: bool },
    /// Declares a struct type with fields of the given types.
    DeclareStruct { name: String, fields: Vec<IrType> },
    /// Names a parameter of a function.
    NameParam { function: usize, index: usize, name: String },
    /// Appends a block to a function.
    AppendBlock { function: usize, label: Label },
    /// Appends an instruction to a block.
    Inst { block: usize, inst: Inst },
    /// Appends, to a block, a call of a function with the given arguments.
    Call { block: usize, callee: usize, args: Vec<Value> },
    /// A constant array of bytes: the text.
    ConstString { text: String },
    /// A constant array of the given elements.
    ConstArray { elem: ElemType, items: Vec<Value> },
    /// A constant of a struct type with the given values of its fields.
    ConstStruct { struct_: usize, values: Vec<Value> },
}

/// The model of an [`Op`].
pub ghost enum OpModel {
    DeclareFunction { name: Seq<char>, params: Seq<IrType>, ret: IrType, defined: bool },
    DeclareStruct { name: Seq<char>, fields: Seq<IrType> },
    NameParam { function: usize, index: usize, name: Seq<char> },
    AppendBlock { function: usize, label: Label },
    Inst { block: usize, inst: Inst },
    Call { block: usize, callee: usize, args: Seq<Value> },
    ConstString { text: Seq<char> },
    ConstArray { elem: ElemType, items: Seq<Value> },
    ConstStruct { struct_: usize, values: Seq<Value> },
}

impl View for Op {
    type V = OpModel;

    open spec fn view(&self) -> OpModel {
        match self {
            Op::DeclareFunction { name, params, ret, defined } => OpModel::DeclareFunction {
                name: name@,
                params: params@,
                ret: *ret,
                defined: *defined,
            },
            Op::DeclareStruct { name, fields } => OpModel::DeclareStruct {
                name: name@,
                fields: fields@,
            },
            Op::NameParam { function, index, name } => OpModel::NameParam {
                function: *function,
                index: *index,
                name: name@,
            },
            Op::AppendBlock { function, label } => OpModel::AppendBlock {
                function: *function,
                label: *label,
            },
            Op::Inst { block, inst } => OpModel::Inst { block: *block, inst: *inst },
            Op::Call { block, callee, args } => OpModel::Call {
                block: *block,
                callee: *callee,
                args: args@,
            },
            Op::ConstString { text } => OpModel::ConstString { text: text@ },
            Op::ConstArray { elem, items } => OpModel::ConstArray { elem: *elem, items: items@ },
            Op::ConstStruct { struct_, values } => OpModel::ConstStruct {
                struct_: *struct_,
                values: values@,
            },
        }
    }
}

/// The models of a list of operations.
pub open spec fn ops_view(v: Seq<Op>) -> Seq<OpModel> {
    Seq::new(v.len(), |i: int| v[i]@)
}

/// The model of a list of operations grows with the list.
pub proof fn lemma_ops_view_push(v: Seq<Op>, op: Op)
    ensures
        ops_view(v.push(op)) == ops_view(v).push(op@),
{
    assert(ops_view(v.push(op)) =~= ops_view(v).push(op@));
}

} // verus!
