//! The state of lowering as a mathematical value, and the functions on it
//! that lowering is made of.

use crate::generator::ir::{ElemType, Inst, IrType, OpModel, Value};
use crate::lexer::{all_digits, decimal_value};
use crate::names::{drop_name, drop_value, find, put_name, put_value};
use crate::parser::toplevel::Fields;
use vstd::prelude::*;
use vstd::string::StringExecFns;

verus! {

/// Why lowering failed.
#[derive(Debug, Clone, Copy, PartialEq, Eq, Structural)]
pub enum GenErrorKind {
    /// A name is read that no variable of the function has.
    Unresolved,
    /// A variable is declared that the function already has.
    AlreadyExists,
    /// A name is assigned to that no variable of the function has.
    NoSuchVariable,
    /// A function is called that was not declared.
    NoSuchFunction,
    /// A struct is built from a number of values other than that of its fields.
    ArityMismatch,
    /// A type is named that is neither built in nor a declared struct.
    UnknownType,
    /// A field is read that the struct does not have.
    NoSuchField,
    /// A field is read of a value that is no struct.
    NotAStruct,
    /// A field is read by something other than its name.
    FieldNotNamed,
    /// A function holds a second conditional.
    TwoConditionals,
    /// A variable is declared with a value of another type.
    TypeMismatch,
    /// A unary operator other than `-` and `!`.
    UnknownUnary,
    /// An operator that joins no values.
    UnsupportedOperator,
    /// A string literal as the operand of an operator.
    StringOperand,
    /// A `use` directive, which lowering does not handle.
    UnsupportedUse,
    /// A class, which lowering does not handle.
    UnsupportedClass,
    /// A variable is declared outside every function.
    NoScope,
    /// An expression is lowered before any function was begun.
    NoInsertionPoint,
    /// A literal has more elements or bytes than 32 bits can count.
    TooLarge,
    /// A struct is declared under a name that a struct already has.
    StructExists,
    /// The fields of a struct are not numbered from 0 in their order.
    FieldOrder,
}

/// A failure of lowering: its kind and the name that it is about.
#[derive(Debug)]
pub struct GenError {
    pub kind: GenErrorKind,
    pub subject: String,
}

/// The model of a [`GenError`].
pub ghost struct GenErr {
    pub kind: GenErrorKind,
    pub subject: Seq<char>,
}

impl View for GenError {
    type V = GenErr;

    open spec fn view(&self) -> GenErr {
        GenErr { kind: self.kind, subject: self.subject@ }
    }
}

impl GenErrorKind {
    /// The text that describes this kind of failure.
    pub open spec fn text(self) -> Seq<char> {
        match self {
            GenErrorKind::Unresolved => "Unresolved variable reference"@,
            GenErrorKind::AlreadyExists => "Variable already exists"@,
            GenErrorKind::NoSuchVariable => "No such variable"@,
            GenErrorKind::NoSuchFunction => "Function doesn't exist"@,
            GenErrorKind::ArityMismatch => "Incorrect number of values for the fields of a struct"@,
            GenErrorKind::UnknownType => "No such type"@,
            GenErrorKind::NoSuchField => "No such field"@,
            GenErrorKind::NotAStruct => "A field is accessed of a value that is no struct"@,
            GenErrorKind::FieldNotNamed => "A field is accessed by something other than its name"@,
            GenErrorKind::TwoConditionals => "Cannot have two if statements in one function"@,
            GenErrorKind::TypeMismatch => "The value is not of the declared type"@,
            GenErrorKind::UnknownUnary => "Unidentified unary expression"@,
            GenErrorKind::UnsupportedOperator => "Unsupported operator"@,
            GenErrorKind::StringOperand => "Operators on strings are not supported"@,
            GenErrorKind::UnsupportedUse => "Modules are not supported"@,
            GenErrorKind::UnsupportedClass => "Classes are not supported"@,
            GenErrorKind::NoScope => "Variables are declared inside functions"@,
            GenErrorKind::NoInsertionPoint => "Expressions are lowered inside functions"@,
            GenErrorKind::TooLarge => "The literal is too large"@,
            GenErrorKind::StructExists => "Struct already exists"@,
            GenErrorKind::FieldOrder => "The fields of the struct are not numbered in their order"@,
        }
    }

    /// The description of this kind of failure.
    pub fn describe(self) -> (r: &'static str)
        ensures
            r@ == self.text(),
    {
        match self {
            GenErrorKind::Unresolved => "Unresolved variable reference",
            GenErrorKind::AlreadyExists => "Variable already exists",
            GenErrorKind::NoSuchVariable => "No such variable",
            GenErrorKind::NoSuchFunction => "Function doesn't exist",
            GenErrorKind::ArityMismatch => "Incorrect number of values for the fields of a struct",
            GenErrorKind::UnknownType => "No such type",
            GenErrorKind::NoSuchField => "No such field",
            GenErrorKind::NotAStruct => "A field is accessed of a value that is no struct",
            GenErrorKind::FieldNotNamed => "A field is accessed by something other than its name",
            GenErrorKind::TwoConditionals => "Cannot have two if statements in one function",
            GenErrorKind::TypeMismatch => "The value is not of the declared type",
            GenErrorKind::UnknownUnary => "Unidentified unary expression",
            GenErrorKind::UnsupportedOperator => "Unsupported operator",
            GenErrorKind::StringOperand => "Operators on strings are not supported",
            GenErrorKind::UnsupportedUse => "Modules are not supported",
            GenErrorKind::UnsupportedClass => "Classes are not supported",
            GenErrorKind::NoScope => "Variables are declared inside functions",
            GenErrorKind::NoInsertionPoint => "Expressions are lowered inside functions",
            GenErrorKind::TooLarge => "The literal is too large",
            GenErrorKind::StructExists => "Struct already exists",
            GenErrorKind::FieldOrder => "The fields of the struct are not numbered in their order",
        }
    }
}

/// The message for a failure of the given kind about `subject`: the
/// description of the kind and, where there is a subject, a colon and the
/// subject.
pub open spec fn failure_text(kind: GenErrorKind, subject: Seq<char>) -> Seq<char> {
    if subject.len() == 0 {
        kind.text()
    } else {
        kind.text() + ": "@ + subject
    }
}

impl GenError {
    /// The message for this failure.
    pub fn message(&self) -> (r: String)
        ensures
            r@ == failure_text(self.kind, self.subject@),
    {
        let mut r = String::from_str(self.kind.describe());
        if !self.subject.as_str().is_empty() {
            r.append(": ");
            r.append(self.subject.as_str());
        }
        r
    }
}

/// Where a variable is stored and what type it has.
#[derive(Debug, Clone, Copy, PartialEq, Eq, Structural)]
pub struct Slot {
    /// The address of the variable's storage.
    pub ptr: Value,
    pub type_: IrType,
}

/// What is known of a declared function.
#[derive(Debug, Clone, Copy, PartialEq, Eq, Structural)]
pub struct FnSig {
    /// The index of the operation that declares the function.
    pub op: usize,
    /// The type of the function's result.
    pub ret: IrType,
}

/// The variables that are bound: their names and, index by index, their slots.
pub ghost struct Vars {
    pub names: Seq<Seq<char>>,
    pub slots: Seq<Slot>,
}

/// The layout of a struct.
pub ghost struct Layout {
    /// The index of the operation that declares the struct.
    pub handle: usize,
    pub fields: Fields,
}

/// The registry of structs: their names and, index by index, their layouts.
pub ghost struct Structs {
    pub names: Seq<Seq<char>>,
    pub layouts: Seq<Layout>,
}

/// The declared functions: their names and, index by index, what is known
/// of them.
pub ghost struct Functions {
    pub names: Seq<Seq<char>>,
    pub sigs: Seq<FnSig>,
}

/// The state of lowering.
pub ghost struct GenState {
    /// The operations emitted so far.
    pub ops: Seq<OpModel>,
    pub vars: Vars,
    /// The stack of scope frames: for each function that is being lowered,
    /// the names declared in its body.
    pub frames: Seq<Seq<Seq<char>>>,
    /// The function that is being lowered or was lowered last.
    pub current_fn: Option<usize>,
    /// The block that instructions are appended to.
    pub current_block: Option<usize>,
    /// The number of conditionals lowered in the current function.
    pub if_count: int,
    pub structs: Structs,
    pub functions: Functions,
}

/// The outcome of lowering an expression: the state behind it, and the value
/// of the expression with its type, or an error.
pub ghost struct Lowered {
    pub st: GenState,
    pub result: Result<(Value, IrType), GenErr>,
}

/// The outcome of lowering a list of expressions to their values.
pub ghost struct LoweredItems {
    pub st: GenState,
    pub result: Result<Seq<Value>, GenErr>,
}

/// The outcome of a step of lowering that yields no value.
pub ghost struct Done {
    pub st: GenState,
    pub result: Result<(), GenErr>,
}

/// Success with the value `v` of type `t`.
pub open spec fn ok(st: GenState, v: Value, t: IrType) -> Lowered {
    Lowered { st, result: Ok((v, t)) }
}

/// Failure of the given kind about `subject`.
pub open spec fn err(st: GenState, kind: GenErrorKind, subject: Seq<char>) -> Lowered {
    Lowered { st, result: Err(GenErr { kind, subject }) }
}

/// The state after emitting `op`.
pub open spec fn emit(s: GenState, op: OpModel) -> GenState {
    GenState { ops: s.ops.push(op), ..s }
}

/// The index of the next operation.
pub open spec fn next_id(s: GenState) -> usize {
    s.ops.len() as usize
}

/// The value that the next operation computes.
pub open spec fn reg(s: GenState) -> Value {
    Value::Reg(next_id(s))
}

/// The block that instructions are appended to.
pub open spec fn block_of(s: GenState) -> usize {
    match s.current_block {
        Some(b) => b,
        None => 0,
    }
}

/// The function that blocks are appended to.
pub open spec fn fn_of(s: GenState) -> usize {
    match s.current_fn {
        Some(f) => f,
        None => 0,
    }
}

/// The state after appending the instruction `i` to the current block.
pub open spec fn emit_inst(s: GenState, i: Inst) -> GenState {
    emit(s, OpModel::Inst { block: block_of(s), inst: i })
}

/// The state with instructions going to `block`.
pub open spec fn at_block(s: GenState, block: usize) -> GenState {
    GenState { current_block: Some(block), ..s }
}

/// The slot of the variable `name`.
pub open spec fn lookup(vars: Vars, name: Seq<char>) -> Option<Slot> {
    match find(vars.names, name) {
        Some(i) => Some(vars.slots[i]),
        None => None,
    }
}

/// The variables with `name` bound to `slot`.
pub open spec fn bound(vars: Vars, name: Seq<char>, slot: Slot) -> Vars {
    Vars { names: put_name(vars.names, name), slots: put_value(vars.names, vars.slots, name, slot) }
}

/// The variables without `name`.
pub open spec fn unbound(vars: Vars, name: Seq<char>) -> Vars {
    Vars { names: drop_name(vars.names, name), slots: drop_value(vars.names, vars.slots, name) }
}

/// The variables without the names of `frame` from index `i` on.
pub open spec fn unbound_all(vars: Vars, frame: Seq<Seq<char>>, i: int) -> Vars
    decreases frame.len() - i,
{
    if 0 <= i < frame.len() {
        unbound_all(unbound(vars, frame[i]), frame, i + 1)
    } else {
        vars
    }
}

/// The state with `name` bound to `slot`.
pub open spec fn bind(s: GenState, name: Seq<char>, slot: Slot) -> GenState {
    GenState { vars: bound(s.vars, name, slot), ..s }
}

/// The state with `name` noted in the innermost scope frame.
pub open spec fn note(s: GenState, name: Seq<char>) -> GenState {
    if s.frames.len() > 0 {
        GenState { frames: s.frames.drop_last().push(s.frames.last().push(name)), ..s }
    } else {
        s
    }
}

/// The state with a new, empty scope frame.
pub open spec fn enter(s: GenState) -> GenState {
    GenState { frames: s.frames.push(Seq::empty()), ..s }
}

/// The state without its innermost scope frame and without the variables
/// that the frame names.
pub open spec fn leave(s: GenState) -> GenState {
    if s.frames.len() > 0 {
        GenState {
            frames: s.frames.drop_last(),
            vars: unbound_all(s.vars, s.frames.last(), 0),
            ..s
        }
    } else {
        s
    }
}

/// What is known of the function `name`.
pub open spec fn lookup_fn(fns: Functions, name: Seq<char>) -> Option<FnSig> {
    match find(fns.names, name) {
        Some(i) => Some(fns.sigs[i]),
        None => None,
    }
}

/// The type that a declaration, a parameter or a field names: one of the
/// built-in types, or the struct of that name.
pub open spec fn named_type(structs: Structs, tag: Seq<char>) -> Option<IrType> {
    if tag == "i32"@ {
        Some(IrType::I32)
    } else if tag == "i64"@ {
        Some(IrType::I32)
    } else if tag == "bool"@ {
        Some(IrType::Bool)
    } else if tag == "void"@ {
        Some(IrType::Void)
    } else if tag == "str"@ {
        Some(IrType::PStr)
    } else if tag == "intarr"@ {
        Some(IrType::PArr)
    } else {
        match find(structs.names, tag) {
            Some(k) => Some(IrType::Struct(k as usize)),
            None => None,
        }
    }
}

/// The length that the tag of a byte array names: the number behind its
/// first three characters, where that is a number that 32 bits can hold.
pub open spec fn tag_length(tag: Seq<char>) -> Option<u32> {
    let digits = tag.subrange(3, tag.len() as int);
    if tag.len() > 3 && all_digits(digits) && decimal_value(digits) <= u32::MAX {
        Some(decimal_value(digits) as u32)
    } else {
        None
    }
}

/// The type that the tag of an array literal or of a conditional names:
/// `i32`, `bool`, `void`, `str`, or `str` and a length.
pub open spec fn tag_type(tag: Seq<char>) -> Option<ElemType> {
    if tag == "i32"@ {
        Some(ElemType::I32)
    } else if tag == "bool"@ {
        Some(ElemType::Bool)
    } else if tag == "void"@ {
        Some(ElemType::Void)
    } else if tag == "str"@ {
        Some(ElemType::PStr)
    } else if tag.len() > 3 && tag.subrange(0, 3) == "str"@ {
        match tag_length(tag) {
            Some(n) => Some(ElemType::Str(n)),
            None => None,
        }
    } else {
        None
    }
}

/// The number of bytes of a text.
pub open spec fn byte_len(text: Seq<char>) -> nat {
    vstd::utf8::encode_utf8(text).len()
}

impl GenState {
    /// The invariant of the state: every table has one value per name and
    /// no name twice, the fields of every struct are numbered from 0 in
    /// their order, and a function holds at most one conditional.
    pub open spec fn wf(self) -> bool {
        &&& self.vars.names.len() == self.vars.slots.len()
        &&& self.vars.names.no_duplicates()
        &&& self.structs.names.len() == self.structs.layouts.len()
        &&& self.structs.names.no_duplicates()
        &&& self.functions.names.len() == self.functions.sigs.len()
        &&& self.functions.names.no_duplicates()
        &&& 0 <= self.if_count <= 1
        &&& self.ops.len() <= usize::MAX
        &&& forall|k: int|
            0 <= k < self.structs.layouts.len() ==> layout_wf(#[trigger] self.structs.layouts[k])
    }
}

/// The invariant of a layout: one field per name, no name twice, and the
/// fields numbered from 0 in their order.
pub open spec fn layout_wf(l: Layout) -> bool {
    &&& l.fields.names.len() == l.fields.infos.len()
    &&& l.fields.names.no_duplicates()
    &&& l.fields.names.len() <= i32::MAX
    &&& forall|i: int| 0 <= i < l.fields.infos.len() ==> (#[trigger] l.fields.infos[i]).index == i
}

} // verus!
