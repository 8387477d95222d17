//! The data model of the translator: the parsed, name-based textual form of an
//! SSA program (the input), the opaque handles and records of the constructed
//! program (the output), and the error taxonomy.

use vstd::prelude::*;

verus! {

/// Position of a token in the source text, kept so that a failed name
/// resolution can point at the place it happened.
#[derive(Clone, Copy, PartialEq, Eq, Structural, Debug)]
pub struct Span {
    pub start: u32,
    pub end: u32,
}

/// A name together with its source position, used for every reference that
/// may fail to resolve.
#[derive(Debug)]
pub struct Identifier {
    pub name: String,
    pub span: Span,
}

/// Mathematical image of an [`Identifier`]: the name as a character sequence.
#[verifier::ext_equal]
pub ghost struct IdentModel {
    pub name: Seq<char>,
    pub span: Span,
}

impl View for Identifier {
    type V = IdentModel;

    open spec fn view(&self) -> IdentModel {
        IdentModel { name: self.name@, span: self.span }
    }
}

impl Identifier {
    pub fn new(name: String, span: Span) -> (r: Identifier)
        ensures
            r@ == (IdentModel { name: name@, span }),
    {
        Identifier { name, span }
    }

    /// An explicit copy; the clone keeps the name and the position.
    pub fn duplicate(&self) -> (r: Identifier)
        ensures
            r@ == self@,
    {
        Identifier { name: self.name.clone(), span: self.span }
    }
}

/// The inlining hint a function carries for its execution target.
#[derive(Clone, Copy, PartialEq, Eq, Structural, Debug)]
pub enum InlineType {
    Inline,
    InlineAlways,
    NoPredicates,
    Fold,
}

/// The execution target of a function body: arithmetic-circuit style or
/// bytecode style, each with its inlining hint.
#[derive(Clone, Copy, PartialEq, Eq, Structural, Debug)]
pub enum RuntimeType {
    Acir(InlineType),
    Brillig(InlineType),
}

/// The type attached to values, parameters and constants. The translator
/// never inspects a type: it is carried from the textual form into the
/// constructed program unchanged.
#[derive(PartialEq, Eq, Debug)]
pub enum Type {
    Field,
    Boolean,
    Unsigned(u32),
    Signed(u32),
    Array(Box<Type>, u32),
    Reference(Box<Type>),
}

impl Type {
    /// An explicit deep copy of the type tree.
    pub fn duplicate(&self) -> (r: Type)
        ensures
            r == *self,
        decreases self,
    {
        match self {
            Type::Field => Type::Field,
            Type::Boolean => Type::Boolean,
            Type::Unsigned(bits) => Type::Unsigned(*bits),
            Type::Signed(bits) => Type::Signed(*bits),
            Type::Array(element, length) => Type::Array(Box::new(element.duplicate()), *length),
            Type::Reference(element) => Type::Reference(Box::new(element.duplicate())),
        }
    }
}

/// An enumerated binary operator; carried through unchanged.
#[derive(Clone, Copy, PartialEq, Eq, Structural, Debug)]
pub enum BinaryOpKind {
    Add,
    Sub,
    Mul,
    Div,
    Mod,
    Eq,
    Lt,
    And,
    Or,
    Xor,
    Shl,
    Shr,
}

/// Opaque handle of a constructed function. The entry function always has
/// handle 0.
#[derive(Clone, Copy, PartialEq, Eq, Structural, Hash, Debug)]
pub struct FunctionId(pub usize);

impl FunctionId {
    pub fn new(index: usize) -> (r: FunctionId)
        ensures
            r == FunctionId(index),
    {
        FunctionId(index)
    }
}

/// Opaque handle of a basic block, numbered within its function; the entry
/// block of every function is block 0.
#[derive(Clone, Copy, PartialEq, Eq, Structural, Hash, Debug)]
pub struct BasicBlockId(pub usize);

/// Opaque handle of a constructed value.
#[derive(Clone, Copy, PartialEq, Eq, Structural, Hash, Debug)]
pub struct ValueId(pub usize);

/// Handle of an interned list of value handles (call arguments, call results,
/// jump arguments, array elements).
#[derive(Clone, Copy, PartialEq, Eq, Structural, Hash, Debug)]
pub struct ValueListId(pub usize);

/// A builtin operation recognised by name, resolved before user functions of
/// the same name.
#[derive(Clone, Copy, PartialEq, Eq, Structural, Debug)]
pub enum Intrinsic {
    ArrayLen,
    AsSlice,
    AssertConstant,
    Print,
}

// ---------------------------------------------------------------------------
// Input entities, produced by the excluded parser and consumed read-only.
// ---------------------------------------------------------------------------

/// A value reference in the textual form: an inline constant, an inline array
/// literal, or a variable name to resolve.
#[derive(Debug)]
pub enum ParsedValue {
    NumericConstant { constant: u64, typ: Type },
    Array { values: Vec<ParsedValue>, typ: Type },
    Variable(Identifier),
}

/// One instruction of the textual form, naming zero or more result variables
/// and referencing zero or more operand values.
#[derive(Debug)]
pub enum ParsedInstruction {
    Allocate { target: Identifier, typ: Type },
    ArrayGet { target: Identifier, element_type: Type, array: ParsedValue, index: ParsedValue },
    ArraySet {
        target: Identifier,
        array: ParsedValue,
        index: ParsedValue,
        value: ParsedValue,
        mutable: bool,
    },
    BinaryOp { target: Identifier, lhs: ParsedValue, op: BinaryOpKind, rhs: ParsedValue },
    Call {
        targets: Vec<Identifier>,
        function: Identifier,
        arguments: Vec<ParsedValue>,
        types: Vec<Type>,
    },
    Cast { target: Identifier, lhs: ParsedValue, typ: Type },
    Constrain { lhs: ParsedValue, rhs: ParsedValue },
    DecrementRc { value: ParsedValue },
    EnableSideEffectsIf { condition: ParsedValue },
    IncrementRc { value: ParsedValue },
    Load { target: Identifier, value: ParsedValue, typ: Type },
    Not { target: Identifier, value: ParsedValue },
    RangeCheck { value: ParsedValue, max_bit_size: u32 },
    Store { value: ParsedValue, address: ParsedValue },
    Truncate { target: Identifier, value: ParsedValue, bit_size: u32, max_bit_size: u32 },
}

/// The control transfer that ends a block.
#[derive(Debug)]
pub enum ParsedTerminator {
    Jmp { destination: Identifier, arguments: Vec<ParsedValue> },
    Jmpif { condition: ParsedValue, then_block: Identifier, else_block: Identifier },
    Return(Vec<ParsedValue>),
}

/// A typed block parameter, introducing a new variable binding.
#[derive(Debug)]
pub struct ParsedParameter {
    pub identifier: Identifier,
    pub typ: Type,
}

/// A basic block of the textual form.
#[derive(Debug)]
pub struct ParsedBlock {
    pub name: String,
    pub parameters: Vec<ParsedParameter>,
    pub instructions: Vec<ParsedInstruction>,
    pub terminator: ParsedTerminator,
}

/// A function of the textual form. The external name is what the constructed
/// function is called; the internal name is what call sites refer to.
#[derive(Debug)]
pub struct ParsedFunction {
    pub external_name: String,
    pub internal_name: String,
    pub runtime_type: RuntimeType,
    pub blocks: Vec<ParsedBlock>,
}

/// A whole parsed program. The first function is the entry function.
#[derive(Debug)]
pub struct ParsedSsa {
    pub functions: Vec<ParsedFunction>,
}

// ---------------------------------------------------------------------------
// Errors.
// ---------------------------------------------------------------------------

/// Everything that can go wrong during translation. All are fatal to the
/// whole run; the identifier carries name and position for diagnostics.
#[derive(Debug)]
pub enum SsaError {
    UnknownFunction(Identifier),
    UnknownBlock(Identifier),
    UnknownVariable(Identifier),
    VariableAlreadyDefined(Identifier),
    MismatchedReturnValues { targets: Vec<Identifier>, expected: usize },
}

/// Mathematical image of an [`SsaError`].
#[verifier::ext_equal]
pub ghost enum ErrorModel {
    UnknownFunction(IdentModel),
    UnknownBlock(IdentModel),
    UnknownVariable(IdentModel),
    VariableAlreadyDefined(IdentModel),
    MismatchedReturnValues { targets: Seq<IdentModel>, expected: int },
}

impl View for SsaError {
    type V = ErrorModel;

    open spec fn view(&self) -> ErrorModel {
        match self {
            SsaError::UnknownFunction(id) => ErrorModel::UnknownFunction(id@),
            SsaError::UnknownBlock(id) => ErrorModel::UnknownBlock(id@),
            SsaError::UnknownVariable(id) => ErrorModel::UnknownVariable(id@),
            SsaError::VariableAlreadyDefined(id) => ErrorModel::VariableAlreadyDefined(id@),
            SsaError::MismatchedReturnValues { targets, expected } => {
                ErrorModel::MismatchedReturnValues {
                    targets: targets@.map_values(|i: Identifier| i@),
                    expected: *expected as int,
                }
            },
        }
    }
}

} // verus!
