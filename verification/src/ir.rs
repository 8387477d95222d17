//! The constructed program: functions made of basic blocks, instructions and
//! terminators, all referring to values through opaque handles. Lists of
//! handles (call arguments and results, jump arguments, array elements) are
//! interned in a side table and referred to by a list handle, so every
//! instruction is a small flat record.

use vstd::prelude::*;

use crate::types::{
    BasicBlockId, BinaryOpKind, FunctionId, Intrinsic, RuntimeType, Type, ValueId, ValueListId,
};

verus! {

/// What a value handle stands for.
#[derive(Debug, PartialEq, Eq)]
pub enum ValueRecord {
    /// An interned numeric constant of an explicit type.
    NumericConstant { constant: u64, typ: Type },
    /// An interned array constant; `elements` names the interned list of the
    /// element handles, in order.
    ArrayConstant { elements: ValueListId, typ: Type },
    /// The `index`-th parameter of a block.
    Parameter { function: FunctionId, block: BasicBlockId, index: usize },
    /// The `index`-th result of the `instruction`-th instruction of a block.
    InstructionResult {
        function: FunctionId,
        block: BasicBlockId,
        instruction: usize,
        index: usize,
    },
    /// A user function imported into a call table.
    FunctionRef { function: FunctionId },
    /// A builtin operation resolved by name.
    IntrinsicOp { which: Intrinsic },
}

/// One constructed instruction. Each carries the handles of its results and
/// operands; the variants follow the instruction set of the textual form.
#[derive(Debug, PartialEq, Eq)]
pub enum Instruction {
    Allocate { result: ValueId, typ: Type },
    ArrayGet { result: ValueId, array: ValueId, index: ValueId, element_type: Type },
    ArraySet { result: ValueId, array: ValueId, index: ValueId, value: ValueId, mutable: bool },
    BinaryOp { result: ValueId, lhs: ValueId, op: BinaryOpKind, rhs: ValueId },
    Call { results: ValueListId, function: ValueId, arguments: ValueListId },
    Cast { result: ValueId, lhs: ValueId, typ: Type },
    Constrain { lhs: ValueId, rhs: ValueId },
    DecrementRc { value: ValueId },
    EnableSideEffectsIf { condition: ValueId },
    IncrementRc { value: ValueId },
    Load { result: ValueId, address: ValueId, typ: Type },
    Not { result: ValueId, value: ValueId },
    RangeCheck { value: ValueId, max_bit_size: u32 },
    Store { value: ValueId, address: ValueId },
    Truncate { result: ValueId, value: ValueId, bit_size: u32, max_bit_size: u32 },
}

/// The control transfer that ends a constructed block.
#[derive(Debug, PartialEq, Eq)]
pub enum Terminator {
    Jmp { destination: BasicBlockId, arguments: ValueListId },
    JmpIf { condition: ValueId, then_destination: BasicBlockId, else_destination: BasicBlockId },
    Return { values: ValueListId },
}

/// A constructed basic block: its parameter handles with their types, its
/// instructions in order, and its terminator.
#[derive(Debug)]
pub struct Block {
    pub parameters: Vec<ValueId>,
    pub parameter_types: Vec<Type>,
    pub instructions: Vec<Instruction>,
    pub terminator: Option<Terminator>,
}

/// Mathematical image of a [`Block`].
#[verifier::ext_equal]
pub ghost struct BlockModel {
    pub parameters: Seq<ValueId>,
    pub parameter_types: Seq<Type>,
    pub instructions: Seq<Instruction>,
    pub terminator: Option<Terminator>,
}

impl View for Block {
    type V = BlockModel;

    open spec fn view(&self) -> BlockModel {
        BlockModel {
            parameters: self.parameters@,
            parameter_types: self.parameter_types@,
            instructions: self.instructions@,
            terminator: self.terminator,
        }
    }
}

/// A constructed function: its externally-visible name, its handle, its
/// runtime kind, and its blocks in handle order.
#[derive(Debug)]
pub struct Function {
    pub external_name: String,
    pub id: FunctionId,
    pub runtime_type: RuntimeType,
    pub blocks: Vec<Block>,
}

/// Mathematical image of a [`Function`].
#[verifier::ext_equal]
pub ghost struct FunctionModel {
    pub external_name: Seq<char>,
    pub id: FunctionId,
    pub runtime_type: RuntimeType,
    pub blocks: Seq<BlockModel>,
}

impl View for Function {
    type V = FunctionModel;

    open spec fn view(&self) -> FunctionModel {
        FunctionModel {
            external_name: self.external_name@,
            id: self.id,
            runtime_type: self.runtime_type,
            blocks: self.blocks@.map_values(|b: Block| b@),
        }
    }
}

/// The finished program: the entry function first, then the remaining
/// functions in declaration order, together with the value table and the
/// interned handle lists that the instructions refer to.
#[derive(Debug)]
pub struct Ssa {
    pub functions: Vec<Function>,
    pub values: Vec<ValueRecord>,
    pub value_lists: Vec<Vec<ValueId>>,
}

/// Mathematical image of an [`Ssa`].
#[verifier::ext_equal]
pub ghost struct SsaModel {
    pub functions: Seq<FunctionModel>,
    pub values: Seq<ValueRecord>,
    pub value_lists: Seq<Seq<ValueId>>,
}

impl View for Ssa {
    type V = SsaModel;

    open spec fn view(&self) -> SsaModel {
        SsaModel {
            functions: self.functions@.map_values(|f: Function| f@),
            values: self.values@,
            value_lists: self.value_lists@.map_values(|l: Vec<ValueId>| l@),
        }
    }
}

} // verus!
