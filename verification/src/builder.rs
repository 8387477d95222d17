//! The recording builder: the capability through which the translator
//! allocates functions, blocks, values, instructions and constants. Handles
//! are small indices; the builder records every request and seals the
//! accumulated structure into the finished [`Ssa`] program.
//!
//! Blocks of the function under construction are staged: block handles are
//! given out first (one per declared block, the entry block pre-existing),
//! and each block's content is then recorded in declaration order; a
//! terminator completes the staged block. Only terminated blocks become part
//! of the sealed function.

use vstd::prelude::*;
use vstd::string::StringExecFns;

use crate::im_list::{vector_elems, vector_to_vec};
use crate::ir::{Block, BlockModel, Function, FunctionModel, Instruction, Ssa, SsaModel,
    Terminator, ValueRecord};
use crate::types::{BasicBlockId, BinaryOpKind, FunctionId, InlineType, Intrinsic, RuntimeType,
    Type, ValueId, ValueListId};

verus! {

/// Mathematical image of the builder's whole state.
#[verifier::ext_equal]
pub ghost struct BuilderModel {
    /// Functions already sealed, in creation order.
    pub finished_functions: Seq<FunctionModel>,
    /// Identity of the function under construction.
    pub current_external_name: Seq<char>,
    pub current_id: FunctionId,
    pub current_runtime: RuntimeType,
    /// Block handles given out for the current function, entry included.
    pub declared_blocks: int,
    /// Terminated blocks of the current function, in handle order.
    pub finished_blocks: Seq<BlockModel>,
    /// Where insertion stands.
    pub current_block: BasicBlockId,
    /// The staged (not yet terminated) block's content.
    pub staged_parameters: Seq<ValueId>,
    pub staged_parameter_types: Seq<Type>,
    pub staged_instructions: Seq<Instruction>,
    /// The value table and the interned handle lists.
    pub values: Seq<ValueRecord>,
    pub value_lists: Seq<Seq<ValueId>>,
}

/// A freshly created function: entry block handle given out, nothing staged.
pub open spec fn fresh_function(b: BuilderModel) -> bool {
    &&& b.declared_blocks == 1
    &&& b.finished_blocks.len() == 0
    &&& b.current_block == BasicBlockId(0)
    &&& b.staged_parameters.len() == 0
    &&& b.staged_parameter_types.len() == 0
    &&& b.staged_instructions.len() == 0
}

/// The builder right after its creation.
pub open spec fn bm_init(external_name: Seq<char>, function_id: FunctionId) -> BuilderModel {
    BuilderModel {
        finished_functions: Seq::empty(),
        current_external_name: external_name,
        current_id: function_id,
        current_runtime: RuntimeType::Acir(InlineType::Inline),
        declared_blocks: 1,
        finished_blocks: Seq::empty(),
        current_block: BasicBlockId(0),
        staged_parameters: Seq::empty(),
        staged_parameter_types: Seq::empty(),
        staged_instructions: Seq::empty(),
        values: Seq::empty(),
        value_lists: Seq::empty(),
    }
}

/// The function that sealing the current construction state yields.
pub open spec fn bm_current_function(b: BuilderModel) -> FunctionModel {
    FunctionModel {
        external_name: b.current_external_name,
        id: b.current_id,
        runtime_type: b.current_runtime,
        blocks: b.finished_blocks,
    }
}

/// Seal the current function and begin a new one of the given identity.
pub open spec fn bm_new_function(
    b: BuilderModel,
    external_name: Seq<char>,
    function_id: FunctionId,
    runtime_type: RuntimeType,
) -> BuilderModel {
    BuilderModel {
        finished_functions: b.finished_functions.push(bm_current_function(b)),
        current_external_name: external_name,
        current_id: function_id,
        current_runtime: runtime_type,
        declared_blocks: 1,
        finished_blocks: Seq::empty(),
        current_block: BasicBlockId(0),
        staged_parameters: Seq::empty(),
        staged_parameter_types: Seq::empty(),
        staged_instructions: Seq::empty(),
        values: b.values,
        value_lists: b.value_lists,
    }
}

/// Allocate a fresh value handle for the given record.
pub open spec fn bm_fresh_value(b: BuilderModel, record: ValueRecord) -> (BuilderModel, ValueId) {
    (BuilderModel { values: b.values.push(record), ..b }, ValueId(b.values.len() as usize))
}

/// Allocate a fresh handle for the next result of the instruction being
/// inserted.
pub open spec fn bm_fresh_result(b: BuilderModel, index: usize) -> (BuilderModel, ValueId) {
    bm_fresh_value(
        b,
        ValueRecord::InstructionResult {
            function: b.current_id,
            block: b.current_block,
            instruction: b.staged_instructions.len() as usize,
            index,
        },
    )
}

/// Intern a list of value handles.
pub open spec fn bm_push_list(b: BuilderModel, list: Seq<ValueId>) -> (BuilderModel, ValueListId) {
    (
        BuilderModel { value_lists: b.value_lists.push(list), ..b },
        ValueListId(b.value_lists.len() as usize),
    )
}

/// Append one instruction to the staged block.
pub open spec fn bm_insert_instruction(b: BuilderModel, instruction: Instruction) -> BuilderModel {
    BuilderModel { staged_instructions: b.staged_instructions.push(instruction), ..b }
}

/// Complete the staged block with the given terminator.
pub open spec fn bm_terminate(b: BuilderModel, terminator: Terminator) -> BuilderModel {
    BuilderModel {
        finished_blocks: b.finished_blocks.push(
            BlockModel {
                parameters: b.staged_parameters,
                parameter_types: b.staged_parameter_types,
                instructions: b.staged_instructions,
                terminator: Some(terminator),
            },
        ),
        staged_parameters: Seq::empty(),
        staged_parameter_types: Seq::empty(),
        staged_instructions: Seq::empty(),
        ..b
    }
}

/// Add a typed parameter to the block where insertion stands.
pub open spec fn bm_add_block_parameter(
    b: BuilderModel,
    block: BasicBlockId,
    typ: Type,
) -> (BuilderModel, ValueId) {
    let (b1, vid) = bm_fresh_value(
        b,
        ValueRecord::Parameter {
            function: b.current_id,
            block,
            index: b.staged_parameters.len() as usize,
        },
    );
    (
        BuilderModel {
            staged_parameters: b1.staged_parameters.push(vid),
            staged_parameter_types: b1.staged_parameter_types.push(typ),
            ..b1
        },
        vid,
    )
}

/// Intern an array constant of the given element handles and element type.
pub open spec fn bm_array_constant(
    b: BuilderModel,
    elements: Seq<ValueId>,
    typ: Type,
) -> (BuilderModel, ValueId) {
    let (b1, lid) = bm_push_list(b, elements);
    bm_fresh_value(b1, ValueRecord::ArrayConstant { elements: lid, typ })
}

/// Insert a call: intern the argument list, allocate one result handle per
/// declared result type, intern the result list, and record the instruction.
pub open spec fn bm_insert_call(
    b: BuilderModel,
    function: ValueId,
    arguments: Seq<ValueId>,
    result_count: int,
) -> (BuilderModel, Seq<ValueId>) {
    let (b1, argument_list) = bm_push_list(b, arguments);
    let base = b1.values.len() as int;
    let results = Seq::new(result_count as nat, |j: int| ValueId((base + j) as usize));
    let records = Seq::new(
        result_count as nat,
        |j: int| ValueRecord::InstructionResult {
            function: b.current_id,
            block: b.current_block,
            instruction: b.staged_instructions.len() as usize,
            index: j as usize,
        },
    );
    let b2 = BuilderModel { values: b1.values + records, ..b1 };
    let (b3, result_list) = bm_push_list(b2, results);
    let b4 = bm_insert_instruction(
        b3,
        Instruction::Call { results: result_list, function, arguments: argument_list },
    );
    (b4, results)
}

/// Seal the whole construction into the finished program.
pub open spec fn bm_finish(b: BuilderModel) -> SsaModel {
    SsaModel {
        functions: b.finished_functions.push(bm_current_function(b)),
        values: b.values,
        value_lists: b.value_lists,
    }
}

/// The recording builder.
pub struct FunctionBuilder {
    finished_functions: Vec<Function>,
    current_external_name: String,
    current_id: FunctionId,
    current_runtime: RuntimeType,
    declared_blocks: usize,
    finished_blocks: Vec<Block>,
    current_block: BasicBlockId,
    staged_parameters: Vec<ValueId>,
    staged_parameter_types: Vec<Type>,
    staged_instructions: Vec<Instruction>,
    values: Vec<ValueRecord>,
    value_lists: Vec<Vec<ValueId>>,
}

impl View for FunctionBuilder {
    type V = BuilderModel;

    closed spec fn view(&self) -> BuilderModel {
        BuilderModel {
            finished_functions: self.finished_functions@.map_values(|f: Function| f@),
            current_external_name: self.current_external_name@,
            current_id: self.current_id,
            current_runtime: self.current_runtime,
            declared_blocks: self.declared_blocks as int,
            finished_blocks: self.finished_blocks@.map_values(|b: Block| b@),
            current_block: self.current_block,
            staged_parameters: self.staged_parameters@,
            staged_parameter_types: self.staged_parameter_types@,
            staged_instructions: self.staged_instructions@,
            values: self.values@,
            value_lists: self.value_lists@.map_values(|l: Vec<ValueId>| l@),
        }
    }
}

impl FunctionBuilder {
    /// Create a program shell anchored at the entry function's identity; its
    /// entry block pre-exists. The runtime kind starts at the default and is
    /// set right afterwards through `set_runtime`.
    pub fn new(external_name: String, function_id: FunctionId) -> (r: FunctionBuilder)
        ensures
            r@ == bm_init(external_name@, function_id),
    {
        let r = FunctionBuilder {
            finished_functions: Vec::new(),
            current_external_name: external_name,
            current_id: function_id,
            current_runtime: RuntimeType::Acir(InlineType::Inline),
            declared_blocks: 1,
            finished_blocks: Vec::new(),
            current_block: BasicBlockId(0),
            staged_parameters: Vec::new(),
            staged_parameter_types: Vec::new(),
            staged_instructions: Vec::new(),
            values: Vec::new(),
            value_lists: Vec::new(),
        };
        proof {
            assert(r@ =~~= bm_init(r.current_external_name@, function_id));
        }
        r
    }

    /// Set the runtime kind of the function under construction.
    pub fn set_runtime(&mut self, runtime_type: RuntimeType)
        ensures
            final(self)@ == (BuilderModel { current_runtime: runtime_type, ..old(self)@ }),
    {
        self.current_runtime = runtime_type;
    }

    /// Seal the current function and begin a circuit-style function.
    pub fn new_function(
        &mut self,
        external_name: String,
        function_id: FunctionId,
        inline_type: InlineType,
    )
        ensures
            final(self)@ == bm_new_function(
                old(self)@,
                external_name@,
                function_id,
                RuntimeType::Acir(inline_type),
            ),
    {
        self.start_function(external_name, function_id, RuntimeType::Acir(inline_type));
    }

    /// Seal the current function and begin a bytecode-style function.
    pub fn new_brillig_function(
        &mut self,
        external_name: String,
        function_id: FunctionId,
        inline_type: InlineType,
    )
        ensures
            final(self)@ == bm_new_function(
                old(self)@,
                external_name@,
                function_id,
                RuntimeType::Brillig(inline_type),
            ),
    {
        self.start_function(external_name, function_id, RuntimeType::Brillig(inline_type));
    }

    fn start_function(
        &mut self,
        external_name: String,
        function_id: FunctionId,
        runtime_type: RuntimeType,
    )
        ensures
            final(self)@ == bm_new_function(old(self)@, external_name@, function_id, runtime_type),
    {
        let sealed_name = self.current_external_name.clone();
        let mut sealed_blocks: Vec<Block> = Vec::new();
        core::mem::swap(&mut self.finished_blocks, &mut sealed_blocks);
        let sealed = Function {
            external_name: sealed_name,
            id: self.current_id,
            runtime_type: self.current_runtime,
            blocks: sealed_blocks,
        };
        self.finished_functions.push(sealed);
        self.current_external_name = external_name;
        self.current_id = function_id;
        self.current_runtime = runtime_type;
        self.declared_blocks = 1;
        self.current_block = BasicBlockId(0);
        self.staged_parameters = Vec::new();
        self.staged_parameter_types = Vec::new();
        self.staged_instructions = Vec::new();
        proof {
            assert(self.finished_functions@.map_values(|f: Function| f@) =~= old(
                self,
            ).finished_functions@.map_values(|f: Function| f@).push(bm_current_function(old(self)@)));
            assert(final(self)@ =~~= bm_new_function(
                old(self)@,
                self.current_external_name@,
                function_id,
                runtime_type,
            ));
        }
    }

    /// The pre-existing entry block of the function under construction.
    pub fn entry_block(&self) -> (r: BasicBlockId)
        ensures
            r == BasicBlockId(0),
    {
        BasicBlockId(0)
    }

    /// The identity of the function under construction.
    pub fn current_function_id(&self) -> (r: FunctionId)
        ensures
            r == self@.current_id,
    {
        self.current_id
    }

    /// Give out the next block handle of the current function.
    pub fn insert_block(&mut self) -> (r: BasicBlockId)
        requires
            old(self)@.declared_blocks < usize::MAX,
        ensures
            final(self)@ == (BuilderModel {
                declared_blocks: old(self)@.declared_blocks + 1,
                ..old(self)@
            }),
            r == BasicBlockId(old(self)@.declared_blocks as usize),
    {
        let id = BasicBlockId(self.declared_blocks);
        self.declared_blocks = self.declared_blocks + 1;
        id
    }

    /// Move insertion to the given block.
    pub fn switch_to_block(&mut self, block: BasicBlockId)
        ensures
            final(self)@ == (BuilderModel { current_block: block, ..old(self)@ }),
    {
        self.current_block = block;
    }

    /// Add a typed parameter to the block where insertion stands, returning
    /// its fresh value handle.
    pub fn add_block_parameter(&mut self, block: BasicBlockId, typ: Type) -> (r: ValueId)
        ensures
            ({
                let (b2, vid) = bm_add_block_parameter(old(self)@, block, typ);
                final(self)@ == b2 && r == vid
            }),
    {
        let vid = ValueId(self.values.len());
        self.values.push(
            ValueRecord::Parameter {
                function: self.current_id,
                block,
                index: self.staged_parameters.len(),
            },
        );
        self.staged_parameters.push(vid);
        self.staged_parameter_types.push(typ);
        vid
    }

    /// Intern a numeric constant of an explicit type.
    pub fn numeric_constant(&mut self, constant: u64, typ: Type) -> (r: ValueId)
        ensures
            ({
                let (b2, vid) = bm_fresh_value(
                    old(self)@,
                    ValueRecord::NumericConstant { constant, typ },
                );
                final(self)@ == b2 && r == vid
            }),
    {
        let vid = ValueId(self.values.len());
        self.values.push(ValueRecord::NumericConstant { constant, typ });
        vid
    }

    /// Intern an array constant of the given ordered element handles and
    /// element type.
    pub fn array_constant(&mut self, elements: im::Vector<usize>, typ: Type) -> (r: ValueId)
        ensures
            ({
                let (b2, vid) = bm_array_constant(
                    old(self)@,
                    vector_elems(elements).map_values(|u: usize| ValueId(u)),
                    typ,
                );
                final(self)@ == b2 && r == vid
            }),
    {
        let raw = vector_to_vec(&elements);
        let mut handles: Vec<ValueId> = Vec::new();
        let mut i: usize = 0;
        while i < raw.len()
            invariant
                0 <= i <= raw@.len(),
                raw@ == vector_elems(elements),
                handles@ == raw@.take(i as int).map_values(|u: usize| ValueId(u)),
            decreases raw@.len() - i,
        {
            handles.push(ValueId(raw[i]));
            proof {
                assert(raw@.take(i + 1).drop_last() =~= raw@.take(i as int));
                assert(handles@ =~= raw@.take(i + 1).map_values(|u: usize| ValueId(u)));
            }
            i += 1;
        }
        proof {
            assert(raw@.take(raw@.len() as int) =~= raw@);
        }
        let lid = self.push_list(handles);
        let vid = ValueId(self.values.len());
        self.values.push(ValueRecord::ArrayConstant { elements: lid, typ });
        vid
    }

    /// Resolve a builtin operation by name, allocating a handle for it; a
    /// name that is no builtin resolves to nothing and changes nothing.
    pub fn import_intrinsic(&mut self, name: &String) -> (r: Option<ValueId>)
        ensures
            match spec_intrinsic_of(name@) {
                Some(which) => ({
                    let (b2, vid) = bm_fresh_value(old(self)@, ValueRecord::IntrinsicOp { which });
                    final(self)@ == b2 && r == Some(vid)
                }),
                None => final(self)@ == old(self)@ && r is None,
            },
    {
        match intrinsic_of(name) {
            Some(which) => {
                let vid = ValueId(self.values.len());
                self.values.push(ValueRecord::IntrinsicOp { which });
                Some(vid)
            },
            None => None,
        }
    }

    /// Import a user function into the current call table, allocating a
    /// handle for it.
    pub fn import_function(&mut self, function: FunctionId) -> (r: ValueId)
        ensures
            ({
                let (b2, vid) = bm_fresh_value(old(self)@, ValueRecord::FunctionRef { function });
                final(self)@ == b2 && r == vid
            }),
    {
        let vid = ValueId(self.values.len());
        self.values.push(ValueRecord::FunctionRef { function });
        vid
    }

    fn push_list(&mut self, list: Vec<ValueId>) -> (r: ValueListId)
        ensures
            ({
                let (b2, lid) = bm_push_list(old(self)@, list@);
                final(self)@ == b2 && r == lid
            }),
    {
        let lid = ValueListId(self.value_lists.len());
        self.value_lists.push(list);
        proof {
            assert(self.value_lists@.map_values(|l: Vec<ValueId>| l@) =~= old(
                self,
            ).value_lists@.map_values(|l: Vec<ValueId>| l@).push(list@));
        }
        lid
    }

    fn fresh_result(&mut self, index: usize) -> (r: ValueId)
        ensures
            ({
                let (b2, vid) = bm_fresh_result(old(self)@, index);
                final(self)@ == b2 && r == vid
            }),
    {
        let vid = ValueId(self.values.len());
        self.values.push(
            ValueRecord::InstructionResult {
                function: self.current_id,
                block: self.current_block,
                instruction: self.staged_instructions.len(),
                index,
            },
        );
        vid
    }

    /// Insert an allocation of a mutable cell of the declared type.
    pub fn insert_allocate(&mut self, typ: Type) -> (r: ValueId)
        ensures
            ({
                let (b1, vid) = bm_fresh_result(old(self)@, 0);
                final(self)@ == bm_insert_instruction(b1, Instruction::Allocate { result: vid, typ })
                    && r == vid
            }),
    {
        let result = self.fresh_result(0);
        self.staged_instructions.push(Instruction::Allocate { result, typ });
        result
    }

    /// Insert an array read at an index, of an explicit element type.
    pub fn insert_array_get(
        &mut self,
        array: ValueId,
        index: ValueId,
        element_type: Type,
    ) -> (r: ValueId)
        ensures
            ({
                let (b1, vid) = bm_fresh_result(old(self)@, 0);
                final(self)@ == bm_insert_instruction(
                    b1,
                    Instruction::ArrayGet { result: vid, array, index, element_type },
                ) && r == vid
            }),
    {
        let result = self.fresh_result(0);
        self.staged_instructions.push(
            Instruction::ArrayGet { result, array, index, element_type },
        );
        result
    }

    /// Insert a copy-on-write array update.
    pub fn insert_array_set(&mut self, array: ValueId, index: ValueId, value: ValueId) -> (r:
        ValueId)
        ensures
            ({
                let (b1, vid) = bm_fresh_result(old(self)@, 0);
                final(self)@ == bm_insert_instruction(
                    b1,
                    Instruction::ArraySet { result: vid, array, index, value, mutable: false },
                ) && r == vid
            }),
    {
        let result = self.fresh_result(0);
        self.staged_instructions.push(
            Instruction::ArraySet { result, array, index, value, mutable: false },
        );
        result
    }

    /// Insert an in-place array update.
    pub fn insert_mutable_array_set(
        &mut self,
        array: ValueId,
        index: ValueId,
        value: ValueId,
    ) -> (r: ValueId)
        ensures
            ({
                let (b1, vid) = bm_fresh_result(old(self)@, 0);
                final(self)@ == bm_insert_instruction(
                    b1,
                    Instruction::ArraySet { result: vid, array, index, value, mutable: true },
                ) && r == vid
            }),
    {
        let result = self.fresh_result(0);
        self.staged_instructions.push(
            Instruction::ArraySet { result, array, index, value, mutable: true },
        );
        result
    }

    /// Insert a binary operation of an enumerated operator.
    pub fn insert_binary(&mut self, lhs: ValueId, op: BinaryOpKind, rhs: ValueId) -> (r: ValueId)
        ensures
            ({
                let (b1, vid) = bm_fresh_result(old(self)@, 0);
                final(self)@ == bm_insert_instruction(
                    b1,
                    Instruction::BinaryOp { result: vid, lhs, op, rhs },
                ) && r == vid
            }),
    {
        let result = self.fresh_result(0);
        self.staged_instructions.push(Instruction::BinaryOp { result, lhs, op, rhs });
        result
    }

    /// Insert a call, returning one fresh handle per declared result type.
    pub fn insert_call(
        &mut self,
        function: ValueId,
        arguments: Vec<ValueId>,
        result_types: &Vec<Type>,
    ) -> (r: Vec<ValueId>)
        ensures
            ({
                let (b2, results) = bm_insert_call(
                    old(self)@,
                    function,
                    arguments@,
                    result_types@.len() as int,
                );
                final(self)@ == b2 && r@ == results
            }),
    {
        let argument_list = self.push_list(arguments);
        let ghost b1 = self@;
        let ghost base = self@.values.len() as int;
        let ghost records = Seq::new(
            result_types@.len() as nat,
            |j: int| ValueRecord::InstructionResult {
                function: self@.current_id,
                block: self@.current_block,
                instruction: self@.staged_instructions.len() as usize,
                index: j as usize,
            },
        );
        let instruction_index = self.staged_instructions.len();
        let values_before = self.values.len();
        proof {
            assert(base == values_before as int);
        }
        let mut results: Vec<ValueId> = Vec::new();
        let mut results_copy: Vec<ValueId> = Vec::new();
        let mut j: usize = 0;
        while j < result_types.len()
            invariant
                0 <= j <= result_types@.len(),
                instruction_index == b1.staged_instructions.len(),
                records == Seq::new(
                    result_types@.len() as nat,
                    |k: int| ValueRecord::InstructionResult {
                        function: b1.current_id,
                        block: b1.current_block,
                        instruction: instruction_index,
                        index: k as usize,
                    },
                ),
                base == b1.values.len() as int,
                base + j <= usize::MAX,
                self@ == (BuilderModel { values: b1.values + records.take(j as int), ..b1 }),
                results@ == Seq::new(j as nat, |k: int| ValueId((base + k) as usize)),
                results_copy@ == results@,
            decreases result_types@.len() - j,
        {
            let vid = self.fresh_result_at(instruction_index, j);
            results.push(vid);
            results_copy.push(vid);
            let values_so_far = self.values.len();
            proof {
                assert(base + j + 1 == values_so_far as int);
                assert(self@.values =~= b1.values + records.take(j + 1));
                assert(results@ =~= Seq::new((j + 1) as nat, |k: int| ValueId((base + k) as usize)));
            }
            j += 1;
        }
        proof {
            assert(records.take(result_types@.len() as int) =~= records);
        }
        let result_list = self.push_list(results_copy);
        self.staged_instructions.push(
            Instruction::Call { results: result_list, function, arguments: argument_list },
        );
        results
    }

    fn fresh_result_at(&mut self, instruction: usize, index: usize) -> (r: ValueId)
        ensures
            ({
                let vid = ValueId(old(self)@.values.len() as usize);
                final(self)@ == (BuilderModel {
                    values: old(self)@.values.push(
                        ValueRecord::InstructionResult {
                            function: old(self)@.current_id,
                            block: old(self)@.current_block,
                            instruction,
                            index,
                        },
                    ),
                    ..old(self)@
                }) && r == vid
            }),
    {
        let vid = ValueId(self.values.len());
        self.values.push(
            ValueRecord::InstructionResult {
                function: self.current_id,
                block: self.current_block,
                instruction,
                index,
            },
        );
        vid
    }

    /// Insert a cast to an explicit type.
    pub fn insert_cast(&mut self, lhs: ValueId, typ: Type) -> (r: ValueId)
        ensures
            ({
                let (b1, vid) = bm_fresh_result(old(self)@, 0);
                final(self)@ == bm_insert_instruction(
                    b1,
                    Instruction::Cast { result: vid, lhs, typ },
                ) && r == vid
            }),
    {
        let result = self.fresh_result(0);
        self.staged_instructions.push(Instruction::Cast { result, lhs, typ });
        result
    }

    /// Insert an equality assertion.
    pub fn insert_constrain(&mut self, lhs: ValueId, rhs: ValueId)
        ensures
            final(self)@ == bm_insert_instruction(old(self)@, Instruction::Constrain { lhs, rhs }),
    {
        self.staged_instructions.push(Instruction::Constrain { lhs, rhs });
    }

    /// Insert a reference-count decrement of an array value.
    pub fn decrement_array_reference_count(&mut self, value: ValueId)
        ensures
            final(self)@ == bm_insert_instruction(old(self)@, Instruction::DecrementRc { value }),
    {
        self.staged_instructions.push(Instruction::DecrementRc { value });
    }

    /// Insert a reference-count increment of an array value.
    pub fn increment_array_reference_count(&mut self, value: ValueId)
        ensures
            final(self)@ == bm_insert_instruction(old(self)@, Instruction::IncrementRc { value }),
    {
        self.staged_instructions.push(Instruction::IncrementRc { value });
    }

    /// Insert a toggle of the conditional-execution guard.
    pub fn insert_enable_side_effects_if(&mut self, condition: ValueId)
        ensures
            final(self)@ == bm_insert_instruction(
                old(self)@,
                Instruction::EnableSideEffectsIf { condition },
            ),
    {
        self.staged_instructions.push(Instruction::EnableSideEffectsIf { condition });
    }

    /// Insert a load of an explicit type from an address.
    pub fn insert_load(&mut self, address: ValueId, typ: Type) -> (r: ValueId)
        ensures
            ({
                let (b1, vid) = bm_fresh_result(old(self)@, 0);
                final(self)@ == bm_insert_instruction(
                    b1,
                    Instruction::Load { result: vid, address, typ },
                ) && r == vid
            }),
    {
        let result = self.fresh_result(0);
        self.staged_instructions.push(Instruction::Load { result, address, typ });
        result
    }

    /// Insert a boolean or bitwise complement.
    pub fn insert_not(&mut self, value: ValueId) -> (r: ValueId)
        ensures
            ({
                let (b1, vid) = bm_fresh_result(old(self)@, 0);
                final(self)@ == bm_insert_instruction(b1, Instruction::Not { result: vid, value })
                    && r == vid
            }),
    {
        let result = self.fresh_result(0);
        self.staged_instructions.push(Instruction::Not { result, value });
        result
    }

    /// Insert an assertion that a value fits in a bit width.
    pub fn insert_range_check(&mut self, value: ValueId, max_bit_size: u32)
        ensures
            final(self)@ == bm_insert_instruction(
                old(self)@,
                Instruction::RangeCheck { value, max_bit_size },
            ),
    {
        self.staged_instructions.push(Instruction::RangeCheck { value, max_bit_size });
    }

    /// Insert a store of a value to an address.
    pub fn insert_store(&mut self, address: ValueId, value: ValueId)
        ensures
            final(self)@ == bm_insert_instruction(
                old(self)@,
                Instruction::Store { value, address },
            ),
    {
        self.staged_instructions.push(Instruction::Store { value, address });
    }

    /// Insert a truncation to a narrower representation.
    pub fn insert_truncate(&mut self, value: ValueId, bit_size: u32, max_bit_size: u32) -> (r:
        ValueId)
        ensures
            ({
                let (b1, vid) = bm_fresh_result(old(self)@, 0);
                final(self)@ == bm_insert_instruction(
                    b1,
                    Instruction::Truncate { result: vid, value, bit_size, max_bit_size },
                ) && r == vid
            }),
    {
        let result = self.fresh_result(0);
        self.staged_instructions.push(
            Instruction::Truncate { result, value, bit_size, max_bit_size },
        );
        result
    }

    /// Terminate the staged block with an unconditional jump.
    pub fn terminate_with_jmp(&mut self, destination: BasicBlockId, arguments: Vec<ValueId>)
        ensures
            ({
                let (b1, lid) = bm_push_list(old(self)@, arguments@);
                final(self)@ == bm_terminate(b1, Terminator::Jmp { destination, arguments: lid })
            }),
    {
        let lid = self.push_list(arguments);
        self.close_block(Terminator::Jmp { destination, arguments: lid });
    }

    /// Terminate the staged block with a conditional branch.
    pub fn terminate_with_jmpif(
        &mut self,
        condition: ValueId,
        then_destination: BasicBlockId,
        else_destination: BasicBlockId,
    )
        ensures
            final(self)@ == bm_terminate(
                old(self)@,
                Terminator::JmpIf { condition, then_destination, else_destination },
            ),
    {
        self.close_block(Terminator::JmpIf { condition, then_destination, else_destination });
    }

    /// Terminate the staged block with a return of a value list.
    pub fn terminate_with_return(&mut self, return_values: Vec<ValueId>)
        ensures
            ({
                let (b1, lid) = bm_push_list(old(self)@, return_values@);
                final(self)@ == bm_terminate(b1, Terminator::Return { values: lid })
            }),
    {
        let lid = self.push_list(return_values);
        self.close_block(Terminator::Return { values: lid });
    }

    fn close_block(&mut self, terminator: Terminator)
        ensures
            final(self)@ == bm_terminate(old(self)@, terminator),
    {
        let mut parameters: Vec<ValueId> = Vec::new();
        let mut parameter_types: Vec<Type> = Vec::new();
        let mut instructions: Vec<Instruction> = Vec::new();
        core::mem::swap(&mut self.staged_parameters, &mut parameters);
        core::mem::swap(&mut self.staged_parameter_types, &mut parameter_types);
        core::mem::swap(&mut self.staged_instructions, &mut instructions);
        self.finished_blocks.push(
            Block { parameters, parameter_types, instructions, terminator: Some(terminator) },
        );
        proof {
            assert(self.finished_blocks@.map_values(|b: Block| b@) =~= old(
                self,
            ).finished_blocks@.map_values(|b: Block| b@).push(
                BlockModel {
                    parameters: old(self)@.staged_parameters,
                    parameter_types: old(self)@.staged_parameter_types,
                    instructions: old(self)@.staged_instructions,
                    terminator: Some(terminator),
                },
            ));
            assert(final(self)@ =~~= bm_terminate(old(self)@, terminator));
        }
    }

    /// Seal the accumulated structure into the finished program.
    pub fn finish(self) -> (r: Ssa)
        ensures
            r@ == bm_finish(self@),
    {
        let mut functions = self.finished_functions;
        let sealed = Function {
            external_name: self.current_external_name,
            id: self.current_id,
            runtime_type: self.current_runtime,
            blocks: self.finished_blocks,
        };
        functions.push(sealed);
        let r = Ssa { functions, values: self.values, value_lists: self.value_lists };
        proof {
            assert(r@.functions =~~= bm_finish(self@).functions);
            assert(r@ =~~= bm_finish(self@));
        }
        r
    }
}

/// Which builtin operation a name denotes, if any.
pub open spec fn spec_intrinsic_of(name: Seq<char>) -> Option<Intrinsic> {
    if name == "array_len"@ {
        Some(Intrinsic::ArrayLen)
    } else if name == "as_slice"@ {
        Some(Intrinsic::AsSlice)
    } else if name == "assert_constant"@ {
        Some(Intrinsic::AssertConstant)
    } else if name == "print"@ {
        Some(Intrinsic::Print)
    } else {
        None
    }
}

/// Whether a name reads as the given literal.
fn string_is(name: &String, literal: &str) -> (r: bool)
    ensures
        r == (name@ == literal@),
{
    let other = String::from_str(literal);
    *name == other
}

/// Resolve a builtin operation's name.
pub fn intrinsic_of(name: &String) -> (r: Option<Intrinsic>)
    ensures
        r == spec_intrinsic_of(name@),
{
    if string_is(name, "array_len") {
        Some(Intrinsic::ArrayLen)
    } else if string_is(name, "as_slice") {
        Some(Intrinsic::AsSlice)
    } else if string_is(name, "assert_constant") {
        Some(Intrinsic::AssertConstant)
    } else if string_is(name, "print") {
        Some(Intrinsic::Print)
    } else {
        None
    }
}

} // verus!
