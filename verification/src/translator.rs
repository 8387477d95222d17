//! The translator: drives the recording builder to reconstruct a well-formed
//! program from the parsed textual form, one function and block at a time,
//! enforcing the single-assignment property and rejecting malformed
//! references.
//!
//! The contract of every operation is stated against `sp_*` specification
//! functions over [`TransModel`], a mathematical image of the translator's
//! whole state; `sp_translate` is the specification of the whole run.

use vstd::prelude::*;

use crate::builder::{bm_add_block_parameter, bm_array_constant, bm_finish, bm_fresh_result,
    bm_fresh_value, bm_init, bm_insert_call, bm_insert_instruction, bm_new_function, bm_push_list,
    bm_terminate, fresh_function, spec_intrinsic_of, BuilderModel, FunctionBuilder};
use crate::im_list::{vector_elems, vector_new, vector_push_back};
use crate::ir::{Instruction, Ssa, SsaModel, Terminator, ValueRecord};
use crate::name_map::NameMap;
use crate::types::{BasicBlockId, ErrorModel, FunctionId, IdentModel, Identifier, ParsedBlock,
    ParsedFunction, ParsedInstruction, ParsedParameter, ParsedSsa, ParsedTerminator, ParsedValue,
    RuntimeType, SsaError, ValueId};

verus! {

broadcast use vstd::std_specs::vec::group_vec_axioms;

/// Mathematical image of the translator's whole state: the builder's state
/// and the three name-resolution tables. The tables for blocks and variables
/// are kept per function, the last entry belonging to the function under
/// construction.
#[verifier::ext_equal]
pub ghost struct TransModel {
    pub builder: BuilderModel,
    pub functions: Map<Seq<char>, usize>,
    pub blocks: Seq<Map<Seq<char>, usize>>,
    pub variables: Seq<Map<Seq<char>, usize>>,
}

/// Structural soundness of the state: one block table and one variable table
/// per function, the sealed ones and the current one.
pub open spec fn twf(t: TransModel) -> bool {
    &&& t.blocks.len() == t.builder.finished_functions.len() + 1
    &&& t.variables.len() == t.builder.finished_functions.len() + 1
}

/// Replace the builder part of the state.
pub open spec fn with_builder(t: TransModel, b: BuilderModel) -> TransModel {
    TransModel { builder: b, ..t }
}

/// Look a variable up in the current function's bindings.
pub open spec fn sp_lookup_variable(t: TransModel, id: IdentModel) -> Result<ValueId, ErrorModel> {
    let vars = t.variables[t.variables.len() - 1];
    if vars.contains_key(id.name) {
        Ok(ValueId(vars[id.name]))
    } else {
        Err(ErrorModel::UnknownVariable(id))
    }
}

/// Look a block up in the current function's block table.
pub open spec fn sp_lookup_block(t: TransModel, id: IdentModel) -> Result<BasicBlockId, ErrorModel> {
    let blocks = t.blocks[t.blocks.len() - 1];
    if blocks.contains_key(id.name) {
        Ok(BasicBlockId(blocks[id.name]))
    } else {
        Err(ErrorModel::UnknownBlock(id))
    }
}

/// Look a function up by its internal name.
pub open spec fn sp_lookup_function(t: TransModel, id: IdentModel) -> Result<FunctionId, ErrorModel> {
    if t.functions.contains_key(id.name) {
        Ok(FunctionId(t.functions[id.name]))
    } else {
        Err(ErrorModel::UnknownFunction(id))
    }
}

/// Bind a name in the current function; rebinding is the single-assignment
/// violation and is the sole enforcement point of that property.
pub open spec fn sp_define_variable(t: TransModel, id: IdentModel, value: ValueId) -> Result<
    TransModel,
    ErrorModel,
> {
    let c = t.variables.len() - 1;
    if t.variables[c].contains_key(id.name) {
        Err(ErrorModel::VariableAlreadyDefined(id))
    } else {
        Ok(
            TransModel {
                variables: t.variables.update(c, t.variables[c].insert(id.name, value.0)),
                ..t
            },
        )
    }
}

/// Translate one value reference: constants are interned, array literals are
/// translated element by element (pre-order, left to right) and interned as
/// one array constant, variables are resolved.
pub open spec fn sp_translate_value(t: TransModel, value: ParsedValue) -> Result<
    (TransModel, ValueId),
    ErrorModel,
>
    decreases value, 0int,
{
    match value {
        ParsedValue::NumericConstant { constant, typ } => {
            let (b2, vid) = bm_fresh_value(t.builder, ValueRecord::NumericConstant { constant, typ });
            Ok((with_builder(t, b2), vid))
        },
        ParsedValue::Array { values, typ } => match sp_translate_values(t, values, 0) {
            Ok(p) => {
                let (b2, vid) = bm_array_constant(p.0.builder, p.1, typ);
                Ok((with_builder(p.0, b2), vid))
            },
            Err(e) => Err(e),
        },
        ParsedValue::Variable(identifier) => match sp_lookup_variable(t, identifier@) {
            Ok(vid) => Ok((t, vid)),
            Err(e) => Err(e),
        },
    }
}

/// Translate a list of values one after another from index `i` on, keeping
/// their order and stopping at the first failure.
pub open spec fn sp_translate_values(t: TransModel, values: Vec<ParsedValue>, i: int) -> Result<
    (TransModel, Seq<ValueId>),
    ErrorModel,
>
    decreases values, values@.len() - i,
{
    if i < 0 || i >= values@.len() {
        Ok((t, Seq::empty()))
    } else {
        match sp_translate_value(t, values[i]) {
            Ok(p) => match sp_translate_values(p.0, values, i + 1) {
                Ok(q) => Ok((q.0, seq![p.1] + q.1)),
                Err(e) => Err(e),
            },
            Err(e) => Err(e),
        }
    }
}

/// Bind the declared call targets to the returned handles, left to right.
pub open spec fn sp_define_targets(
    t: TransModel,
    targets: Vec<Identifier>,
    ids: Seq<ValueId>,
    i: int,
) -> Result<TransModel, ErrorModel>
    decreases targets@.len() - i,
{
    if i < 0 || i >= targets@.len() {
        Ok(t)
    } else {
        match sp_define_variable(t, targets[i]@, ids[i]) {
            Ok(t1) => sp_define_targets(t1, targets, ids, i + 1),
            Err(e) => Err(e),
        }
    }
}

/// Translate one instruction: read the operands, perform one builder call,
/// and bind the declared result variables.
#[verifier::opaque]
pub open spec fn sp_translate_instruction(t: TransModel, instruction: ParsedInstruction) -> Result<
    TransModel,
    ErrorModel,
> {
    match instruction {
        ParsedInstruction::Allocate { target, typ } => {
            let (b1, vid) = bm_fresh_result(t.builder, 0);
            let b2 = bm_insert_instruction(b1, Instruction::Allocate { result: vid, typ });
            sp_define_variable(with_builder(t, b2), target@, vid)
        },
        ParsedInstruction::ArrayGet { target, element_type, array, index } => match
            sp_translate_value(t, array) {
            Ok(pa) => match sp_translate_value(pa.0, index) {
                Ok(pi) => {
                    let (b1, vid) = bm_fresh_result(pi.0.builder, 0);
                    let b2 = bm_insert_instruction(
                        b1,
                        Instruction::ArrayGet {
                            result: vid,
                            array: pa.1,
                            index: pi.1,
                            element_type,
                        },
                    );
                    sp_define_variable(with_builder(pi.0, b2), target@, vid)
                },
                Err(e) => Err(e),
            },
            Err(e) => Err(e),
        },
        ParsedInstruction::ArraySet { target, array, index, value, mutable } => match
            sp_translate_value(t, array) {
            Ok(pa) => match sp_translate_value(pa.0, index) {
                Ok(pi) => match sp_translate_value(pi.0, value) {
                    Ok(pv) => {
                        let (b1, vid) = bm_fresh_result(pv.0.builder, 0);
                        let b2 = bm_insert_instruction(
                            b1,
                            Instruction::ArraySet {
                                result: vid,
                                array: pa.1,
                                index: pi.1,
                                value: pv.1,
                                mutable,
                            },
                        );
                        sp_define_variable(with_builder(pv.0, b2), target@, vid)
                    },
                    Err(e) => Err(e),
                },
                Err(e) => Err(e),
            },
            Err(e) => Err(e),
        },
        ParsedInstruction::BinaryOp { target, lhs, op, rhs } => match sp_translate_value(t, lhs) {
            Ok(pl) => match sp_translate_value(pl.0, rhs) {
                Ok(pr) => {
                    let (b1, vid) = bm_fresh_result(pr.0.builder, 0);
                    let b2 = bm_insert_instruction(
                        b1,
                        Instruction::BinaryOp { result: vid, lhs: pl.1, op, rhs: pr.1 },
                    );
                    sp_define_variable(with_builder(pr.0, b2), target@, vid)
                },
                Err(e) => Err(e),
            },
            Err(e) => Err(e),
        },
        ParsedInstruction::Call { targets, function, arguments, types } => {
            let callee = match spec_intrinsic_of(function.name@) {
                Some(which) => Ok(bm_fresh_value(t.builder, ValueRecord::IntrinsicOp { which })),
                None => match sp_lookup_function(t, function@) {
                    Ok(fid) => Ok(bm_fresh_value(t.builder, ValueRecord::FunctionRef { function: fid })),
                    Err(e) => Err(e),
                },
            };
            match callee {
                Ok(pc) => match sp_translate_values(with_builder(t, pc.0), arguments, 0) {
                    Ok(pa) => {
                        let (b3, results) = bm_insert_call(
                            pa.0.builder,
                            pc.1,
                            pa.1,
                            types@.len() as int,
                        );
                        if results.len() != targets@.len() {
                            Err(
                                ErrorModel::MismatchedReturnValues {
                                    targets: targets@.map_values(|x: Identifier| x@),
                                    expected: types@.len() as int,
                                },
                            )
                        } else {
                            sp_define_targets(with_builder(pa.0, b3), targets, results, 0)
                        }
                    },
                    Err(e) => Err(e),
                },
                Err(e) => Err(e),
            }
        },
        ParsedInstruction::Cast { target, lhs, typ } => match sp_translate_value(t, lhs) {
            Ok(pl) => {
                let (b1, vid) = bm_fresh_result(pl.0.builder, 0);
                let b2 = bm_insert_instruction(b1, Instruction::Cast { result: vid, lhs: pl.1, typ });
                sp_define_variable(with_builder(pl.0, b2), target@, vid)
            },
            Err(e) => Err(e),
        },
        ParsedInstruction::Constrain { lhs, rhs } => match sp_translate_value(t, lhs) {
            Ok(pl) => match sp_translate_value(pl.0, rhs) {
                Ok(pr) => Ok(
                    with_builder(
                        pr.0,
                        bm_insert_instruction(
                            pr.0.builder,
                            Instruction::Constrain { lhs: pl.1, rhs: pr.1 },
                        ),
                    ),
                ),
                Err(e) => Err(e),
            },
            Err(e) => Err(e),
        },
        ParsedInstruction::DecrementRc { value } => match sp_translate_value(t, value) {
            Ok(pv) => Ok(
                with_builder(
                    pv.0,
                    bm_insert_instruction(pv.0.builder, Instruction::DecrementRc { value: pv.1 }),
                ),
            ),
            Err(e) => Err(e),
        },
        ParsedInstruction::EnableSideEffectsIf { condition } => match sp_translate_value(
            t,
            condition,
        ) {
            Ok(pv) => Ok(
                with_builder(
                    pv.0,
                    bm_insert_instruction(
                        pv.0.builder,
                        Instruction::EnableSideEffectsIf { condition: pv.1 },
                    ),
                ),
            ),
            Err(e) => Err(e),
        },
        ParsedInstruction::IncrementRc { value } => match sp_translate_value(t, value) {
            Ok(pv) => Ok(
                with_builder(
                    pv.0,
                    bm_insert_instruction(pv.0.builder, Instruction::IncrementRc { value: pv.1 }),
                ),
            ),
            Err(e) => Err(e),
        },
        ParsedInstruction::Load { target, value, typ } => match sp_translate_value(t, value) {
            Ok(pv) => {
                let (b1, vid) = bm_fresh_result(pv.0.builder, 0);
                let b2 = bm_insert_instruction(
                    b1,
                    Instruction::Load { result: vid, address: pv.1, typ },
                );
                sp_define_variable(with_builder(pv.0, b2), target@, vid)
            },
            Err(e) => Err(e),
        },
        ParsedInstruction::Not { target, value } => match sp_translate_value(t, value) {
            Ok(pv) => {
                let (b1, vid) = bm_fresh_result(pv.0.builder, 0);
                let b2 = bm_insert_instruction(b1, Instruction::Not { result: vid, value: pv.1 });
                sp_define_variable(with_builder(pv.0, b2), target@, vid)
            },
            Err(e) => Err(e),
        },
        ParsedInstruction::RangeCheck { value, max_bit_size } => match sp_translate_value(t, value) {
            Ok(pv) => Ok(
                with_builder(
                    pv.0,
                    bm_insert_instruction(
                        pv.0.builder,
                        Instruction::RangeCheck { value: pv.1, max_bit_size },
                    ),
                ),
            ),
            Err(e) => Err(e),
        },
        ParsedInstruction::Store { value, address } => match sp_translate_value(t, value) {
            Ok(pv) => match sp_translate_value(pv.0, address) {
                Ok(pa) => Ok(
                    with_builder(
                        pa.0,
                        bm_insert_instruction(
                            pa.0.builder,
                            Instruction::Store { value: pv.1, address: pa.1 },
                        ),
                    ),
                ),
                Err(e) => Err(e),
            },
            Err(e) => Err(e),
        },
        ParsedInstruction::Truncate { target, value, bit_size, max_bit_size } => match
            sp_translate_value(t, value) {
            Ok(pv) => {
                let (b1, vid) = bm_fresh_result(pv.0.builder, 0);
                let b2 = bm_insert_instruction(
                    b1,
                    Instruction::Truncate { result: vid, value: pv.1, bit_size, max_bit_size },
                );
                sp_define_variable(with_builder(pv.0, b2), target@, vid)
            },
            Err(e) => Err(e),
        },
    }
}

/// Translate the instructions one after another from index `i` on.
pub open spec fn sp_translate_instructions(
    t: TransModel,
    instructions: Vec<ParsedInstruction>,
    i: int,
) -> Result<TransModel, ErrorModel>
    decreases instructions@.len() - i,
{
    if i < 0 || i >= instructions@.len() {
        Ok(t)
    } else {
        match sp_translate_instruction(t, instructions[i]) {
            Ok(t1) => sp_translate_instructions(t1, instructions, i + 1),
            Err(e) => Err(e),
        }
    }
}

/// Bind the declared block parameters from index `i` on, each to a fresh
/// handle, in declaration order.
pub open spec fn sp_define_parameters(
    t: TransModel,
    parameters: Vec<ParsedParameter>,
    block: BasicBlockId,
    i: int,
) -> Result<TransModel, ErrorModel>
    decreases parameters@.len() - i,
{
    if i < 0 || i >= parameters@.len() {
        Ok(t)
    } else {
        let (b1, vid) = bm_add_block_parameter(t.builder, block, parameters[i].typ);
        match sp_define_variable(with_builder(t, b1), parameters[i].identifier@, vid) {
            Ok(t1) => sp_define_parameters(t1, parameters, block, i + 1),
            Err(e) => Err(e),
        }
    }
}

/// Translate the terminator of the block where insertion stands.
pub open spec fn sp_translate_terminator(t: TransModel, terminator: ParsedTerminator) -> Result<
    TransModel,
    ErrorModel,
> {
    match terminator {
        ParsedTerminator::Jmp { destination, arguments } => match sp_lookup_block(t, destination@) {
            Ok(bid) => match sp_translate_values(t, arguments, 0) {
                Ok(pa) => {
                    let (b1, lid) = bm_push_list(pa.0.builder, pa.1);
                    Ok(
                        with_builder(
                            pa.0,
                            bm_terminate(
                                b1,
                                Terminator::Jmp { destination: bid, arguments: lid },
                            ),
                        ),
                    )
                },
                Err(e) => Err(e),
            },
            Err(e) => Err(e),
        },
        ParsedTerminator::Jmpif { condition, then_block, else_block } => match sp_translate_value(
            t,
            condition,
        ) {
            Ok(pc) => match sp_lookup_block(pc.0, then_block@) {
                Ok(then_id) => match sp_lookup_block(pc.0, else_block@) {
                    Ok(else_id) => Ok(
                        with_builder(
                            pc.0,
                            bm_terminate(
                                pc.0.builder,
                                Terminator::JmpIf {
                                    condition: pc.1,
                                    then_destination: then_id,
                                    else_destination: else_id,
                                },
                            ),
                        ),
                    ),
                    Err(e) => Err(e),
                },
                Err(e) => Err(e),
            },
            Err(e) => Err(e),
        },
        ParsedTerminator::Return(values) => match sp_translate_values(t, values, 0) {
            Ok(pv) => {
                let (b1, lid) = bm_push_list(pv.0.builder, pv.1);
                Ok(with_builder(pv.0, bm_terminate(b1, Terminator::Return { values: lid })))
            },
            Err(e) => Err(e),
        },
    }
}

/// Translate one block: move insertion to its pre-registered handle, bind
/// its parameters, translate its instructions in order, then its terminator.
pub open spec fn sp_translate_block(t: TransModel, block: ParsedBlock) -> Result<
    TransModel,
    ErrorModel,
> {
    let c = t.blocks.len() - 1;
    let bid = BasicBlockId(t.blocks[c][block.name@]);
    let t0 = with_builder(t, BuilderModel { current_block: bid, ..t.builder });
    match sp_define_parameters(t0, block.parameters, bid, 0) {
        Ok(t1) => match sp_translate_instructions(t1, block.instructions, 0) {
            Ok(t2) => sp_translate_terminator(t2, block.terminator),
            Err(e) => Err(e),
        },
        Err(e) => Err(e),
    }
}

/// The block pre-registration pass: record every block of the function by
/// name, the first block reusing the pre-existing entry handle, every later
/// one freshly allocated, so that forward jumps resolve.
pub open spec fn sp_register_blocks(t: TransModel, blocks: Vec<ParsedBlock>, i: int) -> TransModel
    decreases blocks@.len() - i,
{
    if i < 0 || i >= blocks@.len() {
        t
    } else {
        let (b1, bid) = if i == 0 {
            (t.builder, BasicBlockId(0))
        } else {
            (
                BuilderModel { declared_blocks: t.builder.declared_blocks + 1, ..t.builder },
                BasicBlockId(t.builder.declared_blocks as usize),
            )
        };
        let c = t.blocks.len() - 1;
        let t1 = TransModel {
            builder: b1,
            blocks: t.blocks.update(c, t.blocks[c].insert(blocks[i].name@, bid.0)),
            ..t
        };
        sp_register_blocks(t1, blocks, i + 1)
    }
}

/// Translate the blocks' contents one after another from index `i` on.
pub open spec fn sp_translate_blocks(t: TransModel, blocks: Vec<ParsedBlock>, i: int) -> Result<
    TransModel,
    ErrorModel,
>
    decreases blocks@.len() - i,
{
    if i < 0 || i >= blocks@.len() {
        Ok(t)
    } else {
        match sp_translate_block(t, blocks[i]) {
            Ok(t1) => sp_translate_blocks(t1, blocks, i + 1),
            Err(e) => Err(e),
        }
    }
}

/// Translate a function body: pre-register every block, then translate each
/// block's content in declaration order.
pub open spec fn sp_translate_function_body(t: TransModel, function: ParsedFunction) -> Result<
    TransModel,
    ErrorModel,
> {
    sp_translate_blocks(sp_register_blocks(t, function.blocks, 0), function.blocks, 0)
}

/// Translate a non-entry function: look its pre-assigned handle up, ask the
/// builder for a function of the matching runtime kind, then translate its
/// body.
pub open spec fn sp_translate_non_main(t: TransModel, function: ParsedFunction) -> Result<
    TransModel,
    ErrorModel,
> {
    let fid = FunctionId(t.functions[function.internal_name@]);
    let b1 = bm_new_function(t.builder, function.external_name@, fid, function.runtime_type);
    let t1 = TransModel {
        builder: b1,
        blocks: t.blocks.push(Map::empty()),
        variables: t.variables.push(Map::empty()),
        ..t
    };
    sp_translate_function_body(t1, function)
}

/// The function table of the non-entry functions: the `j`-th gets handle
/// `j + 1`, handle 0 being reserved for the entry function.
pub open spec fn sp_function_table(fns: Seq<ParsedFunction>, n: int) -> Map<Seq<char>, usize>
    decreases n,
{
    if n <= 0 {
        Map::empty()
    } else {
        sp_function_table(fns, n - 1).insert(fns[n - 1].internal_name@, n as usize)
    }
}

/// Program initialisation: anchor the builder at the entry function (the
/// first of the list), register every other function by name so that calls
/// resolve regardless of declaration order, then translate the entry
/// function's body.
pub open spec fn sp_new(p: ParsedSsa) -> Result<TransModel, ErrorModel> {
    let main = p.functions[0];
    let b0 = bm_init(main.external_name@, FunctionId(0));
    let b1 = BuilderModel { current_runtime: main.runtime_type, ..b0 };
    let t0 = TransModel {
        builder: b1,
        functions: sp_function_table(p.functions@.skip(1), p.functions@.len() - 1),
        blocks: seq![Map::empty()],
        variables: seq![Map::empty()],
    };
    sp_translate_function_body(t0, main)
}

/// Translate the remaining (non-entry) functions in declaration order.
pub open spec fn sp_translate_rest(t: TransModel, fns: Seq<ParsedFunction>, i: int) -> Result<
    TransModel,
    ErrorModel,
>
    decreases fns.len() - i,
{
    if i < 0 || i >= fns.len() {
        Ok(t)
    } else {
        match sp_translate_non_main(t, fns[i]) {
            Ok(t1) => sp_translate_rest(t1, fns, i + 1),
            Err(e) => Err(e),
        }
    }
}

/// The whole translation: initialise with the entry function, translate the
/// rest, seal the result.
pub open spec fn sp_translate(p: ParsedSsa) -> Result<SsaModel, ErrorModel> {
    match sp_new(p) {
        Ok(t1) => match sp_translate_rest(t1, p.functions@.skip(1), 0) {
            Ok(t2) => Ok(bm_finish(t2.builder)),
            Err(e) => Err(e),
        },
        Err(e) => Err(e),
    }
}

// ---------------------------------------------------------------------------
// Frame lemmas: which parts of the state each translation step leaves alone.
// ---------------------------------------------------------------------------

/// Value translation touches only the builder's value tables: every name
/// table is left as it was.
pub proof fn lemma_value_tables(t: TransModel, value: ParsedValue)
    ensures
        match sp_translate_value(t, value) {
            Ok(p) => p.0.blocks == t.blocks && p.0.functions == t.functions && p.0.variables
                == t.variables,
            Err(_) => true,
        },
    decreases value, 0int,
{
    match value {
        ParsedValue::NumericConstant { .. } => {},
        ParsedValue::Array { values, .. } => {
            lemma_values_tables(t, values, 0);
        },
        ParsedValue::Variable(_) => {},
    }
}

/// As [`lemma_value_tables`], for a list of values.
pub proof fn lemma_values_tables(t: TransModel, values: Vec<ParsedValue>, i: int)
    ensures
        match sp_translate_values(t, values, i) {
            Ok(p) => p.0.blocks == t.blocks && p.0.functions == t.functions && p.0.variables
                == t.variables,
            Err(_) => true,
        },
    decreases values, values@.len() - i,
{
    if 0 <= i < values@.len() {
        lemma_value_tables(t, values[i]);
        match sp_translate_value(t, values[i]) {
            Ok(p) => {
                lemma_values_tables(p.0, values, i + 1);
            },
            Err(_) => {},
        }
    }
}

/// Binding call targets leaves the block and function tables alone and keeps
/// one variable table per function.
pub proof fn lemma_targets_tables(t: TransModel, targets: Vec<Identifier>, ids: Seq<ValueId>, i: int)
    requires
        t.blocks.len() >= 1,
        t.variables.len() >= 1,
    ensures
        match sp_define_targets(t, targets, ids, i) {
            Ok(t2) => t2.blocks == t.blocks && t2.functions == t.functions && t2.variables.len()
                == t.variables.len(),
            Err(_) => true,
        },
    decreases targets@.len() - i,
{
    if 0 <= i < targets@.len() {
        match sp_define_variable(t, targets[i]@, ids[i]) {
            Ok(t1) => {
                lemma_targets_tables(t1, targets, ids, i + 1);
            },
            Err(_) => {},
        }
    }
}

/// Instruction translation leaves the block and function tables alone and
/// keeps one variable table per function.
pub proof fn lemma_instruction_tables(t: TransModel, instruction: ParsedInstruction)
    requires
        t.blocks.len() >= 1,
        t.variables.len() >= 1,
    ensures
        match sp_translate_instruction(t, instruction) {
            Ok(t2) => t2.blocks == t.blocks && t2.functions == t.functions && t2.variables.len()
                == t.variables.len(),
            Err(_) => true,
        },
{
    reveal(sp_translate_instruction);
    match instruction {
        ParsedInstruction::Allocate { .. } => {},
        ParsedInstruction::ArrayGet { array, index, .. } => {
            lemma_value_tables(t, array);
            match sp_translate_value(t, array) {
                Ok(pa) => {
                    lemma_value_tables(pa.0, index);
                },
                Err(_) => {},
            }
        },
        ParsedInstruction::ArraySet { array, index, value, .. } => {
            lemma_value_tables(t, array);
            match sp_translate_value(t, array) {
                Ok(pa) => {
                    lemma_value_tables(pa.0, index);
                    match sp_translate_value(pa.0, index) {
                        Ok(pi) => {
                            lemma_value_tables(pi.0, value);
                        },
                        Err(_) => {},
                    }
                },
                Err(_) => {},
            }
        },
        ParsedInstruction::BinaryOp { lhs, rhs, .. } => {
            lemma_value_tables(t, lhs);
            match sp_translate_value(t, lhs) {
                Ok(pl) => {
                    lemma_value_tables(pl.0, rhs);
                },
                Err(_) => {},
            }
        },
        ParsedInstruction::Call { targets, function, arguments, types } => {
            let callee = match spec_intrinsic_of(function.name@) {
                Some(which) => Ok(bm_fresh_value(t.builder, ValueRecord::IntrinsicOp { which })),
                None => match sp_lookup_function(t, function@) {
                    Ok(fid) => Ok(
                        bm_fresh_value(t.builder, ValueRecord::FunctionRef { function: fid }),
                    ),
                    Err(e) => Err(e),
                },
            };
            match callee {
                Ok(pc) => {
                    lemma_values_tables(with_builder(t, pc.0), arguments, 0);
                    match sp_translate_values(with_builder(t, pc.0), arguments, 0) {
                        Ok(pa) => {
                            let (b3, results) = bm_insert_call(
                                pa.0.builder,
                                pc.1,
                                pa.1,
                                types@.len() as int,
                            );
                            lemma_targets_tables(with_builder(pa.0, b3), targets, results, 0);
                        },
                        Err(_) => {},
                    }
                },
                Err(_) => {},
            }
        },
        ParsedInstruction::Cast { lhs, .. } => {
            lemma_value_tables(t, lhs);
        },
        ParsedInstruction::Constrain { lhs, rhs } => {
            lemma_value_tables(t, lhs);
            match sp_translate_value(t, lhs) {
                Ok(pl) => {
                    lemma_value_tables(pl.0, rhs);
                },
                Err(_) => {},
            }
        },
        ParsedInstruction::DecrementRc { value } => {
            lemma_value_tables(t, value);
        },
        ParsedInstruction::EnableSideEffectsIf { condition } => {
            lemma_value_tables(t, condition);
        },
        ParsedInstruction::IncrementRc { value } => {
            lemma_value_tables(t, value);
        },
        ParsedInstruction::Load { value, .. } => {
            lemma_value_tables(t, value);
        },
        ParsedInstruction::Not { value, .. } => {
            lemma_value_tables(t, value);
        },
        ParsedInstruction::RangeCheck { value, .. } => {
            lemma_value_tables(t, value);
        },
        ParsedInstruction::Store { value, address } => {
            lemma_value_tables(t, value);
            match sp_translate_value(t, value) {
                Ok(pv) => {
                    lemma_value_tables(pv.0, address);
                },
                Err(_) => {},
            }
        },
        ParsedInstruction::Truncate { value, .. } => {
            lemma_value_tables(t, value);
        },
    }
}

/// As [`lemma_instruction_tables`], for a list of instructions.
pub proof fn lemma_instructions_tables(t: TransModel, instructions: Vec<ParsedInstruction>, i: int)
    requires
        t.blocks.len() >= 1,
        t.variables.len() >= 1,
    ensures
        match sp_translate_instructions(t, instructions, i) {
            Ok(t2) => t2.blocks == t.blocks && t2.functions == t.functions && t2.variables.len()
                == t.variables.len(),
            Err(_) => true,
        },
    decreases instructions@.len() - i,
{
    if 0 <= i < instructions@.len() {
        lemma_instruction_tables(t, instructions[i]);
        match sp_translate_instruction(t, instructions[i]) {
            Ok(t1) => {
                lemma_instructions_tables(t1, instructions, i + 1);
            },
            Err(_) => {},
        }
    }
}

/// Binding block parameters leaves the block and function tables alone.
pub proof fn lemma_parameters_tables(
    t: TransModel,
    parameters: Vec<ParsedParameter>,
    block: BasicBlockId,
    i: int,
)
    requires
        t.blocks.len() >= 1,
        t.variables.len() >= 1,
    ensures
        match sp_define_parameters(t, parameters, block, i) {
            Ok(t2) => t2.blocks == t.blocks && t2.functions == t.functions && t2.variables.len()
                == t.variables.len(),
            Err(_) => true,
        },
    decreases parameters@.len() - i,
{
    if 0 <= i < parameters@.len() {
        let (b1, vid) = bm_add_block_parameter(t.builder, block, parameters[i].typ);
        match sp_define_variable(with_builder(t, b1), parameters[i].identifier@, vid) {
            Ok(t1) => {
                lemma_parameters_tables(t1, parameters, block, i + 1);
            },
            Err(_) => {},
        }
    }
}

/// Terminator translation leaves every name table alone.
pub proof fn lemma_terminator_tables(t: TransModel, terminator: ParsedTerminator)
    ensures
        match sp_translate_terminator(t, terminator) {
            Ok(t2) => t2.blocks == t.blocks && t2.functions == t.functions && t2.variables
                == t.variables,
            Err(_) => true,
        },
{
    match terminator {
        ParsedTerminator::Jmp { arguments, .. } => {
            lemma_values_tables(t, arguments, 0);
        },
        ParsedTerminator::Jmpif { condition, .. } => {
            lemma_value_tables(t, condition);
        },
        ParsedTerminator::Return(values) => {
            lemma_values_tables(t, values, 0);
        },
    }
}

/// Translating a block's content leaves the block and function tables alone.
pub proof fn lemma_block_tables(t: TransModel, block: ParsedBlock)
    requires
        t.blocks.len() >= 1,
        t.variables.len() >= 1,
    ensures
        match sp_translate_block(t, block) {
            Ok(t2) => t2.blocks == t.blocks && t2.functions == t.functions && t2.variables.len()
                == t.variables.len(),
            Err(_) => true,
        },
{
    let c = t.blocks.len() - 1;
    let bid = BasicBlockId(t.blocks[c][block.name@]);
    let t0 = with_builder(t, BuilderModel { current_block: bid, ..t.builder });
    lemma_parameters_tables(t0, block.parameters, bid, 0);
    match sp_define_parameters(t0, block.parameters, bid, 0) {
        Ok(t1) => {
            lemma_instructions_tables(t1, block.instructions, 0);
            match sp_translate_instructions(t1, block.instructions, 0) {
                Ok(t2) => {
                    lemma_terminator_tables(t2, block.terminator);
                },
                Err(_) => {},
            }
        },
        Err(_) => {},
    }
}

/// As [`lemma_block_tables`], for the whole content pass.
pub proof fn lemma_blocks_tables(t: TransModel, blocks: Vec<ParsedBlock>, i: int)
    requires
        t.blocks.len() >= 1,
        t.variables.len() >= 1,
    ensures
        match sp_translate_blocks(t, blocks, i) {
            Ok(t2) => t2.blocks == t.blocks && t2.functions == t.functions && t2.variables.len()
                == t.variables.len(),
            Err(_) => true,
        },
    decreases blocks@.len() - i,
{
    if 0 <= i < blocks@.len() {
        lemma_block_tables(t, blocks[i]);
        match sp_translate_block(t, blocks[i]) {
            Ok(t1) => {
                lemma_blocks_tables(t1, blocks, i + 1);
            },
            Err(_) => {},
        }
    }
}

/// Block pre-registration only fills the current function's block table:
/// the table count, the function table and the variable tables are kept, and
/// every block name of the function, later-declared ones included, is
/// registered afterwards — the property that makes forward jumps resolve.
pub proof fn lemma_register_blocks(t: TransModel, blocks: Vec<ParsedBlock>, i: int)
    requires
        0 <= i,
        t.blocks.len() >= 1,
        t.variables.len() >= 1,
    ensures
        ({
            let t1 = sp_register_blocks(t, blocks, i);
            &&& t1.blocks.len() == t.blocks.len()
            &&& t1.functions == t.functions
            &&& t1.variables == t.variables
            &&& t1.builder.finished_functions == t.builder.finished_functions
            &&& forall|n: Seq<char>|
                #[trigger] t.blocks[t.blocks.len() - 1].contains_key(n)
                    ==> t1.blocks[t1.blocks.len() - 1].contains_key(n)
            &&& forall|j: int|
                i <= j < blocks@.len() ==> t1.blocks[t1.blocks.len() - 1].contains_key(
                    #[trigger] blocks[j].name@,
                )
        }),
    decreases blocks@.len() - i,
{
    if 0 <= i < blocks@.len() {
        let (b1, bid) = if i == 0 {
            (t.builder, BasicBlockId(0))
        } else {
            (
                BuilderModel { declared_blocks: t.builder.declared_blocks + 1, ..t.builder },
                BasicBlockId(t.builder.declared_blocks as usize),
            )
        };
        let c = t.blocks.len() - 1;
        let t1 = TransModel {
            builder: b1,
            blocks: t.blocks.update(c, t.blocks[c].insert(blocks[i].name@, bid.0)),
            ..t
        };
        lemma_register_blocks(t1, blocks, i + 1);
        let tf = sp_register_blocks(t1, blocks, i + 1);
        assert(sp_register_blocks(t, blocks, i) == tf);
        assert forall|n: Seq<char>|
            #[trigger] t.blocks[t.blocks.len() - 1].contains_key(n) implies tf.blocks[tf.blocks.len()
            - 1].contains_key(n) by {
            assert(t1.blocks[t1.blocks.len() - 1].contains_key(n));
        }
        assert(t1.blocks[t1.blocks.len() - 1].contains_key(blocks[i].name@));
        assert(tf.blocks[tf.blocks.len() - 1].contains_key(blocks[i].name@));
        assert(forall|j: int|
            i <= j < blocks@.len() ==> tf.blocks[tf.blocks.len() - 1].contains_key(
                #[trigger] blocks[j].name@,
            ));
    }
}

/// Every non-entry function's internal name is in the function table.
pub proof fn lemma_function_table_coverage(fns: Seq<ParsedFunction>, n: int, j: int)
    requires
        0 <= j < n <= fns.len(),
    ensures
        sp_function_table(fns, n).contains_key(fns[j].internal_name@),
    decreases n,
{
    if j < n - 1 {
        lemma_function_table_coverage(fns, n - 1, j);
    }
}

/// Translating a whole function body leaves the function table alone.
pub proof fn lemma_body_tables(t: TransModel, function: ParsedFunction)
    requires
        t.blocks.len() >= 1,
        t.variables.len() >= 1,
    ensures
        match sp_translate_function_body(t, function) {
            Ok(t2) => t2.functions == t.functions && t2.blocks.len() == t.blocks.len()
                && t2.variables.len() == t.variables.len(),
            Err(_) => true,
        },
{
    lemma_register_blocks(t, function.blocks, 0);
    lemma_blocks_tables(sp_register_blocks(t, function.blocks, 0), function.blocks, 0);
}

/// Translating a non-entry function leaves the function table alone.
pub proof fn lemma_non_main_tables(t: TransModel, function: ParsedFunction)
    requires
        t.blocks.len() >= 1,
        t.variables.len() >= 1,
    ensures
        match sp_translate_non_main(t, function) {
            Ok(t2) => t2.functions == t.functions,
            Err(_) => true,
        },
{
    let fid = FunctionId(t.functions[function.internal_name@]);
    let b1 = bm_new_function(t.builder, function.external_name@, fid, function.runtime_type);
    let t1 = TransModel {
        builder: b1,
        blocks: t.blocks.push(Map::empty()),
        variables: t.variables.push(Map::empty()),
        ..t
    };
    lemma_body_tables(t1, function);
}

// ---------------------------------------------------------------------------
// The executable translator.
// ---------------------------------------------------------------------------

/// The translator: the recording builder plus the three name-resolution
/// tables. The block and variable tables are kept per function, the last
/// entry belonging to the function under construction.
pub struct Translator {
    builder: FunctionBuilder,
    functions: NameMap,
    blocks: Vec<NameMap>,
    variables: Vec<NameMap>,
}

impl View for Translator {
    type V = TransModel;

    closed spec fn view(&self) -> TransModel {
        TransModel {
            builder: self.builder@,
            functions: self.functions@,
            blocks: self.blocks@.map_values(|m: NameMap| m@),
            variables: self.variables@.map_values(|m: NameMap| m@),
        }
    }
}

/// Copy a list of identifiers, keeping names and positions.
#[verifier::loop_isolation(false)]
fn duplicate_identifiers(identifiers: &Vec<Identifier>) -> (r: Vec<Identifier>)
    ensures
        r@.map_values(|x: Identifier| x@) == identifiers@.map_values(|x: Identifier| x@),
{
    let mut out: Vec<Identifier> = Vec::new();
    let mut i: usize = 0;
    while i < identifiers.len()
        invariant
            i <= identifiers@.len(),
            out@.len() == i,
            forall|j: int| 0 <= j < i ==> #[trigger] out@[j]@ == identifiers@[j]@,
        decreases identifiers@.len() - i,
    {
        out.push(identifiers[i].duplicate());
        i += 1;
    }
    proof {
        assert(out@.map_values(|x: Identifier| x@) =~= identifiers@.map_values(
            |x: Identifier| x@,
        ));
    }
    out
}

impl Translator {
    /// Translate a whole parsed program. The first function is the entry
    /// function and must exist.
    #[verifier::rlimit(30)]
    #[verifier::loop_isolation(false)]
    pub fn translate(parsed_ssa: ParsedSsa) -> (r: Result<Ssa, SsaError>)
        requires
            parsed_ssa.functions@.len() >= 1,
        ensures
            match r {
                Ok(ssa) => sp_translate(parsed_ssa) == Ok::<SsaModel, ErrorModel>(ssa@),
                Err(e) => sp_translate(parsed_ssa) matches Err(em) && em == e@,
            },
    {
        let mut parsed_ssa = parsed_ssa;
        let ghost original = parsed_ssa;
        let mut translator = match Self::new(&mut parsed_ssa) {
            Ok(t) => t,
            Err(e) => {
                return Err(e);
            },
        };
        let ghost t_start = translator@;
        let ghost rest = parsed_ssa.functions@;
        let mut i: usize = 0;
        while i < parsed_ssa.functions.len()
            invariant
                twf(translator@),
                i <= rest.len(),
                parsed_ssa.functions@ == rest,
                rest == original.functions@.skip(1),
                sp_new(original) == Ok::<TransModel, ErrorModel>(t_start),
                translator@.functions == t_start.functions,
                t_start.functions == sp_function_table(rest, rest.len() as int),
                sp_translate_rest(t_start, rest, 0) == sp_translate_rest(translator@, rest, i as int),
            decreases rest.len() - i,
        {
            proof {
                lemma_function_table_coverage(rest, rest.len() as int, i as int);
            }
            let ghost before = translator@;
            match translator.translate_non_main_function(&parsed_ssa.functions[i]) {
                Ok(()) => {},
                Err(e) => {
                    return Err(e);
                },
            }
            proof {
                lemma_non_main_tables(before, parsed_ssa.functions@[i as int]);
            }
            i += 1;
        }
        Ok(translator.finish())
    }

    /// Initialise the translation: remove the entry function (it must be the
    /// first element), anchor the builder at its identity and runtime kind,
    /// register every remaining function by name under sequential handles,
    /// and translate the entry function's body.
    #[verifier::rlimit(30)]
    #[verifier::loop_isolation(false)]
    pub fn new(parsed_ssa: &mut ParsedSsa) -> (r: Result<Translator, SsaError>)
        requires
            old(parsed_ssa).functions@.len() >= 1,
        ensures
            final(parsed_ssa).functions@ == old(parsed_ssa).functions@.skip(1),
            match r {
                Ok(t) => sp_new(*old(parsed_ssa)) == Ok::<TransModel, ErrorModel>(t@) && twf(t@)
                    && t@.functions == sp_function_table(
                    old(parsed_ssa).functions@.skip(1),
                    old(parsed_ssa).functions@.len() - 1,
                ),
                Err(e) => sp_new(*old(parsed_ssa)) matches Err(em) && em == e@,
            },
    {
        let main_function = parsed_ssa.functions.remove(0);
        let main_id = FunctionId::new(0);
        let mut builder = FunctionBuilder::new(main_function.external_name.clone(), main_id);
        builder.set_runtime(main_function.runtime_type);
        proof {
            assert(old(parsed_ssa).functions@.remove(0) =~= old(parsed_ssa).functions@.skip(1));
        }

        let ghost rest = parsed_ssa.functions@;
        let mut functions = NameMap::new();
        let mut i: usize = 0;
        while i < parsed_ssa.functions.len()
            invariant
                i <= rest.len(),
                parsed_ssa.functions@ == rest,
                functions@ == sp_function_table(rest, i as int),
            decreases rest.len() - i,
        {
            let name = parsed_ssa.functions[i].internal_name.clone();
            functions.insert(name, i + 1);
            i += 1;
        }

        let mut blocks: Vec<NameMap> = Vec::new();
        let mut variables: Vec<NameMap> = Vec::new();
        blocks.push(NameMap::new());
        variables.push(NameMap::new());
        let mut translator = Translator { builder, functions, blocks, variables };
        proof {
            assert(translator@.blocks =~= seq![Map::<Seq<char>, usize>::empty()]);
            assert(translator@.variables =~= seq![Map::<Seq<char>, usize>::empty()]);
            assert(translator@ =~= (TransModel {
                builder: BuilderModel {
                    current_runtime: old(parsed_ssa).functions@[0].runtime_type,
                    ..bm_init(old(parsed_ssa).functions@[0].external_name@, FunctionId(0))
                },
                functions: sp_function_table(rest, rest.len() as int),
                blocks: seq![Map::empty()],
                variables: seq![Map::empty()],
            }));
        }
        let ghost before_body = translator@;
        match translator.translate_function_body(&main_function) {
            Ok(()) => {
                proof {
                    lemma_body_tables(before_body, main_function);
                }
                Ok(translator)
            },
            Err(e) => Err(e),
        }
    }

    /// Translate a non-entry function, whose name the initialisation pass
    /// has registered.
    #[verifier::rlimit(30)]
    pub fn translate_non_main_function(&mut self, function: &ParsedFunction) -> (r: Result<
        (),
        SsaError,
    >)
        requires
            twf(old(self)@),
            old(self)@.functions.contains_key(function.internal_name@),
        ensures
            match r {
                Ok(()) => sp_translate_non_main(old(self)@, *function) == Ok::<
                    TransModel,
                    ErrorModel,
                >(final(self)@) && twf(final(self)@),
                Err(e) => sp_translate_non_main(old(self)@, *function) matches Err(em) && em == e@,
            },
    {
        let function_id = FunctionId(self.functions.get(&function.internal_name).unwrap());
        let external_name = function.external_name.clone();

        match function.runtime_type {
            RuntimeType::Acir(inline_type) => {
                self.builder.new_function(external_name, function_id, inline_type);
            },
            RuntimeType::Brillig(inline_type) => {
                self.builder.new_brillig_function(external_name, function_id, inline_type);
            },
        }
        self.blocks.push(NameMap::new());
        self.variables.push(NameMap::new());
        proof {
            assert(self@.blocks =~= old(self)@.blocks.push(Map::empty()));
            assert(self@.variables =~= old(self)@.variables.push(Map::empty()));
        }

        self.translate_function_body(function)
    }

    /// Translate a function body in two passes: first register every block
    /// by name (so a jump to a block that comes later still resolves), then
    /// translate each block's content in order.
    #[verifier::rlimit(30)]
    #[verifier::loop_isolation(false)]
    pub fn translate_function_body(&mut self, function: &ParsedFunction) -> (r: Result<
        (),
        SsaError,
    >)
        requires
            twf(old(self)@),
            fresh_function(old(self)@.builder),
        ensures
            match r {
                Ok(()) => sp_translate_function_body(old(self)@, *function) == Ok::<
                    TransModel,
                    ErrorModel,
                >(final(self)@) && twf(final(self)@),
                Err(e) => sp_translate_function_body(old(self)@, *function) matches Err(em) && em
                    == e@,
            },
    {
        let ghost t0 = self@;
        let mut index: usize = 0;
        while index < function.blocks.len()
            invariant
                twf(self@),
                index <= function.blocks@.len(),
                sp_register_blocks(t0, function.blocks, 0) == sp_register_blocks(
                    self@,
                    function.blocks,
                    index as int,
                ),
                self@.builder.declared_blocks == if index == 0 {
                    1int
                } else {
                    index as int
                },
            decreases function.blocks@.len() - index,
        {
            let ghost before = self@;
            let block_id = if index == 0 {
                self.builder.entry_block()
            } else {
                self.builder.insert_block()
            };
            let mut current = self.blocks.pop().unwrap();
            current.insert(function.blocks[index].name.clone(), block_id.0);
            self.blocks.push(current);
            proof {
                let c = before.blocks.len() - 1;
                assert(self@.blocks =~= before.blocks.update(
                    c,
                    before.blocks[c].insert(function.blocks@[index as int].name@, block_id.0),
                ));
            }
            index += 1;
        }

        let ghost t1 = self@;
        proof {
            lemma_register_blocks(t0, function.blocks, 0);
            assert(sp_register_blocks(self@, function.blocks, function.blocks@.len() as int)
                == self@);
        }
        let mut index: usize = 0;
        while index < function.blocks.len()
            invariant
                twf(self@),
                index <= function.blocks@.len(),
                t1 == sp_register_blocks(t0, function.blocks, 0),
                t0.blocks.len() == t1.blocks.len(),
                self@.blocks == t1.blocks,
                sp_translate_blocks(t1, function.blocks, 0) == sp_translate_blocks(
                    self@,
                    function.blocks,
                    index as int,
                ),
            decreases function.blocks@.len() - index,
        {
            proof {
                lemma_register_blocks(t0, function.blocks, 0);
            }
            let ghost before = self@;
            match self.translate_block(&function.blocks[index]) {
                Ok(()) => {},
                Err(e) => {
                    return Err(e);
                },
            }
            proof {
                lemma_block_tables(before, function.blocks@[index as int]);
            }
            index += 1;
        }
        Ok(())
    }

    /// Translate one block's content. The block must have been registered by
    /// the pre-registration pass.
    #[verifier::rlimit(30)]
    #[verifier::loop_isolation(false)]
    pub fn translate_block(&mut self, block: &ParsedBlock) -> (r: Result<(), SsaError>)
        requires
            twf(old(self)@),
            old(self)@.blocks[old(self)@.blocks.len() - 1].contains_key(block.name@),
        ensures
            match r {
                Ok(()) => sp_translate_block(old(self)@, *block) == Ok::<TransModel, ErrorModel>(
                    final(self)@,
                ) && twf(final(self)@),
                Err(e) => sp_translate_block(old(self)@, *block) matches Err(em) && em == e@,
            },
    {
        let index = self.blocks.len() - 1;
        let block_id = BasicBlockId(self.blocks[index].get(&block.name).unwrap());
        self.builder.switch_to_block(block_id);

        let ghost t0 = self@;
        let mut i: usize = 0;
        while i < block.parameters.len()
            invariant
                twf(self@),
                i <= block.parameters@.len(),
                sp_define_parameters(t0, block.parameters, block_id, 0) == sp_define_parameters(
                    self@,
                    block.parameters,
                    block_id,
                    i as int,
                ),
            decreases block.parameters@.len() - i,
        {
            let parameter = &block.parameters[i];
            let parameter_value_id = self.builder.add_block_parameter(
                block_id,
                parameter.typ.duplicate(),
            );
            match self.define_variable(parameter.identifier.duplicate(), parameter_value_id) {
                Ok(()) => {},
                Err(e) => {
                    return Err(e);
                },
            }
            i += 1;
        }

        let ghost t1 = self@;
        let mut i: usize = 0;
        while i < block.instructions.len()
            invariant
                twf(self@),
                i <= block.instructions@.len(),
                sp_define_parameters(t0, block.parameters, block_id, 0) == Ok::<
                    TransModel,
                    ErrorModel,
                >(t1),
                sp_translate_instructions(t1, block.instructions, 0) == sp_translate_instructions(
                    self@,
                    block.instructions,
                    i as int,
                ),
            decreases block.instructions@.len() - i,
        {
            match self.translate_instruction(&block.instructions[i]) {
                Ok(()) => {},
                Err(e) => {
                    return Err(e);
                },
            }
            i += 1;
        }

        match &block.terminator {
            ParsedTerminator::Jmp { destination, arguments } => {
                let destination_id = match self.lookup_block(destination.duplicate()) {
                    Ok(b) => b,
                    Err(e) => {
                        return Err(e);
                    },
                };
                let argument_ids = match self.translate_values(arguments) {
                    Ok(v) => v,
                    Err(e) => {
                        return Err(e);
                    },
                };
                self.builder.terminate_with_jmp(destination_id, argument_ids);
            },
            ParsedTerminator::Jmpif { condition, then_block, else_block } => {
                let condition_id = match self.translate_value(condition) {
                    Ok(v) => v,
                    Err(e) => {
                        return Err(e);
                    },
                };
                let then_destination = match self.lookup_block(then_block.duplicate()) {
                    Ok(b) => b,
                    Err(e) => {
                        return Err(e);
                    },
                };
                let else_destination = match self.lookup_block(else_block.duplicate()) {
                    Ok(b) => b,
                    Err(e) => {
                        return Err(e);
                    },
                };
                self.builder.terminate_with_jmpif(
                    condition_id,
                    then_destination,
                    else_destination,
                );
            },
            ParsedTerminator::Return(values) => {
                let return_values = match self.translate_values(values) {
                    Ok(v) => v,
                    Err(e) => {
                        return Err(e);
                    },
                };
                self.builder.terminate_with_return(return_values);
            },
        }
        Ok(())
    }

    /// Translate one instruction, as the dispatch table of the design says.
    #[verifier::rlimit(30)]
    #[verifier::loop_isolation(false)]
    pub fn translate_instruction(&mut self, instruction: &ParsedInstruction) -> (r: Result<
        (),
        SsaError,
    >)
        requires
            twf(old(self)@),
        ensures
            match r {
                Ok(()) => sp_translate_instruction(old(self)@, *instruction) == Ok::<
                    TransModel,
                    ErrorModel,
                >(final(self)@) && twf(final(self)@),
                Err(e) => sp_translate_instruction(old(self)@, *instruction) matches Err(em) && em
                    == e@,
            },
    {
        proof {
            reveal(sp_translate_instruction);
        }
        match instruction {
            ParsedInstruction::Allocate { target, typ } => {
                let value_id = self.builder.insert_allocate(typ.duplicate());
                self.define_variable(target.duplicate(), value_id)
            },
            ParsedInstruction::ArrayGet { target, element_type, array, index } => {
                let array_id = match self.translate_value(array) {
                    Ok(v) => v,
                    Err(e) => {
                        return Err(e);
                    },
                };
                let index_id = match self.translate_value(index) {
                    Ok(v) => v,
                    Err(e) => {
                        return Err(e);
                    },
                };
                let value_id = self.builder.insert_array_get(
                    array_id,
                    index_id,
                    element_type.duplicate(),
                );
                self.define_variable(target.duplicate(), value_id)
            },
            ParsedInstruction::ArraySet { target, array, index, value, mutable } => {
                let array_id = match self.translate_value(array) {
                    Ok(v) => v,
                    Err(e) => {
                        return Err(e);
                    },
                };
                let index_id = match self.translate_value(index) {
                    Ok(v) => v,
                    Err(e) => {
                        return Err(e);
                    },
                };
                let value_id = match self.translate_value(value) {
                    Ok(v) => v,
                    Err(e) => {
                        return Err(e);
                    },
                };
                let result_id = if *mutable {
                    self.builder.insert_mutable_array_set(array_id, index_id, value_id)
                } else {
                    self.builder.insert_array_set(array_id, index_id, value_id)
                };
                self.define_variable(target.duplicate(), result_id)
            },
            ParsedInstruction::BinaryOp { target, lhs, op, rhs } => {
                let lhs_id = match self.translate_value(lhs) {
                    Ok(v) => v,
                    Err(e) => {
                        return Err(e);
                    },
                };
                let rhs_id = match self.translate_value(rhs) {
                    Ok(v) => v,
                    Err(e) => {
                        return Err(e);
                    },
                };
                let value_id = self.builder.insert_binary(lhs_id, *op, rhs_id);
                self.define_variable(target.duplicate(), value_id)
            },
            ParsedInstruction::Call { targets, function, arguments, types } => {
                let function_value = match self.builder.import_intrinsic(&function.name) {
                    Some(id) => id,
                    None => {
                        let function_id = match self.lookup_function(function.duplicate()) {
                            Ok(f) => f,
                            Err(e) => {
                                return Err(e);
                            },
                        };
                        self.builder.import_function(function_id)
                    },
                };

                let argument_ids = match self.translate_values(arguments) {
                    Ok(v) => v,
                    Err(e) => {
                        return Err(e);
                    },
                };

                let value_ids = self.builder.insert_call(function_value, argument_ids, types);

                if value_ids.len() != targets.len() {
                    return Err(
                        SsaError::MismatchedReturnValues {
                            targets: duplicate_identifiers(targets),
                            expected: value_ids.len(),
                        },
                    );
                }

                let ghost t3 = self@;
                let mut k: usize = 0;
                while k < targets.len()
                    invariant
                        twf(self@),
                        k <= targets@.len(),
                        targets@.len() == value_ids@.len(),
                        sp_define_targets(t3, *targets, value_ids@, 0) == sp_define_targets(
                            self@,
                            *targets,
                            value_ids@,
                            k as int,
                        ),
                    decreases targets@.len() - k,
                {
                    match self.define_variable(targets[k].duplicate(), value_ids[k]) {
                        Ok(()) => {},
                        Err(e) => {
                            return Err(e);
                        },
                    }
                    k += 1;
                }
                Ok(())
            },
            ParsedInstruction::Cast { target, lhs, typ } => {
                let lhs_id = match self.translate_value(lhs) {
                    Ok(v) => v,
                    Err(e) => {
                        return Err(e);
                    },
                };
                let value_id = self.builder.insert_cast(lhs_id, typ.duplicate());
                self.define_variable(target.duplicate(), value_id)
            },
            ParsedInstruction::Constrain { lhs, rhs } => {
                let lhs_id = match self.translate_value(lhs) {
                    Ok(v) => v,
                    Err(e) => {
                        return Err(e);
                    },
                };
                let rhs_id = match self.translate_value(rhs) {
                    Ok(v) => v,
                    Err(e) => {
                        return Err(e);
                    },
                };
                self.builder.insert_constrain(lhs_id, rhs_id);
                Ok(())
            },
            ParsedInstruction::DecrementRc { value } => {
                let value_id = match self.translate_value(value) {
                    Ok(v) => v,
                    Err(e) => {
                        return Err(e);
                    },
                };
                self.builder.decrement_array_reference_count(value_id);
                Ok(())
            },
            ParsedInstruction::EnableSideEffectsIf { condition } => {
                let condition_id = match self.translate_value(condition) {
                    Ok(v) => v,
                    Err(e) => {
                        return Err(e);
                    },
                };
                self.builder.insert_enable_side_effects_if(condition_id);
                Ok(())
            },
            ParsedInstruction::IncrementRc { value } => {
                let value_id = match self.translate_value(value) {
                    Ok(v) => v,
                    Err(e) => {
                        return Err(e);
                    },
                };
                self.builder.increment_array_reference_count(value_id);
                Ok(())
            },
            ParsedInstruction::Load { target, value, typ } => {
                let value_id = match self.translate_value(value) {
                    Ok(v) => v,
                    Err(e) => {
                        return Err(e);
                    },
                };
                let loaded = self.builder.insert_load(value_id, typ.duplicate());
                self.define_variable(target.duplicate(), loaded)
            },
            ParsedInstruction::Not { target, value } => {
                let value_id = match self.translate_value(value) {
                    Ok(v) => v,
                    Err(e) => {
                        return Err(e);
                    },
                };
                let result_id = self.builder.insert_not(value_id);
                self.define_variable(target.duplicate(), result_id)
            },
            ParsedInstruction::RangeCheck { value, max_bit_size } => {
                let value_id = match self.translate_value(value) {
                    Ok(v) => v,
                    Err(e) => {
                        return Err(e);
                    },
                };
                self.builder.insert_range_check(value_id, *max_bit_size);
                Ok(())
            },
            ParsedInstruction::Store { value, address } => {
                let value_id = match self.translate_value(value) {
                    Ok(v) => v,
                    Err(e) => {
                        return Err(e);
                    },
                };
                let address_id = match self.translate_value(address) {
                    Ok(v) => v,
                    Err(e) => {
                        return Err(e);
                    },
                };
                self.builder.insert_store(address_id, value_id);
                Ok(())
            },
            ParsedInstruction::Truncate { target, value, bit_size, max_bit_size } => {
                let value_id = match self.translate_value(value) {
                    Ok(v) => v,
                    Err(e) => {
                        return Err(e);
                    },
                };
                let result_id = self.builder.insert_truncate(value_id, *bit_size, *max_bit_size);
                self.define_variable(target.duplicate(), result_id)
            },
        }
    }

    /// Translate a list of values one after another, keeping their order and
    /// stopping at the first failure.
    #[verifier::rlimit(30)]
    #[verifier::loop_isolation(false)]
    pub fn translate_values(&mut self, values: &Vec<ParsedValue>) -> (r: Result<
        Vec<ValueId>,
        SsaError,
    >)
        requires
            twf(old(self)@),
        ensures
            match r {
                Ok(ids) => sp_translate_values(old(self)@, *values, 0) == Ok::<
                    (TransModel, Seq<ValueId>),
                    ErrorModel,
                >((final(self)@, ids@)) && twf(final(self)@),
                Err(e) => sp_translate_values(old(self)@, *values, 0) matches Err(em) && em == e@,
            },
    {
        let ghost t0 = self@;
        let mut translated_values: Vec<ValueId> = Vec::new();
        let mut i: usize = 0;
        proof {
            match sp_translate_values(t0, *values, 0) {
                Ok(p) => {
                    assert(Seq::<ValueId>::empty() + p.1 =~= p.1);
                },
                Err(_) => {},
            }
        }
        while i < values.len()
            invariant
                twf(self@),
                i <= values@.len(),
                sp_translate_values(t0, *values, 0) == (match sp_translate_values(
                    self@,
                    *values,
                    i as int,
                ) {
                    Ok(p) => Ok::<(TransModel, Seq<ValueId>), ErrorModel>(
                        (p.0, translated_values@ + p.1),
                    ),
                    Err(e) => Err(e),
                }),
            decreases values@.len() - i,
        {
            let ghost before = self@;
            let ghost done = translated_values@;
            let value_id = match self.translate_value(&values[i]) {
                Ok(v) => v,
                Err(e) => {
                    return Err(e);
                },
            };
            translated_values.push(value_id);
            proof {
                match sp_translate_values(self@, *values, i + 1) {
                    Ok(p) => {
                        assert(done + (seq![value_id] + p.1) =~= (done.push(value_id)) + p.1);
                    },
                    Err(_) => {},
                }
            }
            i += 1;
        }
        proof {
            match sp_translate_values(self@, *values, values@.len() as int) {
                Ok(p) => {
                    assert(translated_values@ + p.1 =~= translated_values@);
                },
                Err(_) => {},
            }
        }
        Ok(translated_values)
    }

    /// Translate one value reference: an inline constant is interned, an
    /// array literal is translated element by element and interned as one
    /// array constant, a variable is resolved.
    #[verifier::rlimit(30)]
    #[verifier::loop_isolation(false)]
    pub fn translate_value(&mut self, value: &ParsedValue) -> (r: Result<ValueId, SsaError>)
        requires
            twf(old(self)@),
        ensures
            match r {
                Ok(v) => sp_translate_value(old(self)@, *value) == Ok::<
                    (TransModel, ValueId),
                    ErrorModel,
                >((final(self)@, v)) && twf(final(self)@),
                Err(e) => sp_translate_value(old(self)@, *value) matches Err(em) && em == e@,
            },
        decreases value,
    {
        match value {
            ParsedValue::NumericConstant { constant, typ } => Ok(
                self.builder.numeric_constant(*constant, typ.duplicate()),
            ),
            ParsedValue::Array { values, typ } => {
                let ghost t0 = self@;
                let mut translated = vector_new();
                let mut i: usize = 0;
                proof {
                    match sp_translate_values(t0, *values, 0) {
                        Ok(p) => {
                            assert(Seq::<ValueId>::empty() + p.1 =~= p.1);
                        },
                        Err(_) => {},
                    }
                    assert(vector_elems(translated).map_values(|u: usize| ValueId(u)) =~= Seq::<
                        ValueId,
                    >::empty());
                }
                while i < values.len()
                    invariant
                        twf(self@),
                        i <= values@.len(),
                        sp_translate_values(t0, *values, 0) == (match sp_translate_values(
                            self@,
                            *values,
                            i as int,
                        ) {
                            Ok(p) => Ok::<(TransModel, Seq<ValueId>), ErrorModel>(
                                (
                                    p.0,
                                    vector_elems(translated).map_values(|u: usize| ValueId(u))
                                        + p.1,
                                ),
                            ),
                            Err(e) => Err(e),
                        }),
                    decreases values@.len() - i,
                {
                    let ghost done = vector_elems(translated).map_values(|u: usize| ValueId(u));
                    proof {
                        let ghost owned: ParsedValue = *value;
                        match owned {
                            ParsedValue::Array { values: elements, .. } => {
                                assert(decreases_to!(owned => elements));
                                assert(decreases_to!(elements => elements@));
                                assert(decreases_to!(elements@ => elements@[i as int]));
                            },
                            _ => {},
                        }
                    }
                    let value_id = match self.translate_value(&values[i]) {
                        Ok(v) => v,
                        Err(e) => {
                            return Err(e);
                        },
                    };
                    vector_push_back(&mut translated, value_id.0);
                    proof {
                        assert(vector_elems(translated).map_values(|u: usize| ValueId(u)) =~= done
                            .push(value_id));
                        match sp_translate_values(self@, *values, i + 1) {
                            Ok(p) => {
                                assert(done + (seq![value_id] + p.1) =~= (done.push(value_id))
                                    + p.1);
                            },
                            Err(_) => {},
                        }
                    }
                    i += 1;
                }
                proof {
                    match sp_translate_values(self@, *values, values@.len() as int) {
                        Ok(p) => {
                            let done = vector_elems(translated).map_values(|u: usize| ValueId(u));
                            assert(done + p.1 =~= done);
                        },
                        Err(_) => {},
                    }
                }
                Ok(self.builder.array_constant(translated, typ.duplicate()))
            },
            ParsedValue::Variable(identifier) => self.lookup_variable(identifier.duplicate()),
        }
    }

    /// Bind a name to a handle in the current function; a name already bound
    /// is the single-assignment violation.
    pub fn define_variable(&mut self, identifier: Identifier, value_id: ValueId) -> (r: Result<
        (),
        SsaError,
    >)
        requires
            twf(old(self)@),
        ensures
            match r {
                Ok(()) => sp_define_variable(old(self)@, identifier@, value_id) == Ok::<
                    TransModel,
                    ErrorModel,
                >(final(self)@) && twf(final(self)@),
                Err(e) => sp_define_variable(old(self)@, identifier@, value_id) matches Err(em)
                    && em == e@ && final(self)@ == old(self)@,
            },
    {
        let index = self.variables.len() - 1;
        if self.variables[index].contains_key(&identifier.name) {
            return Err(SsaError::VariableAlreadyDefined(identifier));
        }

        let mut current = self.variables.pop().unwrap();
        current.insert(identifier.name, value_id.0);
        self.variables.push(current);
        proof {
            assert(self@.variables =~= old(self)@.variables.update(
                index as int,
                old(self)@.variables[index as int].insert(identifier@.name, value_id.0),
            ));
        }
        Ok(())
    }

    /// Resolve a variable of the current function.
    pub fn lookup_variable(&self, identifier: Identifier) -> (r: Result<ValueId, SsaError>)
        requires
            twf(self@),
        ensures
            match r {
                Ok(v) => sp_lookup_variable(self@, identifier@) == Ok::<ValueId, ErrorModel>(v),
                Err(e) => sp_lookup_variable(self@, identifier@) matches Err(em) && em == e@,
            },
    {
        let index = self.variables.len() - 1;
        match self.variables[index].get(&identifier.name) {
            Some(value_id) => Ok(ValueId(value_id)),
            None => Err(SsaError::UnknownVariable(identifier)),
        }
    }

    /// Resolve a block of the current function.
    pub fn lookup_block(&self, identifier: Identifier) -> (r: Result<BasicBlockId, SsaError>)
        requires
            twf(self@),
        ensures
            match r {
                Ok(b) => sp_lookup_block(self@, identifier@) == Ok::<BasicBlockId, ErrorModel>(b),
                Err(e) => sp_lookup_block(self@, identifier@) matches Err(em) && em == e@,
            },
    {
        let index = self.blocks.len() - 1;
        match self.blocks[index].get(&identifier.name) {
            Some(block_id) => Ok(BasicBlockId(block_id)),
            None => Err(SsaError::UnknownBlock(identifier)),
        }
    }

    /// Resolve a function by its internal name.
    pub fn lookup_function(&self, identifier: Identifier) -> (r: Result<FunctionId, SsaError>)
        ensures
            match r {
                Ok(f) => sp_lookup_function(self@, identifier@) == Ok::<FunctionId, ErrorModel>(f),
                Err(e) => sp_lookup_function(self@, identifier@) matches Err(em) && em == e@,
            },
    {
        match self.functions.get(&identifier.name) {
            Some(function_id) => Ok(FunctionId(function_id)),
            None => Err(SsaError::UnknownFunction(identifier)),
        }
    }

    /// Seal the accumulated structure into the finished program.
    pub fn finish(self) -> (r: Ssa)
        ensures
            r@ == bm_finish(self@.builder),
    {
        self.builder.finish()
    }

    /// The identity of the function under construction.
    pub fn current_function_id(&self) -> (r: FunctionId)
        ensures
            r == self@.builder.current_id,
    {
        self.builder.current_function_id()
    }
}

impl ParsedSsa {
    /// Turn the parsed textual form into the constructed program; the first
    /// function is the entry function and must exist.
    pub fn into_ssa(self) -> (r: Result<Ssa, SsaError>)
        requires
            self.functions@.len() >= 1,
        ensures
            match r {
                Ok(ssa) => sp_translate(self) == Ok::<SsaModel, ErrorModel>(ssa@),
                Err(e) => sp_translate(self) matches Err(em) && em == e@,
            },
    {
        Translator::translate(self)
    }
}

} // verus!
