//! Laws of the translator, each proved against the specification functions
//! that the executable operations are verified against.

use vstd::prelude::*;

use crate::builder::{bm_fresh_value, spec_intrinsic_of};
use crate::ir::ValueRecord;
use crate::translator::{sp_define_variable, sp_lookup_block, sp_lookup_function,
    sp_lookup_variable, sp_register_blocks, sp_translate_instruction, sp_translate_values, twf,
    with_builder, TransModel};
use crate::types::{ErrorModel, IdentModel, Identifier, ParsedBlock, ParsedInstruction,
    ParsedValue, Type, ValueId};

verus! {

/// Single assignment: binding a name that the current function already binds
/// fails with `VariableAlreadyDefined` naming that identifier, whatever
/// handle was to be bound. Every instruction kind and every block parameter
/// binds its targets through this one operation.
pub proof fn lemma_single_assignment(t: TransModel, id: IdentModel, value: ValueId)
    requires
        twf(t),
        t.variables[t.variables.len() - 1].contains_key(id.name),
    ensures
        sp_define_variable(t, id, value) == Err::<TransModel, ErrorModel>(
            ErrorModel::VariableAlreadyDefined(id),
        ),
{
}

/// Unknown variable: a value reference to a name with no binding in the
/// current function fails with `UnknownVariable` naming that identifier.
pub proof fn lemma_unknown_variable(t: TransModel, id: IdentModel)
    requires
        twf(t),
        !t.variables[t.variables.len() - 1].contains_key(id.name),
    ensures
        sp_lookup_variable(t, id) == Err::<ValueId, ErrorModel>(ErrorModel::UnknownVariable(id)),
{
}

/// Unknown block: a jump or branch to a name the pre-registration pass never
/// recorded fails with `UnknownBlock` naming that identifier.
pub proof fn lemma_unknown_block(t: TransModel, id: IdentModel)
    requires
        twf(t),
        !t.blocks[t.blocks.len() - 1].contains_key(id.name),
    ensures
        sp_lookup_block(t, id) matches Err(e) && e == ErrorModel::UnknownBlock(id),
{
}

/// Unknown function: a call to a name that was never registered fails with
/// `UnknownFunction` naming that identifier.
pub proof fn lemma_unknown_function(t: TransModel, id: IdentModel)
    requires
        !t.functions.contains_key(id.name),
    ensures
        sp_lookup_function(t, id) matches Err(e) && e == ErrorModel::UnknownFunction(id),
{
}

/// Forward reference: after the block pre-registration pass, every declared
/// block of the function resolves — also one declared later than the block
/// whose terminator names it.
pub proof fn lemma_forward_reference(t: TransModel, blocks: Vec<ParsedBlock>, j: int, id: IdentModel)
    requires
        twf(t),
        0 <= j < blocks@.len(),
        id.name == blocks[j].name@,
    ensures
        sp_lookup_block(sp_register_blocks(t, blocks, 0), id) matches Ok(_),
{
    crate::translator::lemma_register_blocks(t, blocks, 0);
}

/// Call arity: a call whose callee resolves and whose arguments translate,
/// but which declares a target count different from its declared result
/// count, fails with `MismatchedReturnValues` carrying the declared targets
/// and the actual result count.
pub proof fn lemma_call_arity(
    t: TransModel,
    targets: Vec<Identifier>,
    function: Identifier,
    arguments: Vec<ParsedValue>,
    types: Vec<Type>,
)
    requires
        twf(t),
        ({
            let callee = match spec_intrinsic_of(function.name@) {
                Some(which) => Ok(bm_fresh_value(t.builder, ValueRecord::IntrinsicOp { which })),
                None => match sp_lookup_function(t, function@) {
                    Ok(fid) => Ok(
                        bm_fresh_value(t.builder, ValueRecord::FunctionRef { function: fid }),
                    ),
                    Err(e) => Err(e),
                },
            };
            callee matches Ok(pc) && sp_translate_values(
                with_builder(t, pc.0),
                arguments,
                0,
            ) matches Ok(_)
        }),
        targets@.len() != types@.len(),
    ensures
        sp_translate_instruction(
            t,
            ParsedInstruction::Call { targets, function, arguments, types },
        ) == Err::<TransModel, ErrorModel>(
            ErrorModel::MismatchedReturnValues {
                targets: targets@.map_values(|x: Identifier| x@),
                expected: types@.len() as int,
            },
        ),
{
    reveal(sp_translate_instruction);
}

} // verus!
