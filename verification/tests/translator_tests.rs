use ssa_translator::ir::{Instruction, Ssa, Terminator, ValueRecord};
use ssa_translator::types::{
    BasicBlockId, BinaryOpKind, FunctionId, Identifier, InlineType, Intrinsic, ParsedBlock,
    ParsedFunction, ParsedInstruction, ParsedSsa, ParsedTerminator, ParsedValue, RuntimeType,
    Span, SsaError, Type, ValueId,
};

fn ident(name: &str) -> Identifier {
    Identifier::new(name.to_string(), Span { start: 0, end: 0 })
}

fn num(constant: u64) -> ParsedValue {
    ParsedValue::NumericConstant { constant, typ: Type::Field }
}

fn var(name: &str) -> ParsedValue {
    ParsedValue::Variable(ident(name))
}

fn block(name: &str, instructions: Vec<ParsedInstruction>, terminator: ParsedTerminator) -> ParsedBlock {
    ParsedBlock { name: name.to_string(), parameters: Vec::new(), instructions, terminator }
}

fn single_function_program(blocks: Vec<ParsedBlock>) -> ParsedSsa {
    ParsedSsa {
        functions: vec![ParsedFunction {
            external_name: "main".to_string(),
            internal_name: "main".to_string(),
            runtime_type: RuntimeType::Acir(InlineType::Inline),
            blocks,
        }],
    }
}

fn list<'a>(ssa: &'a Ssa, instruction_field: ssa_translator::types::ValueListId) -> &'a Vec<ValueId> {
    &ssa.value_lists[instruction_field.0]
}

#[test]
fn translates_empty_main() {
    let program = single_function_program(vec![block("b0", vec![], ParsedTerminator::Return(vec![]))]);
    let ssa = program.into_ssa().unwrap();
    assert_eq!(ssa.functions.len(), 1);
    assert_eq!(ssa.functions[0].id, FunctionId(0));
    assert_eq!(ssa.functions[0].external_name, "main");
    assert_eq!(ssa.functions[0].blocks.len(), 1);
    assert!(matches!(ssa.functions[0].blocks[0].terminator, Some(Terminator::Return { .. })));
}

#[test]
fn single_assignment_rejected() {
    // Two instructions declaring the same target name fail on the second.
    let program = single_function_program(vec![block(
        "b0",
        vec![
            ParsedInstruction::Allocate { target: ident("v1"), typ: Type::Field },
            ParsedInstruction::Not { target: ident("v1"), value: num(1) },
        ],
        ParsedTerminator::Return(vec![]),
    )]);
    match program.into_ssa() {
        Err(SsaError::VariableAlreadyDefined(id)) => assert_eq!(id.name, "v1"),
        other => panic!("expected VariableAlreadyDefined, got {:?}", other),
    }
}

#[test]
fn duplicate_parameter_rejected() {
    // A block declaring two parameters of the same name fails on the second.
    let program = single_function_program(vec![ParsedBlock {
        name: "b0".to_string(),
        parameters: vec![
            ssa_translator::types::ParsedParameter { identifier: ident("x"), typ: Type::Field },
            ssa_translator::types::ParsedParameter { identifier: ident("x"), typ: Type::Field },
        ],
        instructions: vec![],
        terminator: ParsedTerminator::Return(vec![]),
    }]);
    match program.into_ssa() {
        Err(SsaError::VariableAlreadyDefined(id)) => assert_eq!(id.name, "x"),
        other => panic!("expected VariableAlreadyDefined, got {:?}", other),
    }
}

#[test]
fn forward_jump_resolves() {
    // The terminator of b0 jumps to b1, declared later: two-pass registration.
    let program = single_function_program(vec![
        block(
            "b0",
            vec![],
            ParsedTerminator::Jmp { destination: ident("b1"), arguments: vec![] },
        ),
        block("b1", vec![], ParsedTerminator::Return(vec![])),
    ]);
    let ssa = program.into_ssa().unwrap();
    assert_eq!(ssa.functions[0].blocks.len(), 2);
    match &ssa.functions[0].blocks[0].terminator {
        Some(Terminator::Jmp { destination, .. }) => assert_eq!(*destination, BasicBlockId(1)),
        other => panic!("expected jump, got {:?}", other),
    }
}

#[test]
fn conditional_branch_resolves_both_arms() {
    let program = single_function_program(vec![
        block(
            "b0",
            vec![],
            ParsedTerminator::Jmpif {
                condition: num(1),
                then_block: ident("b2"),
                else_block: ident("b1"),
            },
        ),
        block("b1", vec![], ParsedTerminator::Return(vec![])),
        block("b2", vec![], ParsedTerminator::Return(vec![])),
    ]);
    let ssa = program.into_ssa().unwrap();
    assert_eq!(ssa.functions[0].blocks.len(), 3);
    match &ssa.functions[0].blocks[0].terminator {
        Some(Terminator::JmpIf { then_destination, else_destination, .. }) => {
            assert_eq!(*then_destination, BasicBlockId(2));
            assert_eq!(*else_destination, BasicBlockId(1));
        },
        other => panic!("expected branch, got {:?}", other),
    }
}

#[test]
fn call_arity_mismatch_rejected() {
    // Two targets against one declared result type.
    let program = single_function_program(vec![block(
        "b0",
        vec![ParsedInstruction::Call {
            targets: vec![ident("a"), ident("b")],
            function: ident("array_len"),
            arguments: vec![num(1)],
            types: vec![Type::Field],
        }],
        ParsedTerminator::Return(vec![]),
    )]);
    match program.into_ssa() {
        Err(SsaError::MismatchedReturnValues { targets, expected }) => {
            assert_eq!(expected, 1);
            assert_eq!(targets.len(), 2);
            assert_eq!(targets[0].name, "a");
        },
        other => panic!("expected MismatchedReturnValues, got {:?}", other),
    }
}

#[test]
fn unknown_variable_rejected() {
    let program = single_function_program(vec![block(
        "b0",
        vec![],
        ParsedTerminator::Return(vec![var("nope")]),
    )]);
    match program.into_ssa() {
        Err(SsaError::UnknownVariable(id)) => assert_eq!(id.name, "nope"),
        other => panic!("expected UnknownVariable, got {:?}", other),
    }
}

#[test]
fn unknown_block_rejected() {
    let program = single_function_program(vec![block(
        "b0",
        vec![],
        ParsedTerminator::Jmp { destination: ident("nowhere"), arguments: vec![] },
    )]);
    match program.into_ssa() {
        Err(SsaError::UnknownBlock(id)) => assert_eq!(id.name, "nowhere"),
        other => panic!("expected UnknownBlock, got {:?}", other),
    }
}

#[test]
fn unknown_function_rejected() {
    let program = single_function_program(vec![block(
        "b0",
        vec![ParsedInstruction::Call {
            targets: vec![ident("a")],
            function: ident("missing"),
            arguments: vec![],
            types: vec![Type::Field],
        }],
        ParsedTerminator::Return(vec![]),
    )]);
    match program.into_ssa() {
        Err(SsaError::UnknownFunction(id)) => assert_eq!(id.name, "missing"),
        other => panic!("expected UnknownFunction, got {:?}", other),
    }
}

#[test]
fn nested_array_literal_flattens_in_preorder() {
    // [[1, 2], [3]] becomes one array constant whose structure matches a
    // pre-order walk of the literal.
    let literal = ParsedValue::Array {
        values: vec![
            ParsedValue::Array { values: vec![num(1), num(2)], typ: Type::Field },
            ParsedValue::Array { values: vec![num(3)], typ: Type::Field },
        ],
        typ: Type::Array(Box::new(Type::Field), 2),
    };
    let program = single_function_program(vec![block(
        "b0",
        vec![],
        ParsedTerminator::Return(vec![literal]),
    )]);
    let ssa = program.into_ssa().unwrap();
    // Pre-order, fresh handles: 0 and 1 are the constants 1 and 2, handle 2
    // the first inner array, 3 the constant 3, 4 the second inner array, 5
    // the outer array.
    assert_eq!(ssa.values[0], ValueRecord::NumericConstant { constant: 1, typ: Type::Field });
    assert_eq!(ssa.values[1], ValueRecord::NumericConstant { constant: 2, typ: Type::Field });
    match &ssa.values[2] {
        ValueRecord::ArrayConstant { elements, .. } => {
            assert_eq!(list(&ssa, *elements), &vec![ValueId(0), ValueId(1)]);
        },
        other => panic!("expected array constant, got {:?}", other),
    }
    assert_eq!(ssa.values[3], ValueRecord::NumericConstant { constant: 3, typ: Type::Field });
    match &ssa.values[4] {
        ValueRecord::ArrayConstant { elements, .. } => {
            assert_eq!(list(&ssa, *elements), &vec![ValueId(3)]);
        },
        other => panic!("expected array constant, got {:?}", other),
    }
    match &ssa.values[5] {
        ValueRecord::ArrayConstant { elements, .. } => {
            assert_eq!(list(&ssa, *elements), &vec![ValueId(2), ValueId(4)]);
        },
        other => panic!("expected array constant, got {:?}", other),
    }
}

#[test]
fn two_function_program_with_call() {
    // main calls double; double computes x + x and returns it; main binds the
    // call's single result and returns it.
    let main_function = ParsedFunction {
        external_name: "main".to_string(),
        internal_name: "main".to_string(),
        runtime_type: RuntimeType::Acir(InlineType::Inline),
        blocks: vec![block(
            "b0",
            vec![ParsedInstruction::Call {
                targets: vec![ident("v0")],
                function: ident("double"),
                arguments: vec![num(21)],
                types: vec![Type::Field],
            }],
            ParsedTerminator::Return(vec![var("v0")]),
        )],
    };
    let double_function = ParsedFunction {
        external_name: "double".to_string(),
        internal_name: "double".to_string(),
        runtime_type: RuntimeType::Brillig(InlineType::InlineAlways),
        blocks: vec![ParsedBlock {
            name: "b0".to_string(),
            parameters: vec![ssa_translator::types::ParsedParameter {
                identifier: ident("x"),
                typ: Type::Field,
            }],
            instructions: vec![ParsedInstruction::BinaryOp {
                target: ident("v1"),
                lhs: var("x"),
                op: BinaryOpKind::Add,
                rhs: var("x"),
            }],
            terminator: ParsedTerminator::Return(vec![var("v1")]),
        }],
    };
    let program = ParsedSsa { functions: vec![main_function, double_function] };
    let ssa = program.into_ssa().unwrap();

    assert_eq!(ssa.functions.len(), 2);
    assert_eq!(ssa.functions[0].id, FunctionId(0));
    assert_eq!(ssa.functions[1].id, FunctionId(1));
    assert_eq!(ssa.functions[1].external_name, "double");
    assert_eq!(ssa.functions[1].runtime_type, RuntimeType::Brillig(InlineType::InlineAlways));

    // The call imported `double`, not an intrinsic.
    assert!(ssa.values.iter().any(|v| *v == ValueRecord::FunctionRef { function: FunctionId(1) }));

    // The call's single result was bound and returned by main's block.
    let main_block = &ssa.functions[0].blocks[0];
    let call_results = match &main_block.instructions[0] {
        Instruction::Call { results, .. } => list(&ssa, *results).clone(),
        other => panic!("expected call, got {:?}", other),
    };
    assert_eq!(call_results.len(), 1);
    match &main_block.terminator {
        Some(Terminator::Return { values }) => assert_eq!(list(&ssa, *values), &call_results),
        other => panic!("expected return, got {:?}", other),
    }

    // double's body: one parameter, one addition of it with itself.
    let double_block = &ssa.functions[1].blocks[0];
    assert_eq!(double_block.parameters.len(), 1);
    let x = double_block.parameters[0];
    match &double_block.instructions[0] {
        Instruction::BinaryOp { lhs, op, rhs, .. } => {
            assert_eq!(*lhs, x);
            assert_eq!(*rhs, x);
            assert_eq!(*op, BinaryOpKind::Add);
        },
        other => panic!("expected addition, got {:?}", other),
    }
}

#[test]
fn intrinsic_shadows_user_function() {
    // A user function sharing a builtin's name is unreachable by name.
    let main_function = ParsedFunction {
        external_name: "main".to_string(),
        internal_name: "main".to_string(),
        runtime_type: RuntimeType::Acir(InlineType::Inline),
        blocks: vec![block(
            "b0",
            vec![ParsedInstruction::Call {
                targets: vec![ident("n")],
                function: ident("print"),
                arguments: vec![num(7)],
                types: vec![Type::Field],
            }],
            ParsedTerminator::Return(vec![]),
        )],
    };
    let shadowed = ParsedFunction {
        external_name: "print".to_string(),
        internal_name: "print".to_string(),
        runtime_type: RuntimeType::Acir(InlineType::Inline),
        blocks: vec![block("b0", vec![], ParsedTerminator::Return(vec![]))],
    };
    let program = ParsedSsa { functions: vec![main_function, shadowed] };
    let ssa = program.into_ssa().unwrap();
    assert!(ssa.values.iter().any(|v| *v == ValueRecord::IntrinsicOp { which: Intrinsic::Print }));
    assert!(!ssa.values.iter().any(|v| matches!(v, ValueRecord::FunctionRef { .. })));
}

#[test]
fn instruction_dispatch_records_each_variant() {
    let program = single_function_program(vec![block(
        "b0",
        vec![
            ParsedInstruction::Allocate { target: ident("a"), typ: Type::Reference(Box::new(Type::Field)) },
            ParsedInstruction::Store { value: num(5), address: var("a") },
            ParsedInstruction::Load { target: ident("l"), value: var("a"), typ: Type::Field },
            ParsedInstruction::Constrain { lhs: var("l"), rhs: num(5) },
            ParsedInstruction::Cast { target: ident("c"), lhs: var("l"), typ: Type::Unsigned(32) },
            ParsedInstruction::RangeCheck { value: var("c"), max_bit_size: 8 },
            ParsedInstruction::Truncate { target: ident("t"), value: var("c"), bit_size: 8, max_bit_size: 32 },
            ParsedInstruction::EnableSideEffectsIf { condition: num(1) },
            ParsedInstruction::IncrementRc { value: var("a") },
            ParsedInstruction::DecrementRc { value: var("a") },
        ],
        ParsedTerminator::Return(vec![]),
    )]);
    let ssa = program.into_ssa().unwrap();
    let instructions = &ssa.functions[0].blocks[0].instructions;
    assert_eq!(instructions.len(), 10);
    assert!(matches!(instructions[0], Instruction::Allocate { .. }));
    assert!(matches!(instructions[1], Instruction::Store { .. }));
    assert!(matches!(instructions[2], Instruction::Load { .. }));
    assert!(matches!(instructions[3], Instruction::Constrain { .. }));
    assert!(matches!(instructions[4], Instruction::Cast { .. }));
    assert!(matches!(instructions[5], Instruction::RangeCheck { .. }));
    assert!(matches!(instructions[6], Instruction::Truncate { .. }));
    assert!(matches!(instructions[7], Instruction::EnableSideEffectsIf { .. }));
    assert!(matches!(instructions[8], Instruction::IncrementRc { .. }));
    assert!(matches!(instructions[9], Instruction::DecrementRc { .. }));
}

#[test]
fn array_get_and_set_translate() {
    let program = single_function_program(vec![block(
        "b0",
        vec![
            ParsedInstruction::ArrayGet {
                target: ident("g"),
                element_type: Type::Field,
                array: ParsedValue::Array { values: vec![num(1), num(2)], typ: Type::Field },
                index: num(0),
            },
            ParsedInstruction::ArraySet {
                target: ident("s"),
                array: ParsedValue::Array { values: vec![num(1), num(2)], typ: Type::Field },
                index: num(0),
                value: num(9),
                mutable: false,
            },
            ParsedInstruction::ArraySet {
                target: ident("m"),
                array: var("s"),
                index: num(1),
                value: num(8),
                mutable: true,
            },
        ],
        ParsedTerminator::Return(vec![]),
    )]);
    let ssa = program.into_ssa().unwrap();
    let instructions = &ssa.functions[0].blocks[0].instructions;
    assert!(matches!(instructions[0], Instruction::ArrayGet { .. }));
    assert!(matches!(instructions[1], Instruction::ArraySet { mutable: false, .. }));
    assert!(matches!(instructions[2], Instruction::ArraySet { mutable: true, .. }));
}
