use gameboy_rs::gameboy::cpu::disassembler::create_interupt_instruction;
use gameboy_rs::gameboy::cpu::disassembler::disassemble;
use gameboy_rs::gameboy::cpu::disassembler::disassemble_cb_prefix_op;
use gameboy_rs::gameboy::cpu::disassembler::disassembler_table::ArithmeticOp;
use gameboy_rs::gameboy::cpu::disassembler::disassembler_table::CBOp;
use gameboy_rs::gameboy::cpu::disassembler::disassembler_table::ConditionCode;
use gameboy_rs::gameboy::cpu::disassembler::disassembler_table::Register;
use gameboy_rs::gameboy::cpu::disassembler::disassembler_table::RegisterPair1;
use gameboy_rs::gameboy::cpu::disassembler::disassembler_table::RegisterPair2;
use gameboy_rs::gameboy::cpu::disassembler::Instruction;
use gameboy_rs::gameboy::cpu::disassembler::InstructionStep;
use gameboy_rs::gameboy::cpu::disassembler::MicroOp;
use gameboy_rs::gameboy::cpu::disassembler::PrefixedOp;

fn clocks(instruction: &Instruction) -> usize {
    4 * instruction
        .steps
        .iter()
        .filter(|step| matches!(step, InstructionStep::Standard(_)))
        .count()
}

fn clocks_untaken(instruction: &Instruction) -> usize {
    let mut count = 0;
    for step in &instruction.steps {
        match step {
            InstructionStep::Standard(_) => count += 4,
            InstructionStep::Instant(_) => {}
            InstructionStep::InstantConditional(_) => break,
        }
    }
    count
}

#[test]
fn operand_tables() {
    assert_eq!(ConditionCode::from_u8(0), ConditionCode::NotZero);
    assert_eq!(ConditionCode::from_u8(3), ConditionCode::Carry);
    assert_eq!(RegisterPair1::from_u8(3), RegisterPair1::SP);
    assert_eq!(RegisterPair2::from_u8(3), RegisterPair2::AF);
    assert_eq!(Register::from_u8(6), Register::HLMem);
    assert_eq!(Register::from_u8(7), Register::A);
    assert_eq!(ArithmeticOp::from_u8(7), ArithmeticOp::CP);
    assert_eq!(CBOp::from_u8(6), CBOp::SWAP);
    assert!(ConditionCode::NotZero.is_met(false, true));
    assert!(!ConditionCode::Zero.is_met(false, true));
    assert!(ConditionCode::Carry.is_met(false, true));
    assert!(!ConditionCode::NotCarry.is_met(false, true));
}

#[test]
fn published_durations() {
    let table: [(u8, usize); 30] = [
        (0x00, 4),
        (0x01, 12),
        (0x02, 8),
        (0x03, 8),
        (0x04, 4),
        (0x06, 8),
        (0x08, 20),
        (0x09, 8),
        (0x18, 12),
        (0x34, 12),
        (0x36, 12),
        (0x41, 4),
        (0x46, 8),
        (0x70, 8),
        (0x76, 4),
        (0x80, 4),
        (0x86, 8),
        (0xC1, 12),
        (0xC3, 16),
        (0xC5, 16),
        (0xC6, 8),
        (0xC7, 16),
        (0xC9, 16),
        (0xCD, 24),
        (0xD9, 16),
        (0xE0, 12),
        (0xE8, 16),
        (0xE9, 4),
        (0xF8, 12),
        (0xFA, 16),
    ];
    for (opcode, expected) in table {
        let instruction = disassemble(opcode).unwrap();
        assert_eq!(clocks(&instruction), expected, "opcode {:#04X}", opcode);
        assert_eq!(instruction.opcode_val, opcode);
    }
}

#[test]
fn conditional_durations() {
    let table: [(u8, usize, usize); 6] = [
        (0x20, 12, 8),
        (0x38, 12, 8),
        (0xC0, 20, 8),
        (0xC2, 16, 12),
        (0xC4, 24, 12),
        (0xDC, 24, 12),
    ];
    for (opcode, taken, untaken) in table {
        let instruction = disassemble(opcode).unwrap();
        assert_eq!(clocks(&instruction), taken, "opcode {:#04X}", opcode);
        assert_eq!(clocks_untaken(&instruction), untaken, "opcode {:#04X}", opcode);
    }
}

#[test]
fn every_queue_opens_with_the_fetch_cycle() {
    for opcode in 0..=255u8 {
        if let Some(instruction) = disassemble(opcode) {
            assert_eq!(instruction.steps[0], InstructionStep::Standard(MicroOp::Idle));
            assert!(instruction.length >= 1 && instruction.length <= 3);
        }
        let prefixed = disassemble_cb_prefix_op(opcode);
        assert_eq!(prefixed.steps[0], InstructionStep::Standard(MicroOp::Idle));
        assert_eq!(prefixed.length, 2);
    }
}

#[test]
fn undocumented_opcodes_decode_to_nothing() {
    let undocumented = [0xCBu8, 0xD3, 0xDB, 0xDD, 0xE3, 0xE4, 0xEB, 0xEC, 0xED, 0xF4, 0xFC, 0xFD];
    for opcode in 0..=255u8 {
        assert_eq!(
            disassemble(opcode).is_none(),
            undocumented.contains(&opcode),
            "opcode {:#04X}",
            opcode
        );
    }
}

#[test]
fn call_is_six_machine_cycles() {
    let instruction = disassemble(0xCD).unwrap();
    assert_eq!(
        instruction.steps,
        vec![
            InstructionStep::Standard(MicroOp::Idle),
            InstructionStep::Standard(MicroOp::FetchOperand8),
            InstructionStep::Standard(MicroOp::FetchOperand16),
            InstructionStep::Standard(MicroOp::Idle),
            InstructionStep::Standard(MicroOp::PushPcHigh),
            InstructionStep::Standard(MicroOp::PushPcLow),
            InstructionStep::Instant(MicroOp::Jump),
        ]
    );
    assert_eq!(instruction.length, 3);
}

#[test]
fn sixteen_bit_accesses_take_a_machine_cycle_for_each_byte() {
    let standard = |op| InstructionStep::Standard(op);
    assert_eq!(
        disassemble(0xC5).unwrap().steps,
        vec![
            standard(MicroOp::Idle),
            standard(MicroOp::Idle),
            standard(MicroOp::PushHigh(RegisterPair2::BC)),
            standard(MicroOp::PushLow(RegisterPair2::BC)),
        ]
    );
    assert_eq!(
        disassemble(0xF1).unwrap().steps,
        vec![
            standard(MicroOp::Idle),
            standard(MicroOp::PopLow(RegisterPair2::AF)),
            standard(MicroOp::PopHigh(RegisterPair2::AF)),
        ]
    );
    assert_eq!(
        disassemble(0xC9).unwrap().steps,
        vec![
            standard(MicroOp::Idle),
            standard(MicroOp::PopTemp16Low),
            standard(MicroOp::PopTemp16High),
            standard(MicroOp::Return),
        ]
    );
    assert_eq!(
        disassemble(0xD8).unwrap().steps,
        vec![
            standard(MicroOp::Idle),
            standard(MicroOp::Idle),
            InstructionStep::InstantConditional(ConditionCode::Carry),
            standard(MicroOp::PopTemp16Low),
            standard(MicroOp::PopTemp16High),
            standard(MicroOp::Return),
        ]
    );
    assert_eq!(
        disassemble(0x08).unwrap().steps,
        vec![
            standard(MicroOp::Idle),
            standard(MicroOp::FetchOperand8),
            standard(MicroOp::FetchOperand16),
            standard(MicroOp::StoreSpLowAtOperand16),
            standard(MicroOp::StoreSpHighAtOperand16),
        ]
    );
    assert_eq!(
        disassemble(0xFF).unwrap().steps,
        vec![
            standard(MicroOp::Idle),
            standard(MicroOp::Idle),
            standard(MicroOp::PushPcHigh),
            standard(MicroOp::PushPcLow),
            InstructionStep::Instant(MicroOp::Restart(0x38)),
        ]
    );
}

#[test]
fn loads_cost_a_cycle_only_for_memory() {
    let register = disassemble(0x41).unwrap();
    assert_eq!(
        register.steps,
        vec![
            InstructionStep::Standard(MicroOp::Idle),
            InstructionStep::Instant(MicroOp::ReadOperand(Register::C)),
            InstructionStep::Instant(MicroOp::WriteOperand(Register::B)),
        ]
    );
    let store = disassemble(0x70).unwrap();
    assert_eq!(
        store.steps,
        vec![
            InstructionStep::Standard(MicroOp::Idle),
            InstructionStep::Instant(MicroOp::ReadOperand(Register::B)),
            InstructionStep::Standard(MicroOp::WriteOperand(Register::HLMem)),
        ]
    );
    let halt = disassemble(0x76).unwrap();
    assert_eq!(
        halt.steps,
        vec![InstructionStep::Standard(MicroOp::Idle), InstructionStep::Instant(MicroOp::Halt)]
    );
}

#[test]
fn conditional_jump_has_its_condition_before_the_jump() {
    let instruction = disassemble(0x28).unwrap();
    assert_eq!(
        instruction.steps,
        vec![
            InstructionStep::Standard(MicroOp::Idle),
            InstructionStep::Standard(MicroOp::FetchOperand8),
            InstructionStep::InstantConditional(ConditionCode::Zero),
            InstructionStep::Standard(MicroOp::JumpRelative),
        ]
    );
    assert_eq!(instruction.length, 2);
}

#[test]
fn restart_vectors() {
    for y in 0..8u8 {
        let instruction = disassemble(0xC7 + y * 8).unwrap();
        assert_eq!(instruction.steps[4], InstructionStep::Instant(MicroOp::Restart(y * 8)));
    }
}

#[test]
fn prefixed_durations() {
    for opcode in 0..=255u8 {
        let instruction = disassemble_cb_prefix_op(opcode);
        let expected = if opcode % 8 != 6 {
            8
        } else if opcode / 64 == 1 {
            12
        } else {
            16
        };
        assert_eq!(clocks(&instruction), expected, "opcode CB {:#04X}", opcode);
    }
    assert_eq!(
        disassemble_cb_prefix_op(0x7C).steps[2],
        InstructionStep::Instant(MicroOp::Prefixed(PrefixedOp::TestBit(7), Register::H))
    );
    assert_eq!(
        disassemble_cb_prefix_op(0x86).steps[2],
        InstructionStep::Standard(MicroOp::Prefixed(PrefixedOp::ResetBit(0), Register::HLMem))
    );
    assert_eq!(
        disassemble_cb_prefix_op(0x37).steps[2],
        InstructionStep::Instant(MicroOp::Prefixed(PrefixedOp::Rotate(CBOp::SWAP), Register::A))
    );
    assert_eq!(
        disassemble_cb_prefix_op(0xFE).steps[3],
        InstructionStep::Standard(MicroOp::StoreTemp8AtHl)
    );
}

#[test]
fn interrupt_service_takes_five_machine_cycles() {
    let instruction = create_interupt_instruction();
    assert_eq!(clocks(&instruction), 20);
    assert_eq!(
        instruction.steps,
        vec![
            InstructionStep::Standard(MicroOp::Idle),
            InstructionStep::Standard(MicroOp::Idle),
            InstructionStep::Standard(MicroOp::PushPcHighLatchEnable),
            InstructionStep::Standard(MicroOp::PushPcLowLatchFlags),
            InstructionStep::Standard(MicroOp::Dispatch),
        ]
    );
}
