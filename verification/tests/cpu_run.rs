use gameboy_rs::gameboy::cpu::InstructionKind;
use gameboy_rs::gameboy::input::Key;
use gameboy_rs::gameboy::interupt::InterruptFlag;
use gameboy_rs::gameboy::GameBoy;

fn machine(program: &[u8]) -> GameBoy {
    let mut rom = vec![0u8; 0x8000];
    rom[0x100..0x100 + program.len()].copy_from_slice(program);
    // A RET at 0x150 for the calls.
    rom[0x150] = 0xC9;
    GameBoy::with_ram(rom, None, None, vec![0u8; 0x2000]).unwrap()
}

/// Runs the machine until the instruction that the next tick fetches is
/// over, and gives the number of master clocks that took.
fn step(gameboy: &mut GameBoy) -> u32 {
    assert!(!gameboy.cpu.is_processing_instruction());
    let mut clocks = 0;
    loop {
        gameboy.tick();
        clocks += 1;
        if !gameboy.cpu.is_processing_instruction() {
            return clocks;
        }
        assert!(clocks < 100);
    }
}

#[test]
fn instructions_take_their_published_clocks() {
    let mut gameboy = machine(&[
        0x00, // NOP
        0x41, // LD B,C
        0x70, // LD (HL),B
        0xCD, 0x50, 0x01, // CALL 0x0150
        0x20, 0x05, // JR NZ,+5: not taken, Z is set
        0x28, 0x02, // JR Z,+2: taken
    ]);
    assert_eq!(step(&mut gameboy), 4);
    assert_eq!(gameboy.cpu.pc, 0x101);
    assert_eq!(step(&mut gameboy), 4);
    assert_eq!(gameboy.cpu.b, 0x13);
    assert_eq!(step(&mut gameboy), 8);
    assert_eq!(step(&mut gameboy), 24);
    assert_eq!(gameboy.cpu.pc, 0x150);
    assert_eq!(gameboy.cpu.sp, 0xFFFC);
    assert_eq!(gameboy.mmu.read_byte(0xFFFC), 0x06);
    assert_eq!(gameboy.mmu.read_byte(0xFFFD), 0x01);
    assert_eq!(step(&mut gameboy), 16);
    assert_eq!(gameboy.cpu.pc, 0x106);
    assert_eq!(gameboy.cpu.sp, 0xFFFE);
    assert_eq!(step(&mut gameboy), 8);
    assert_eq!(gameboy.cpu.pc, 0x108);
    assert_eq!(step(&mut gameboy), 12);
    assert_eq!(gameboy.cpu.pc, 0x10C);
}

#[test]
fn immediate_arithmetic() {
    let mut gameboy = machine(&[
        0x3E, 0x3A, // LD A,0x3A
        0xC6, 0xC6, // ADD A,0xC6
        0x3E, 0x45, // LD A,0x45
        0xC6, 0x38, // ADD A,0x38
        0x27, // DAA
        0x2F, // CPL
        0x37, // SCF
        0x3F, // CCF
    ]);
    assert_eq!(step(&mut gameboy), 8);
    assert_eq!(gameboy.cpu.a, 0x3A);
    assert_eq!(step(&mut gameboy), 8);
    assert_eq!(gameboy.cpu.a, 0x00);
    assert_eq!(gameboy.cpu.f(), 0xB0);
    step(&mut gameboy);
    step(&mut gameboy);
    assert_eq!(step(&mut gameboy), 4);
    assert_eq!(gameboy.cpu.a, 0x83);
    assert_eq!(step(&mut gameboy), 4);
    assert_eq!(gameboy.cpu.a, 0x7C);
    assert_eq!(gameboy.cpu.f(), 0x60);
    step(&mut gameboy);
    assert_eq!(gameboy.cpu.f(), 0x10);
    step(&mut gameboy);
    assert_eq!(gameboy.cpu.f(), 0x00);
}

#[test]
fn stack_and_sixteen_bit_loads() {
    let mut gameboy = machine(&[
        0x01, 0x34, 0x12, // LD BC,0x1234
        0xC5, // PUSH BC
        0xD1, // POP DE
        0x31, 0x00, 0xD0, // LD SP,0xD000
        0x08, 0x00, 0xC0, // LD (0xC000),SP
        0xF5, // PUSH AF
        0xE1, // POP HL
        0x09, // ADD HL,BC
        0x03, // INC BC
        0xF9, // LD SP,HL
        0xE8, 0xFE, // ADD SP,-2
        0xF8, 0x02, // LD HL,SP+2
    ]);
    assert_eq!(step(&mut gameboy), 12);
    assert_eq!(gameboy.cpu.bc(), 0x1234);
    assert_eq!(step(&mut gameboy), 16);
    assert_eq!(gameboy.cpu.sp, 0xFFFC);
    assert_eq!(step(&mut gameboy), 12);
    assert_eq!(gameboy.cpu.de(), 0x1234);
    assert_eq!(gameboy.cpu.sp, 0xFFFE);
    assert_eq!(step(&mut gameboy), 12);
    assert_eq!(gameboy.cpu.sp, 0xD000);
    assert_eq!(step(&mut gameboy), 20);
    assert_eq!(gameboy.mmu.read_word(0xC000), 0xD000);
    assert_eq!(step(&mut gameboy), 16);
    assert_eq!(step(&mut gameboy), 12);
    assert_eq!(gameboy.cpu.hl(), 0x01B0);
    assert_eq!(step(&mut gameboy), 8);
    assert_eq!(gameboy.cpu.hl(), 0x13E4);
    assert_eq!(step(&mut gameboy), 8);
    assert_eq!(gameboy.cpu.bc(), 0x1235);
    assert_eq!(step(&mut gameboy), 8);
    assert_eq!(gameboy.cpu.sp, 0x13E4);
    assert_eq!(step(&mut gameboy), 16);
    assert_eq!(gameboy.cpu.sp, 0x13E2);
    assert_eq!(step(&mut gameboy), 12);
    assert_eq!(gameboy.cpu.hl(), 0x13E4);
}

#[test]
fn memory_operands() {
    let mut gameboy = machine(&[
        0x21, 0x00, 0xC0, // LD HL,0xC000
        0x36, 0x7F, // LD (HL),0x7F
        0x34, // INC (HL)
        0x7E, // LD A,(HL)
        0x22, // LD (HL+),A
        0x32, // LD (HL-),A
        0x86, // ADD A,(HL)
        0xCB, 0x46, // BIT 0,(HL)
        0xCB, 0xC6, // SET 0,(HL)
        0xCB, 0x37, // SWAP A
        0xE0, 0x80, // LDH (0x80),A
        0xF0, 0x80, // LDH A,(0x80)
        0xEA, 0x10, 0xC0, // LD (0xC010),A
        0x0E, 0x81, // LD C,0x81
        0xE2, // LD (0xFF00+C),A
    ]);
    assert_eq!(step(&mut gameboy), 12);
    assert_eq!(step(&mut gameboy), 12);
    assert_eq!(gameboy.mmu.read_byte(0xC000), 0x7F);
    assert_eq!(step(&mut gameboy), 12);
    assert_eq!(gameboy.mmu.read_byte(0xC000), 0x80);
    assert!(gameboy.cpu.half_carry);
    assert_eq!(step(&mut gameboy), 8);
    assert_eq!(gameboy.cpu.a, 0x80);
    assert_eq!(step(&mut gameboy), 8);
    assert_eq!(gameboy.cpu.hl(), 0xC001);
    assert_eq!(step(&mut gameboy), 8);
    assert_eq!(gameboy.cpu.hl(), 0xC000);
    assert_eq!(gameboy.mmu.read_byte(0xC001), 0x80);
    assert_eq!(step(&mut gameboy), 8);
    assert_eq!(gameboy.cpu.a, 0x00);
    assert_eq!(gameboy.cpu.f(), 0x90);
    assert_eq!(step(&mut gameboy), 12);
    assert!(gameboy.cpu.zero);
    assert_eq!(step(&mut gameboy), 16);
    assert_eq!(gameboy.mmu.read_byte(0xC000), 0x81);
    gameboy.cpu.a = 0xF1;
    assert_eq!(step(&mut gameboy), 8);
    assert_eq!(gameboy.cpu.a, 0x1F);
    assert_eq!(step(&mut gameboy), 12);
    assert_eq!(gameboy.mmu.read_byte(0xFF80), 0x1F);
    gameboy.cpu.a = 0;
    assert_eq!(step(&mut gameboy), 12);
    assert_eq!(gameboy.cpu.a, 0x1F);
    assert_eq!(step(&mut gameboy), 16);
    assert_eq!(gameboy.mmu.read_byte(0xC010), 0x1F);
    assert_eq!(step(&mut gameboy), 8);
    assert_eq!(step(&mut gameboy), 8);
    assert_eq!(gameboy.mmu.read_byte(0xFF81), 0x1F);
}

#[test]
fn jumps_and_restarts() {
    let mut gameboy = machine(&[
        0xC3, 0x10, 0x01, // JP 0x0110
        0, 0, 0, 0, 0, 0, 0, 0, 0, 0, 0, 0, 0, //
        0x21, 0x20, 0x01, // 0x110: LD HL,0x0120
        0xE9, // JP HL
        0, 0, 0, 0, 0, 0, 0, 0, 0, 0, 0, 0, //
        0x18, 0xFE, // 0x120: JR -2
    ]);
    assert_eq!(step(&mut gameboy), 16);
    assert_eq!(gameboy.cpu.pc, 0x110);
    step(&mut gameboy);
    assert_eq!(step(&mut gameboy), 4);
    assert_eq!(gameboy.cpu.pc, 0x120);
    assert_eq!(step(&mut gameboy), 12);
    assert_eq!(gameboy.cpu.pc, 0x120);

    let mut gameboy = machine(&[0xEF]); // RST 0x28
    assert_eq!(step(&mut gameboy), 16);
    assert_eq!(gameboy.cpu.pc, 0x28);
    assert_eq!(gameboy.mmu.read_word(0xFFFC), 0x0101);
}

#[test]
fn conditional_call_and_return() {
    let mut gameboy = machine(&[
        0xC4, 0x50, 0x01, // CALL NZ: not taken
        0xCC, 0x50, 0x01, // CALL Z: taken
    ]);
    assert_eq!(step(&mut gameboy), 12);
    assert_eq!(gameboy.cpu.pc, 0x103);
    assert_eq!(step(&mut gameboy), 24);
    assert_eq!(gameboy.cpu.pc, 0x150);

    let mut gameboy = machine(&[0xCD, 0x60, 0x01]);
    gameboy.mmu.cartridge = {
        let mut rom = vec![0u8; 0x8000];
        rom[0x100] = 0xCD;
        rom[0x101] = 0x60;
        rom[0x102] = 0x01;
        rom[0x160] = 0xC0; // RET NZ: not taken
        rom[0x161] = 0xC8; // RET Z: taken
        gameboy_rs::gameboy::cartridge::create(rom, None).unwrap()
    };
    step(&mut gameboy);
    assert_eq!(step(&mut gameboy), 8);
    assert_eq!(gameboy.cpu.pc, 0x161);
    assert_eq!(step(&mut gameboy), 20);
    assert_eq!(gameboy.cpu.pc, 0x103);
}

#[test]
fn ei_takes_effect_after_the_next_instruction() {
    let mut gameboy = machine(&[0xFB, 0x00, 0x00]);
    gameboy.mmu.write_byte(0xFFFF, 0x04);
    gameboy.mmu.interupts.request_interupt(InterruptFlag::Timer);
    assert_eq!(step(&mut gameboy), 4);
    assert!(!gameboy.mmu.interupts.is_master_enabled());
    // The instruction after EI still runs; the service routine follows it.
    for _ in 0..4 {
        gameboy.tick();
    }
    assert_eq!(gameboy.cpu.pc, 0x102);
    assert!(gameboy.mmu.interupts.is_master_enabled());
    let current = gameboy.cpu.instruction.unwrap();
    assert_eq!(current.kind, InstructionKind::Interrupt);
    let mut clocks = 0;
    while gameboy.cpu.is_processing_instruction() {
        gameboy.tick();
        clocks += 1;
    }
    assert_eq!(clocks, 20);
    assert_eq!(gameboy.cpu.pc, 0x50);
    assert_eq!(gameboy.cpu.sp, 0xFFFC);
    assert_eq!(gameboy.mmu.read_word(0xFFFC), 0x0102);
    assert!(!gameboy.mmu.interupts.is_master_enabled());
    assert_eq!(gameboy.mmu.interupts.flags & 0x04, 0);
}

#[test]
fn di_disables_at_once() {
    let mut gameboy = machine(&[0xF3, 0x00]);
    gameboy.mmu.interupts.enable_master();
    assert_eq!(step(&mut gameboy), 4);
    assert!(!gameboy.mmu.interupts.is_master_enabled());
}

#[test]
fn dispatch_serves_highest_priority() {
    let mut gameboy = machine(&[0x00, 0x00]);
    gameboy.mmu.write_byte(0xFFFF, 0x1F);
    gameboy.mmu.interupts.request_interupt(InterruptFlag::Joypad);
    gameboy.mmu.interupts.request_interupt(InterruptFlag::Stat);
    gameboy.mmu.interupts.enable_master();
    // The first instruction is under way before the controller looks at
    // the CPU: the routine follows it.
    for _ in 0..4 {
        gameboy.tick();
    }
    assert_eq!(gameboy.cpu.pc, 0x101);
    assert!(gameboy.cpu.is_processing_instruction());
    for _ in 0..20 {
        gameboy.tick();
    }
    assert_eq!(gameboy.cpu.pc, 0x48);
    assert_eq!(gameboy.mmu.interupts.flags & 0x1F, 0x10);
}

#[test]
fn halt_waits_for_a_request() {
    let mut gameboy = machine(&[0x76, 0x3C]);
    assert_eq!(step(&mut gameboy), 4);
    assert!(gameboy.cpu.halted);
    for _ in 0..40 {
        gameboy.tick();
    }
    assert_eq!(gameboy.cpu.pc, 0x101);
    assert!(gameboy.cpu.halted);
    gameboy.key_down(Key::A);
    assert_eq!(step(&mut gameboy), 4);
    assert!(!gameboy.cpu.halted);
    assert_eq!(gameboy.cpu.pc, 0x102);
    assert_eq!(gameboy.cpu.a, 0x02);
}

#[test]
fn halt_with_interrupts_enabled_resumes_in_the_service_routine() {
    let mut gameboy = machine(&[0x76, 0x3C]);
    gameboy.mmu.write_byte(0xFFFF, 0x10);
    gameboy.mmu.interupts.enable_master();
    assert_eq!(step(&mut gameboy), 4);
    assert!(gameboy.cpu.halted);
    for _ in 0..40 {
        gameboy.tick();
    }
    assert!(gameboy.cpu.halted);
    gameboy.key_down(Key::Start);
    gameboy.tick();
    assert!(!gameboy.cpu.halted);
    for _ in 0..20 {
        gameboy.tick();
    }
    assert_eq!(gameboy.cpu.pc, 0x60);
    assert_eq!(gameboy.mmu.read_word(0xFFFC), 0x0101);
}

#[test]
fn halt_bug_repeats_the_next_opcode() {
    let mut gameboy = machine(&[0x76, 0x3C, 0x00]);
    gameboy.mmu.write_byte(0xFFFF, 0x01);
    gameboy.mmu.interupts.request_interupt(InterruptFlag::VBlank);
    assert_eq!(step(&mut gameboy), 4);
    assert!(!gameboy.cpu.halted);
    assert!(gameboy.cpu.halt_bug);
    assert_eq!(step(&mut gameboy), 4);
    assert_eq!(gameboy.cpu.pc, 0x101);
    assert_eq!(gameboy.cpu.a, 0x02);
    assert!(!gameboy.cpu.halt_bug);
    assert_eq!(step(&mut gameboy), 4);
    assert_eq!(gameboy.cpu.pc, 0x102);
    assert_eq!(gameboy.cpu.a, 0x03);
}

#[test]
fn stop_ends_with_a_key() {
    let mut gameboy = machine(&[0x10, 0x3C]);
    assert_eq!(step(&mut gameboy), 4);
    assert!(gameboy.cpu.stopped);
    let divider = gameboy.mmu.timer.div;
    for _ in 0..100 {
        gameboy.tick();
    }
    assert_eq!(gameboy.cpu.pc, 0x101);
    assert_eq!(gameboy.mmu.timer.div, divider);
    gameboy.key_up(Key::B);
    assert!(gameboy.cpu.stopped);
    gameboy.key_down(Key::B);
    assert!(!gameboy.cpu.stopped);
    assert_eq!(gameboy.mmu.interupts.flags & 0x10, 0x10);
    assert_eq!(step(&mut gameboy), 4);
    assert_eq!(gameboy.cpu.a, 0x02);
}

#[test]
fn unsupported_opcode_traps() {
    let mut gameboy = machine(&[0x00, 0xD3, 0x3C]);
    step(&mut gameboy);
    gameboy.tick();
    assert_eq!(gameboy.cpu.trap, Some(0xD3));
    let pc = gameboy.cpu.pc;
    for _ in 0..100 {
        gameboy.tick();
    }
    assert_eq!(gameboy.cpu.pc, pc);
    assert_eq!(gameboy.cpu.a, 0x01);
}

#[test]
fn prefixed_register_operations_take_eight_clocks() {
    let mut gameboy = machine(&[
        0xCB, 0x37, // SWAP A
        0xCB, 0x7F, // BIT 7,A
        0xCB, 0x87, // RES 0,A
        0xCB, 0x11, // RL C
    ]);
    gameboy.cpu.a = 0x81;
    assert_eq!(step(&mut gameboy), 8);
    assert_eq!(gameboy.cpu.a, 0x18);
    assert_eq!(step(&mut gameboy), 8);
    assert!(gameboy.cpu.zero);
    gameboy.cpu.a = 0xFF;
    assert_eq!(step(&mut gameboy), 8);
    assert_eq!(gameboy.cpu.a, 0xFE);
    gameboy.cpu.carry = true;
    assert_eq!(step(&mut gameboy), 8);
    assert_eq!(gameboy.cpu.c, 0x27);
}

#[test]
fn call_pushes_one_byte_in_each_of_its_last_two_machine_cycles() {
    let mut gameboy = machine(&[
        0x00, 0x00, 0x00, 0x00, // four NOPs
        0xCD, 0x50, 0x01, // 0x104: CALL 0x0150
    ]);
    for _ in 0..4 {
        step(&mut gameboy);
    }
    let (af, bc, de, hl) = (gameboy.cpu.af(), gameboy.cpu.bc(), gameboy.cpu.de(), gameboy.cpu.hl());
    gameboy.mmu.write_byte(0xFFFD, 0xEE);
    gameboy.mmu.write_byte(0xFFFC, 0xEE);
    // Fetch, low and high byte of the address, and the internal cycle.
    for clock in 1..=16 {
        gameboy.tick();
        assert!(gameboy.cpu.is_processing_instruction());
        assert_eq!(gameboy.cpu.sp, 0xFFFE, "clock {}", clock);
        assert_eq!(gameboy.mmu.read_byte(0xFFFD), 0xEE);
    }
    // The fifth machine cycle pushes the high byte.
    for _ in 0..3 {
        gameboy.tick();
        assert_eq!(gameboy.cpu.sp, 0xFFFE);
    }
    gameboy.tick();
    assert!(gameboy.cpu.is_processing_instruction());
    assert_eq!(gameboy.cpu.sp, 0xFFFD);
    assert_eq!(gameboy.mmu.read_byte(0xFFFD), 0x01);
    assert_eq!(gameboy.mmu.read_byte(0xFFFC), 0xEE);
    assert_eq!(gameboy.cpu.pc, 0x107);
    // The sixth pushes the low byte and sets PC.
    for _ in 0..3 {
        gameboy.tick();
        assert!(gameboy.cpu.is_processing_instruction());
        assert_eq!(gameboy.cpu.sp, 0xFFFD);
        assert_eq!(gameboy.cpu.pc, 0x107);
    }
    gameboy.tick();
    assert!(!gameboy.cpu.is_processing_instruction());
    assert_eq!(gameboy.cpu.sp, 0xFFFC);
    assert_eq!(gameboy.mmu.read_byte(0xFFFC), 0x07);
    assert_eq!(gameboy.mmu.read_byte(0xFFFD), 0x01);
    assert_eq!(gameboy.cpu.pc, 0x150);
    assert_eq!(
        (gameboy.cpu.af(), gameboy.cpu.bc(), gameboy.cpu.de(), gameboy.cpu.hl()),
        (af, bc, de, hl)
    );
}

#[test]
fn push_and_pop_move_one_byte_in_each_machine_cycle() {
    let mut gameboy = machine(&[
        0x01, 0x34, 0x12, // LD BC,0x1234
        0xC5, // PUSH BC
        0xF1, // POP AF
    ]);
    step(&mut gameboy);
    for _ in 0..12 {
        gameboy.tick();
    }
    assert_eq!(gameboy.cpu.sp, 0xFFFD);
    assert_eq!(gameboy.mmu.read_byte(0xFFFD), 0x12);
    for _ in 0..4 {
        gameboy.tick();
    }
    assert!(!gameboy.cpu.is_processing_instruction());
    assert_eq!(gameboy.cpu.sp, 0xFFFC);
    assert_eq!(gameboy.mmu.read_byte(0xFFFC), 0x34);
    for _ in 0..8 {
        gameboy.tick();
    }
    // The low byte has come off the stack: the flags are set, A is not yet.
    assert_eq!(gameboy.cpu.sp, 0xFFFD);
    assert_eq!(gameboy.cpu.f(), 0x30);
    assert_eq!(gameboy.cpu.a, 0x01);
    for _ in 0..4 {
        gameboy.tick();
    }
    assert!(!gameboy.cpu.is_processing_instruction());
    assert_eq!(gameboy.cpu.af(), 0x1230);
    assert_eq!(gameboy.cpu.sp, 0xFFFE);
}

#[test]
fn store_of_sp_writes_its_low_byte_first() {
    let mut gameboy = machine(&[
        0x31, 0xCD, 0xAB, // LD SP,0xABCD
        0x08, 0xFF, 0xC0, // LD (0xC0FF),SP
    ]);
    step(&mut gameboy);
    for _ in 0..16 {
        gameboy.tick();
    }
    assert_eq!(gameboy.mmu.read_byte(0xC0FF), 0xCD);
    assert_eq!(gameboy.mmu.read_byte(0xC100), 0x00);
    for _ in 0..4 {
        gameboy.tick();
    }
    assert!(!gameboy.cpu.is_processing_instruction());
    assert_eq!(gameboy.mmu.read_byte(0xC100), 0xAB);
}

#[test]
fn store_at_hl_writes_with_its_eighth_clock() {
    let mut gameboy = machine(&[
        0x21, 0x00, 0xC0, // LD HL,0xC000
        0x06, 0x5A, // LD B,0x5A
        0x70, // LD (HL),B
        0x4E, // LD C,(HL)
        0x51, // LD D,C
    ]);
    assert_eq!(step(&mut gameboy), 12);
    assert_eq!(step(&mut gameboy), 8);
    gameboy.mmu.write_byte(0xC000, 0xEE);
    for _ in 0..7 {
        gameboy.tick();
        assert!(gameboy.cpu.is_processing_instruction());
        assert_eq!(gameboy.mmu.read_byte(0xC000), 0xEE);
    }
    gameboy.tick();
    assert!(!gameboy.cpu.is_processing_instruction());
    assert_eq!(gameboy.mmu.read_byte(0xC000), 0x5A);
    assert_eq!(gameboy.cpu.pc, 0x106);
    // The load from the byte at HL takes eight clocks too.
    for _ in 0..7 {
        gameboy.tick();
        assert!(gameboy.cpu.is_processing_instruction());
        assert_ne!(gameboy.cpu.c, 0x5A);
    }
    gameboy.tick();
    assert!(!gameboy.cpu.is_processing_instruction());
    assert_eq!(gameboy.cpu.c, 0x5A);
    // A load between registers takes four.
    for _ in 0..3 {
        gameboy.tick();
        assert!(gameboy.cpu.is_processing_instruction());
        assert_ne!(gameboy.cpu.d, 0x5A);
    }
    gameboy.tick();
    assert!(!gameboy.cpu.is_processing_instruction());
    assert_eq!(gameboy.cpu.d, 0x5A);
}
