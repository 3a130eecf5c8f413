use gameboy_rs::gameboy::cartridge::BadRom;
use gameboy_rs::gameboy::input::Key;
use gameboy_rs::gameboy::GameBoy;
use gameboy_rs::gameboy::CLOCK_HZ;
use gameboy_rs::gameboy::CYCLES_PER_FRAME;

fn rom_with(program: &[u8]) -> Vec<u8> {
    let mut rom = vec![0u8; 0x8000];
    rom[0x100..0x100 + program.len()].copy_from_slice(program);
    rom
}

#[test]
fn bad_rom_is_reported_before_the_first_tick() {
    assert!(matches!(GameBoy::new(vec![0u8; 0x100], None, None), Err(BadRom::TruncatedHeader)));
    let mut rom = vec![0u8; 0x8000];
    rom[0x147] = 0xFF;
    assert!(matches!(
        GameBoy::with_ram(rom, None, None, vec![0u8; 0x2000]),
        Err(BadRom::UnsupportedType(0xFF))
    ));
}

#[test]
fn machine_without_boot_image_starts_after_boot() {
    let gameboy = GameBoy::new(rom_with(&[0x00]), None, None).unwrap();
    assert_eq!(gameboy.cpu.pc, 0x0100);
    assert_eq!(gameboy.cpu.a, 0x01);
    assert_eq!(gameboy.cpu.f(), 0xB0);
    assert_eq!(gameboy.cpu.bc(), 0x0013);
    assert_eq!(gameboy.cpu.de(), 0x00D8);
    assert_eq!(gameboy.cpu.hl(), 0x014D);
    assert_eq!(gameboy.cpu.sp, 0xFFFE);
    assert_eq!(gameboy.mmu.read_byte(0xFF40), 0x91);
    assert!(!gameboy.mmu.bios_enabled);
    assert_eq!(gameboy.get_frame_buffer().len(), 160 * 144);
    assert_eq!(CLOCK_HZ, 4_194_304);
    assert_eq!(CYCLES_PER_FRAME, 70_224);
}

#[test]
fn supplied_boot_image_runs_first_and_unmaps_itself() {
    let mut boot = vec![0u8; 0x100];
    // LD SP,0xFFFE; LD BC,0x0013; LD DE,0x00D8; LD HL,0x014D; JP 0x00F4
    boot[..15].copy_from_slice(&[
        0x31, 0xFE, 0xFF, 0x01, 0x13, 0x00, 0x11, 0xD8, 0x00, 0x21, 0x4D, 0x01, 0xC3, 0xF4, 0x00,
    ]);
    // LD A,0x91; LDH (0x40),A; LD A,0xFF; ADD A,0x01; LD A,0x01; LDH (0x50),A
    boot[0xF4..].copy_from_slice(&[
        0x3E, 0x91, 0xE0, 0x40, 0x3E, 0xFF, 0xC6, 0x01, 0x3E, 0x01, 0xE0, 0x50,
    ]);
    let mut rom = rom_with(&[0x3C]);
    rom[0] = 0x77;
    let mut gameboy =
        GameBoy::with_ram(rom, None, Some(boot), vec![0u8; 0x2000]).unwrap();
    assert_eq!(gameboy.cpu.pc, 0);
    assert_eq!(gameboy.mmu.read_byte(0x0000), 0x31);
    let mut clocks = 0;
    while gameboy.cpu.pc != 0x100 || gameboy.cpu.is_processing_instruction() {
        gameboy.tick();
        clocks += 1;
        assert!(clocks < 1000);
    }
    assert_eq!(clocks, 12 * 4 + 16 + 8 + 12 + 8 + 8 + 8 + 12);
    assert!(!gameboy.mmu.bios_enabled);
    assert_eq!(gameboy.mmu.read_byte(0x0000), 0x77);
    assert_eq!(gameboy.cpu.a, 0x01);
    assert_eq!(gameboy.cpu.f(), 0xB0);
    assert_eq!(gameboy.cpu.bc(), 0x0013);
    assert_eq!(gameboy.cpu.de(), 0x00D8);
    assert_eq!(gameboy.cpu.hl(), 0x014D);
    assert_eq!(gameboy.cpu.sp, 0xFFFE);
    assert_eq!(gameboy.mmu.read_byte(0xFF40), 0x91);
    for _ in 0..4 {
        gameboy.tick();
    }
    assert_eq!(gameboy.cpu.a, 0x02);
}

#[test]
fn keys_reach_the_joypad_and_request_an_interrupt() {
    let mut gameboy = GameBoy::new(rom_with(&[0x00]), None, None).unwrap();
    gameboy.mmu.write_byte(0xFF00, 0x20);
    gameboy.key_down(Key::Up);
    assert_eq!(gameboy.mmu.read_byte(0xFF00), 0xCB);
    assert_eq!(gameboy.mmu.read_byte(0xFF0F) & 0x10, 0x10);
    gameboy.mmu.write_byte(0xFF0F, 0x00);
    // A key that is held already does not request again.
    gameboy.key_down(Key::Up);
    assert_eq!(gameboy.mmu.read_byte(0xFF0F) & 0x10, 0x00);
    gameboy.key_up(Key::Up);
    assert_eq!(gameboy.mmu.read_byte(0xFF00), 0xCF);
    assert_eq!(gameboy.mmu.read_byte(0xFF0F) & 0x10, 0x00);
}

#[test]
fn timer_interrupt_reaches_the_flags() {
    let mut gameboy = GameBoy::with_ram(rom_with(&[0x18, 0xFE]), None, None, vec![0u8; 0x2000])
        .unwrap();
    gameboy.mmu.write_byte(0xFF05, 0xFF);
    gameboy.mmu.write_byte(0xFF07, 0x05);
    let mut clocks = 0;
    while gameboy.mmu.interupts.flags & 0x04 == 0 {
        gameboy.tick();
        clocks += 1;
        assert!(clocks < 100);
    }
    // The counter starts at 5: bit 3 falls at 16, and the interrupt comes
    // in the fourth cycle of the overflow.
    assert_eq!(clocks, 11 + 3);
    gameboy.tick();
    gameboy.tick();
    assert_eq!(gameboy.mmu.read_byte(0xFF05), 0x00);
}

#[test]
fn frames_come_every_70224_cycles() {
    let mut gameboy = GameBoy::with_ram(rom_with(&[0x18, 0xFE]), None, None, vec![0u8; 0x2000])
        .unwrap();
    assert!(!gameboy.take_frame_ready());
    let mut clocks: u32 = 0;
    while !gameboy.take_frame_ready() {
        gameboy.tick();
        clocks += 1;
        assert!(clocks < 100_000);
    }
    assert_eq!(clocks, 144 * 456);
    assert!(!gameboy.take_frame_ready());
    let mut clocks: u32 = 0;
    while !gameboy.take_frame_ready() {
        gameboy.tick();
        clocks += 1;
    }
    assert_eq!(clocks, CYCLES_PER_FRAME);
    gameboy.mmu.write_byte(0xFF0F, 0x00);
    for _ in 0..4 {
        gameboy.tick();
    }
    assert_eq!(gameboy.mmu.read_byte(0xFF0F) & 0x01, 0x01);
}

#[test]
fn program_starts_a_dma_transfer() {
    let mut gameboy = GameBoy::with_ram(
        rom_with(&[
            0x3E, 0xC0, // LD A,0xC0
            0xE0, 0x46, // LDH (0x46),A
            0x18, 0xFE, // JR -2
        ]),
        None,
        None,
        {
            let mut ram = vec![0u8; 0x2000];
            for (i, byte) in ram.iter_mut().enumerate().take(160) {
                *byte = i as u8 + 1;
            }
            ram
        },
    )
    .unwrap();
    for _ in 0..20 {
        gameboy.tick();
    }
    assert_eq!(gameboy.mmu.read_byte(0xFF46), 0xC0);
    for _ in 0..4 {
        assert!(!gameboy.mmu.dma_active);
        gameboy.tick();
    }
    for _ in 0..640 {
        assert!(gameboy.mmu.dma_active);
        gameboy.tick();
    }
    assert!(!gameboy.mmu.dma_active);
    for i in 0..160usize {
        assert_eq!(gameboy.mmu.memory[0xFE00 + i], i as u8 + 1);
    }
}

#[test]
fn sound_buffer_and_wall_clock_and_save_data() {
    let mut rom = rom_with(&[0x18, 0xFE]);
    rom[0x147] = 0x13;
    rom[0x149] = 0x02;
    let mut save = vec![0u8; 0x2000];
    save[7] = 0x42;
    let mut gameboy =
        GameBoy::with_ram(rom, Some(save.clone()), None, vec![0u8; 0x2000]).unwrap();
    assert_eq!(gameboy.save_data(), Some(save));
    gameboy.set_wall_clock(3661);
    gameboy.mmu.write_byte(0x0000, 0x0A);
    gameboy.mmu.write_byte(0x6000, 0x00);
    gameboy.mmu.write_byte(0x6000, 0x01);
    gameboy.mmu.write_byte(0x4000, 0x0A);
    assert_eq!(gameboy.mmu.read_byte(0xA000), 1);
    gameboy.mmu.write_byte(0x4000, 0x09);
    assert_eq!(gameboy.mmu.read_byte(0xA000), 1);
    gameboy.mmu.write_byte(0x4000, 0x00);
    assert_eq!(gameboy.mmu.read_byte(0xA007), 0x42);

    assert_eq!(gameboy.take_samples(), None);
    gameboy.mmu.write_byte(0xFF26, 0x80);
    let mut clocks = 0;
    let samples = loop {
        gameboy.tick();
        clocks += 1;
        if let Some(samples) = gameboy.take_samples() {
            break samples;
        }
        assert!(clocks < 100_000);
    };
    assert_eq!(clocks, 88 + 511 * 87);
    assert_eq!(samples, vec![0u16; 1024]);
}

#[test]
fn three_increments_take_twelve_clocks() {
    let mut gameboy = GameBoy::new(rom_with(&[0x3C, 0x3C, 0x3C]), None, None).unwrap();
    for _ in 0..12 {
        gameboy.tick();
    }
    assert_eq!(gameboy.cpu.a, 0x04);
}

/// The boot image of the console.
const BOOT_IMAGE: [u8; 256] = [
    0x31, 0xFE, 0xFF, 0x21, 0xFF, 0x9F, 0xAF, 0x32, 0xCB, 0x7C, 0x20, 0xFA, 0x0E, 0x11, 0x21, 0x26,
    0xFF, 0x3E, 0x80, 0x32, 0xE2, 0x0C, 0x3E, 0xF3, 0x32, 0xE2, 0x0C, 0x3E, 0x77, 0x32, 0xE2, 0x11,
    0x04, 0x01, 0x21, 0x10, 0x80, 0x1A, 0xCD, 0xB8, 0x00, 0x1A, 0xCB, 0x37, 0xCD, 0xB8, 0x00, 0x13,
    0x7B, 0xFE, 0x34, 0x20, 0xF0, 0x11, 0xCC, 0x00, 0x06, 0x08, 0x1A, 0x13, 0x22, 0x23, 0x05, 0x20,
    0xF9, 0x21, 0x04, 0x99, 0x01, 0x0C, 0x01, 0xCD, 0xB1, 0x00, 0x3E, 0x19, 0x77, 0x21, 0x24, 0x99,
    0x0E, 0x0C, 0xCD, 0xB1, 0x00, 0x3E, 0x91, 0xE0, 0x40, 0x06, 0x10, 0x11, 0xD4, 0x00, 0x78, 0xE0,
    0x43, 0x05, 0x7B, 0xFE, 0xD8, 0x28, 0x04, 0x1A, 0xE0, 0x47, 0x13, 0x0E, 0x1C, 0xCD, 0xA7, 0x00,
    0xAF, 0x90, 0xE0, 0x43, 0x05, 0x0E, 0x1C, 0xCD, 0xA7, 0x00, 0xAF, 0xB0, 0x20, 0xE0, 0xE0, 0x43,
    0x3E, 0x83, 0xCD, 0x9F, 0x00, 0x0E, 0x27, 0xCD, 0xA7, 0x00, 0x3E, 0xC1, 0xCD, 0x9F, 0x00, 0x11,
    0x8A, 0x01, 0xF0, 0x44, 0xFE, 0x90, 0x20, 0xFA, 0x1B, 0x7A, 0xB3, 0x20, 0xF5, 0x18, 0x49, 0x0E,
    0x13, 0xE2, 0x0C, 0x3E, 0x87, 0xE2, 0xC9, 0xF0, 0x44, 0xFE, 0x90, 0x20, 0xFA, 0x0D, 0x20, 0xF7,
    0xC9, 0x78, 0x22, 0x04, 0x0D, 0x20, 0xFA, 0xC9, 0x47, 0x0E, 0x04, 0xAF, 0xC5, 0xCB, 0x10, 0x17,
    0xC1, 0xCB, 0x10, 0x17, 0x0D, 0x20, 0xF5, 0x22, 0x23, 0x22, 0x23, 0xC9, 0x3C, 0x42, 0xB9, 0xA5,
    0xB9, 0xA5, 0x42, 0x3C, 0x00, 0x54, 0xA8, 0xFC, 0x42, 0x4F, 0x4F, 0x54, 0x49, 0x58, 0x2E, 0x44,
    0x4D, 0x47, 0x20, 0x76, 0x31, 0x2E, 0x32, 0x00, 0x3E, 0xFF, 0xC6, 0x01, 0x0B, 0x1E, 0xD8, 0x21,
    0x4D, 0x01, 0x00, 0x00, 0x00, 0x00, 0x00, 0x00, 0x00, 0x00, 0x00, 0x00, 0x3E, 0x01, 0xE0, 0x50,
];

#[test]
fn boot_image_leaves_the_documented_state() {
    // The boot image compares the logo in the cartridge header with its own
    // copy and adds up the header: a cartridge that passes both.
    let mut rom = rom_with(&[0x00]);
    rom[0x104..0x134].copy_from_slice(&BOOT_IMAGE[0xA8..0xD8]);
    rom[0x14D] = 0xE7;
    let mut gameboy =
        GameBoy::with_ram(rom, None, Some(BOOT_IMAGE.to_vec()), vec![0u8; 0x2000]).unwrap();
    let mut clocks: u32 = 0;
    while gameboy.cpu.pc != 0x100 || gameboy.cpu.is_processing_instruction() {
        gameboy.tick();
        clocks += 1;
        assert!(clocks < 5 * CLOCK_HZ);
    }
    assert_eq!(gameboy.cpu.trap, None);
    assert!(!gameboy.mmu.bios_enabled);
    assert_eq!(gameboy.cpu.pc, 0x0100);
    assert_eq!(gameboy.cpu.a, 0x01);
    assert_eq!(gameboy.cpu.f(), 0xB0);
    assert_eq!(gameboy.cpu.bc(), 0x0013);
    assert_eq!(gameboy.cpu.de(), 0x00D8);
    assert_eq!(gameboy.cpu.hl(), 0x014D);
    assert_eq!(gameboy.cpu.sp, 0xFFFE);
    assert_eq!(gameboy.mmu.read_byte(0xFF40), 0x91);
}

#[test]
fn save_data_follows_the_battery_of_the_cartridge_type() {
    for (code, battery) in [
        (0x00u8, false),
        (0x01, false),
        (0x03, false),
        (0x0F, true),
        (0x10, true),
        (0x11, false),
        (0x12, false),
        (0x13, true),
        (0x1B, false),
    ] {
        let mut rom = rom_with(&[0x00]);
        rom[0x147] = code;
        rom[0x149] = 0x02;
        let gameboy = GameBoy::with_ram(rom, None, None, vec![0u8; 0x2000]).unwrap();
        assert_eq!(gameboy.save_data().is_some(), battery, "type {:#04x}", code);
    }
}
