use gameboy_rs::gameboy::cartridge::create;
use gameboy_rs::gameboy::mmu::shade;
use gameboy_rs::gameboy::mmu::Mmu;
use gameboy_rs::gameboy::spu::Spu;

fn bus_with_boot(boot: Option<Vec<u8>>) -> Mmu {
    let mut rom = vec![0u8; 0x8000];
    rom[0x0000] = 0x11;
    rom[0x00FF] = 0x22;
    rom[0x0100] = 0x33;
    rom[0x4000] = 0x44;
    let cartridge = create(rom, None).unwrap();
    Mmu::with_ram(cartridge, Spu::new(), boot, vec![0u8; 0x2000])
}

fn bus() -> Mmu {
    bus_with_boot(None)
}

#[test]
fn power_on_values() {
    let mmu = bus();
    assert_eq!(mmu.read_byte(0xFF02), 0x7E);
    assert_eq!(mmu.read_byte(0xFF03), 0xFF);
    assert_eq!(mmu.read_byte(0xFF08), 0xFF);
    assert_eq!(mmu.read_byte(0xFF15), 0xFF);
    assert_eq!(mmu.read_byte(0xFF4D), 0xFF);
    assert_eq!(mmu.read_byte(0xFF7F), 0xFF);
    assert_eq!(mmu.read_byte(0xFF40), 0x00);
    assert_eq!(mmu.read_byte(0xFF42), 0x00);
    assert_eq!(mmu.read_byte(0xFF00), 0xCF);
    assert_eq!(mmu.read_byte(0xFF0F), 0xE0);
    assert_eq!(mmu.read_byte(0xFF41), 0x80);
    assert_eq!(mmu.read_byte(0xFF50), 0xFF);
    assert_eq!(mmu.read_byte(0xFFFF), 0x00);
}

#[test]
fn chance_fills_only_work_ram() {
    let cartridge = create(vec![0u8; 0x8000], None).unwrap();
    let mmu = Mmu::new(cartridge, Spu::new(), None);
    assert_eq!(mmu.memory.len(), 0x10000);
    assert_eq!(Mmu::randomize_ram_values().len(), 0x2000);
    for addr in 0x8000..0xA000usize {
        assert_eq!(mmu.memory[addr], 0);
    }
    for addr in 0xFE00..0xFEA0usize {
        assert_eq!(mmu.memory[addr], 0);
    }
    assert_eq!(mmu.memory[0xFF02], 0x7E);
    assert_eq!(mmu.memory[0xFF70], 0xFF);
    assert!(!mmu.bios_enabled);
}

#[test]
fn rom_and_boot_image() {
    let mut boot = vec![0u8; 0x100];
    boot[0x00] = 0xAA;
    boot[0xFF] = 0xBB;
    let mut mmu = bus_with_boot(Some(boot));
    assert_eq!(mmu.read_byte(0x0000), 0xAA);
    assert_eq!(mmu.read_byte(0x00FF), 0xBB);
    assert_eq!(mmu.read_byte(0x0100), 0x33);
    assert_eq!(mmu.read_byte(0x4000), 0x44);
    mmu.write_byte(0xFF50, 0x01);
    assert_eq!(mmu.read_byte(0x0000), 0x11);
    assert_eq!(mmu.read_byte(0x00FF), 0x22);
    // The latch cannot be undone.
    mmu.write_byte(0xFF50, 0x00);
    assert_eq!(mmu.read_byte(0x0000), 0x11);
}

#[test]
fn work_ram_and_its_echo() {
    let mut mmu = bus();
    mmu.write_byte(0xC123, 0x5A);
    assert_eq!(mmu.read_byte(0xC123), 0x5A);
    assert_eq!(mmu.read_byte(0xE123), 0x5A);
    mmu.write_byte(0xFDFF, 0xA5);
    assert_eq!(mmu.read_byte(0xDDFF), 0xA5);
    mmu.write_byte(0xDFFF, 0x77);
    assert_eq!(mmu.read_byte(0xDFFF), 0x77);
}

#[test]
fn unusable_range_and_high_ram() {
    let mut mmu = bus();
    mmu.write_byte(0xFEA0, 0x12);
    mmu.write_byte(0xFEFF, 0x12);
    assert_eq!(mmu.read_byte(0xFEA0), 0x00);
    assert_eq!(mmu.read_byte(0xFEFF), 0x00);
    mmu.write_byte(0xFF80, 0x34);
    mmu.write_byte(0xFFFE, 0x56);
    assert_eq!(mmu.read_byte(0xFF80), 0x34);
    assert_eq!(mmu.read_byte(0xFFFE), 0x56);
    mmu.write_word(0xFF90, 0xBEEF);
    assert_eq!(mmu.read_byte(0xFF90), 0xEF);
    assert_eq!(mmu.read_byte(0xFF91), 0xBE);
    assert_eq!(mmu.read_word(0xFF90), 0xBEEF);
}

#[test]
fn word_access_wraps_at_the_top() {
    let mut mmu = bus();
    mmu.write_word(0xFFFF, 0x1234);
    assert_eq!(mmu.read_byte(0xFFFF), 0x34);
    // The high byte went to address 0, into the ROM window, and is lost.
    assert_eq!(mmu.read_word(0xFFFF), 0x1134);
}

#[test]
fn interrupt_registers() {
    let mut mmu = bus();
    mmu.write_byte(0xFF0F, 0x01);
    assert_eq!(mmu.read_byte(0xFF0F), 0xE1);
    mmu.write_byte(0xFF0F, 0xFF);
    assert_eq!(mmu.read_byte(0xFF0F), 0xFF);
    mmu.write_byte(0xFFFF, 0xA5);
    assert_eq!(mmu.read_byte(0xFFFF), 0xA5);
    assert_eq!(mmu.interupts.enable, 0xA5);
}

#[test]
fn joypad_through_the_bus() {
    let mut mmu = bus();
    mmu.write_byte(0xFF00, 0x10);
    mmu.input.key_down(gameboy_rs::gameboy::input::Key::B);
    assert_eq!(mmu.read_byte(0xFF00), 0xCD);
    mmu.write_byte(0xFF00, 0x20);
    assert_eq!(mmu.read_byte(0xFF00), 0xCF);
}

#[test]
fn timer_through_the_bus() {
    let mut mmu = bus();
    mmu.write_byte(0xFF06, 0x10);
    mmu.write_byte(0xFF07, 0x05);
    assert_eq!(mmu.read_byte(0xFF06), 0x10);
    assert_eq!(mmu.read_byte(0xFF07), 0xFD);
    for _ in 0..251 {
        mmu.timer.tick();
    }
    assert_eq!(mmu.read_byte(0xFF04), 0x01);
    assert_eq!(mmu.read_byte(0xFF05), 16);
    mmu.write_byte(0xFF04, 0x99);
    assert_eq!(mmu.read_byte(0xFF04), 0x00);
    mmu.write_byte(0xFF05, 0x42);
    assert_eq!(mmu.read_byte(0xFF05), 0x42);
}

#[test]
fn video_ram_lock() {
    let mut mmu = bus();
    mmu.write_byte(0x8000, 0x12);
    mmu.lock_vram = true;
    assert_eq!(mmu.read_byte(0x8000), 0xFF);
    mmu.write_byte(0x8000, 0x34);
    mmu.lock_vram = false;
    assert_eq!(mmu.read_byte(0x8000), 0x12);
}

#[test]
fn object_memory_lock() {
    let mut mmu = bus();
    mmu.write_byte(0xFE00, 0x12);
    mmu.lock_oam = true;
    assert_eq!(mmu.read_byte(0xFE00), 0xFF);
    mmu.write_byte(0xFE00, 0x34);
    mmu.lock_oam = false;
    assert_eq!(mmu.read_byte(0xFE00), 0x12);
    assert_eq!(mmu.read_byte(0xFE9F), 0x00);
}

#[test]
fn stat_keeps_its_low_bits() {
    let mut mmu = bus();
    mmu.set_io(0x41, 0x05);
    mmu.write_byte(0xFF41, 0xFA);
    assert_eq!(mmu.io(0x41), 0x7D);
    assert_eq!(mmu.read_byte(0xFF41), 0xFD);
    mmu.write_byte(0xFF41, 0x00);
    assert_eq!(mmu.io(0x41), 0x05);
    assert_eq!(mmu.read_byte(0xFF41), 0x85);
}

#[test]
fn stat_interrupt_only_on_rising_edge() {
    let mut mmu = bus();
    // Mode 0 and LY = LYC = 0: selecting both sources raises the line once.
    mmu.write_byte(0xFF41, 0x48);
    assert_eq!(mmu.interupts.flags, 0x02);
    mmu.interupts.flags = 0;
    mmu.write_byte(0xFF41, 0x48);
    mmu.write_byte(0xFF41, 0x08);
    mmu.write_byte(0xFF41, 0x40);
    mmu.update_stat_irq_conditions();
    assert_eq!(mmu.interupts.flags, 0x00);
    mmu.write_byte(0xFF41, 0x00);
    assert_eq!(mmu.interupts.flags, 0x00);
    mmu.write_byte(0xFF41, 0x08);
    assert_eq!(mmu.interupts.flags, 0x02);
    // Sources of other modes do not count.
    mmu.interupts.flags = 0;
    mmu.write_byte(0xFF41, 0x00);
    mmu.write_byte(0xFF41, 0x30);
    assert_eq!(mmu.interupts.flags, 0x00);
}

#[test]
fn lyc_write_shows_match_at_once() {
    let mut mmu = bus();
    mmu.write_byte(0xFF45, 0x00);
    // With the LCD off the flag does not move.
    assert_eq!(mmu.read_byte(0xFF41), 0x80);
    mmu.write_byte(0xFF40, 0x80);
    mmu.write_byte(0xFF45, 0x00);
    assert_eq!(mmu.read_byte(0xFF41), 0x84);
    mmu.write_byte(0xFF45, 0x07);
    assert_eq!(mmu.read_byte(0xFF41), 0x80);
    assert_eq!(mmu.read_byte(0xFF45), 0x07);
    // The match raises the line if its source is selected.
    mmu.write_byte(0xFF41, 0x40);
    assert_eq!(mmu.interupts.flags, 0x00);
    mmu.write_byte(0xFF45, 0x00);
    assert_eq!(mmu.interupts.flags, 0x02);
}

#[test]
fn ly_is_read_only() {
    let mut mmu = bus();
    mmu.set_io(0x44, 0x55);
    mmu.write_byte(0xFF44, 0x12);
    assert_eq!(mmu.read_byte(0xFF44), 0x55);
}

#[test]
fn switching_the_lcd_off_resets_line_and_locks() {
    let mut mmu = bus();
    mmu.write_byte(0xFF40, 0x91);
    mmu.set_io(0x44, 0x42);
    mmu.set_io(0x41, 0x0B);
    mmu.lock_oam = true;
    mmu.lock_vram = true;
    mmu.write_byte(0xFF40, 0x11);
    assert_eq!(mmu.read_byte(0xFF40), 0x11);
    assert_eq!(mmu.read_byte(0xFF44), 0x00);
    assert_eq!(mmu.io(0x41), 0x08);
    assert!(!mmu.lock_oam);
    assert!(!mmu.lock_vram);
}

#[test]
fn dma_copies_160_bytes_in_640_cycles() {
    let mut mmu = bus();
    for i in 0..160u16 {
        mmu.write_byte(0xC000 + i, (i as u8) ^ 0x5A);
    }
    mmu.write_byte(0xFF80, 0x99);
    mmu.write_byte(0xFF46, 0xC0);
    assert_eq!(mmu.read_byte(0xFF46), 0xC0);
    for _ in 0..4 {
        mmu.dma_tick();
        assert!(!mmu.dma_active);
        assert_eq!(mmu.read_byte(0xC000), 0x5A);
    }
    mmu.dma_tick();
    assert!(mmu.dma_active);
    for tick in 0..639 {
        assert_eq!(mmu.read_byte(0xC000), 0xFF, "tick {}", tick);
        assert_eq!(mmu.read_byte(0x0100), 0xFF);
        assert_eq!(mmu.read_byte(0xFE00), 0xFF);
        assert_eq!(mmu.read_byte(0xFF44), 0xFF);
        assert_eq!(mmu.read_byte(0xFF80), 0x99);
        mmu.write_byte(0xFE10, 0xEE);
        mmu.dma_tick();
        assert!(mmu.dma_active);
    }
    mmu.dma_tick();
    assert!(!mmu.dma_active);
    for i in 0..160u16 {
        assert_eq!(mmu.read_byte(0xFE00 + i), (i as u8) ^ 0x5A);
    }
    assert_eq!(mmu.read_byte(0xC000), 0x5A);
}

#[test]
fn palettes() {
    assert_eq!(shade(0xE4, 0), 255);
    assert_eq!(shade(0xE4, 1), 192);
    assert_eq!(shade(0xE4, 2), 96);
    assert_eq!(shade(0xE4, 3), 0);
    assert_eq!(shade(0x1B, 0), 0);
    assert_eq!(shade(0x1B, 3), 255);
    let mut mmu = bus();
    mmu.write_byte(0xFF47, 0xE4);
    mmu.write_byte(0xFF48, 0x1B);
    mmu.write_byte(0xFF49, 0xFF);
    assert_eq!(mmu.read_byte(0xFF47), 0xE4);
    assert_eq!(mmu.bg_palette(2), 96);
    assert_eq!(mmu.sprite_palette(0, 1), 96);
    assert_eq!(mmu.sprite_palette(1, 0), 0);
}

#[test]
fn cartridge_ram_through_the_bus() {
    let mut rom = vec![0u8; 0x8000];
    rom[0x147] = 0x1B;
    rom[0x149] = 0x02;
    let cartridge = create(rom, None).unwrap();
    let mut mmu = Mmu::with_ram(cartridge, Spu::new(), None, vec![0u8; 0x2000]);
    assert_eq!(mmu.read_byte(0xA000), 0xFF);
    mmu.write_byte(0x0000, 0x0A);
    mmu.write_byte(0xA123, 0x77);
    assert_eq!(mmu.read_byte(0xA123), 0x77);
    assert_eq!(mmu.read_byte(0xBFFF), 0x00);
}

#[test]
fn sound_registers_through_the_bus() {
    let mut mmu = bus();
    assert_eq!(mmu.read_byte(0xFF26), 0x70);
    mmu.write_byte(0xFF24, 0x77);
    assert_eq!(mmu.read_byte(0xFF24), 0x00);
    mmu.write_byte(0xFF26, 0x80);
    mmu.write_byte(0xFF24, 0x77);
    assert_eq!(mmu.read_byte(0xFF24), 0x77);
    assert_eq!(mmu.read_byte(0xFF26), 0xF0);
    mmu.write_byte(0xFF30, 0xAB);
    assert_eq!(mmu.read_byte(0xFF30), 0xAB);
    mmu.write_byte(0xFF3F, 0x12);
    assert_eq!(mmu.read_byte(0xFF3F), 0x12);
    assert_eq!(mmu.read_byte(0xFF13), 0xFF);
    // 0xFF15 is no sound register: it is plain memory.
    mmu.write_byte(0xFF15, 0x3C);
    assert_eq!(mmu.read_byte(0xFF15), 0x3C);
}
