use gameboy_rs::gameboy::cartridge::create;
use gameboy_rs::gameboy::cartridge::load_new_ram;
use gameboy_rs::gameboy::cartridge::try_read_save_file;
use gameboy_rs::gameboy::cartridge::BadRom;
use gameboy_rs::gameboy::cartridge::Cart;
use gameboy_rs::gameboy::cartridge::Cartridge;

fn image(cart_type: u8, rom_size: u8, ram_size: u8, banks: usize) -> Vec<u8> {
    let mut rom = vec![0u8; banks * 0x4000];
    for bank in 0..banks {
        // Every bank is marked with its number in its first two bytes.
        rom[bank * 0x4000] = (bank % 256) as u8;
        rom[bank * 0x4000 + 1] = (bank / 256) as u8;
    }
    rom[0x147] = cart_type;
    rom[0x148] = rom_size;
    rom[0x149] = ram_size;
    rom
}

fn fault_of(rom: Vec<u8>) -> BadRom {
    match create(rom, None) {
        Ok(_) => panic!("the image was taken"),
        Err(fault) => fault,
    }
}

#[test]
fn truncated_header_is_rejected() {
    assert_eq!(fault_of(vec![0u8; 0x14F]), BadRom::TruncatedHeader);
    assert_eq!(fault_of(Vec::new()), BadRom::TruncatedHeader);
    assert!(create(vec![0u8; 0x150], None).is_ok());
}

#[test]
fn color_only_image_is_rejected() {
    let mut rom = image(0x00, 0x00, 0x00, 2);
    rom[0x143] = 0xC0;
    assert_eq!(fault_of(rom), BadRom::ColorOnly);
    let mut rom = image(0x00, 0x00, 0x00, 2);
    rom[0x143] = 0x80;
    assert!(create(rom, None).is_ok());
}

#[test]
fn unknown_size_and_type_codes_are_rejected() {
    assert_eq!(fault_of(image(0x00, 0x09, 0x00, 2)), BadRom::InvalidRomSize(0x09));
    assert_eq!(fault_of(image(0x00, 0x00, 0x01, 2)), BadRom::InvalidRamSize(0x01));
    assert_eq!(fault_of(image(0x04, 0x00, 0x00, 2)), BadRom::UnsupportedType(0x04));
    assert_eq!(fault_of(image(0x1F, 0x00, 0x00, 2)), BadRom::UnsupportedType(0x1F));
    // The ROM size is looked at before the RAM size, and the type last.
    assert_eq!(fault_of(image(0x04, 0x09, 0x01, 2)), BadRom::InvalidRomSize(0x09));
    assert_eq!(fault_of(image(0x04, 0x00, 0x01, 2)), BadRom::InvalidRamSize(0x01));
}

#[test]
fn type_codes_select_controllers() {
    assert!(matches!(create(image(0x00, 0x00, 0x00, 2), None), Ok(Cart::Rom(_))));
    for code in [0x01u8, 0x02, 0x03] {
        assert!(matches!(create(image(code, 0x01, 0x00, 4), None), Ok(Cart::Mbc1(_))));
    }
    for code in [0x0Fu8, 0x10, 0x11, 0x12, 0x13] {
        assert!(matches!(create(image(code, 0x01, 0x00, 4), None), Ok(Cart::Mbc3(_))));
    }
    for code in [0x1Au8, 0x1B, 0x1C, 0x1D, 0x1E] {
        assert!(matches!(create(image(code, 0x01, 0x00, 4), None), Ok(Cart::Mbc5(_))));
    }
}

#[test]
fn size_codes_give_bank_counts() {
    let codes: [(u8, usize); 12] = [
        (0x00, 2),
        (0x01, 4),
        (0x02, 8),
        (0x03, 16),
        (0x04, 32),
        (0x05, 64),
        (0x06, 128),
        (0x07, 256),
        (0x08, 512),
        (0x52, 72),
        (0x53, 80),
        (0x54, 96),
    ];
    for (code, banks) in codes {
        match create(image(0x19 + 1, code, 0x00, 2), None) {
            Ok(Cart::Mbc5(cartridge)) => {
                assert_eq!(cartridge.num_rom_banks as usize, banks);
                assert_eq!(cartridge.rom.len(), banks * 0x4000);
            }
            _ => panic!("no MBC5"),
        }
    }
    let ram_codes: [(u8, usize); 5] = [(0x00, 0), (0x02, 1), (0x03, 4), (0x04, 16), (0x05, 8)];
    for (code, banks) in ram_codes {
        match create(image(0x1A, 0x00, code, 2), None) {
            Ok(Cart::Mbc5(cartridge)) => assert_eq!(cartridge.ram.len(), banks * 0x2000),
            _ => panic!("no MBC5"),
        }
    }
}

#[test]
fn plain_rom_reads_two_banks_and_ignores_writes() {
    let mut cartridge = create(image(0x00, 0x00, 0x00, 2), None).unwrap();
    assert_eq!(cartridge.read_rom(0x0000), 0);
    assert_eq!(cartridge.read_rom(0x4000), 1);
    cartridge.write_rom(0x2000, 0x05);
    cartridge.write_rom(0x4000, 0x77);
    assert_eq!(cartridge.read_rom(0x4000), 1);
    assert_eq!(cartridge.read_ram(0x0000), 0xFF);
    cartridge.write_ram(0x0000, 0x12);
    assert_eq!(cartridge.read_ram(0x0000), 0xFF);
}

#[test]
fn mbc1_bank_zero_selects_bank_one() {
    let mut cartridge = create(image(0x01, 0x04, 0x00, 32), None).unwrap();
    assert_eq!(cartridge.read_rom(0x4000), 1);
    cartridge.write_rom(0x2000, 0x07);
    assert_eq!(cartridge.read_rom(0x4000), 7);
    cartridge.write_rom(0x2000, 0x00);
    assert_eq!(cartridge.read_rom(0x4000), 1);
    cartridge.write_rom(0x3FFF, 0x00);
    assert_eq!(cartridge.read_rom(0x4000), 1);
    // Only the low five bits count.
    cartridge.write_rom(0x2000, 0xE3);
    assert_eq!(cartridge.read_rom(0x4000), 3);
    cartridge.write_rom(0x2000, 0xE0);
    assert_eq!(cartridge.read_rom(0x4000), 1);
    assert_eq!(cartridge.read_rom(0x0000), 0);
}

#[test]
fn mbc1_upper_bits_and_modes() {
    let mut cartridge = create(image(0x03, 0x06, 0x03, 128), None).unwrap();
    cartridge.write_rom(0x2000, 0x05);
    cartridge.write_rom(0x4000, 0x02);
    assert_eq!(cartridge.read_rom(0x4000), 0x45);
    cartridge.write_rom(0x2000, 0x00);
    assert_eq!(cartridge.read_rom(0x4000), 0x41);
    // In mode 1 the same register selects the RAM bank.
    cartridge.write_rom(0x6000, 0x01);
    cartridge.write_rom(0x0000, 0x0A);
    cartridge.write_rom(0x4000, 0x03);
    assert_eq!(cartridge.read_rom(0x4000), 0x41);
    cartridge.write_ram(0x0010, 0x99);
    assert_eq!(cartridge.read_ram(0x0010), 0x99);
    cartridge.write_rom(0x4000, 0x00);
    assert_eq!(cartridge.read_ram(0x0010), 0x00);
    cartridge.write_rom(0x4000, 0x03);
    assert_eq!(cartridge.read_ram(0x0010), 0x99);
    // RAM that is not enabled reads 0xFF and drops writes.
    cartridge.write_rom(0x0000, 0x00);
    assert_eq!(cartridge.read_ram(0x0010), 0xFF);
    cartridge.write_ram(0x0010, 0x11);
    cartridge.write_rom(0x1FFF, 0x3A);
    assert_eq!(cartridge.read_ram(0x0010), 0x99);
}

#[test]
fn missing_bank_reads_high() {
    // The header declares four banks; bank 5 is not there.
    let mut cartridge = create(image(0x01, 0x01, 0x00, 4), None).unwrap();
    cartridge.write_rom(0x2000, 0x05);
    assert_eq!(cartridge.read_rom(0x4000), 0xFF);
    cartridge.write_rom(0x2000, 0x03);
    assert_eq!(cartridge.read_rom(0x4000), 3);
}

#[test]
fn mbc3_banks_and_clock_latch() {
    let mut cartridge = create(image(0x10, 0x05, 0x03, 64), None).unwrap();
    cartridge.write_rom(0x2000, 0x00);
    assert_eq!(cartridge.read_rom(0x4000), 1);
    cartridge.write_rom(0x2000, 0x3F);
    assert_eq!(cartridge.read_rom(0x4000), 0x3F);
    cartridge.write_rom(0x2000, 0x80);
    assert_eq!(cartridge.read_rom(0x4000), 1);

    cartridge.write_rom(0x0000, 0x0A);
    // 1 day, 2 hours, 3 minutes and 4 seconds.
    cartridge.set_wall_clock(86400 + 2 * 3600 + 3 * 60 + 4);
    cartridge.write_rom(0x4000, 0x08);
    assert_eq!(cartridge.read_ram(0), 0);
    // Neither a lone 1 nor a 0 latches.
    cartridge.write_rom(0x6000, 0x01);
    assert_eq!(cartridge.read_ram(0), 0);
    cartridge.write_rom(0x6000, 0x00);
    assert_eq!(cartridge.read_ram(0), 0);
    cartridge.write_rom(0x7FFF, 0x01);
    assert_eq!(cartridge.read_ram(0), 4);
    cartridge.write_rom(0x4000, 0x09);
    assert_eq!(cartridge.read_ram(0), 3);
    cartridge.write_rom(0x4000, 0x0A);
    assert_eq!(cartridge.read_ram(0), 2);
    cartridge.write_rom(0x4000, 0x0B);
    assert_eq!(cartridge.read_ram(0), 0);
    // The snapshot stays until the next latch.
    cartridge.set_wall_clock(59);
    cartridge.write_rom(0x6000, 0x01);
    cartridge.write_rom(0x6000, 0x02);
    cartridge.write_rom(0x6000, 0x01);
    cartridge.write_rom(0x4000, 0x08);
    assert_eq!(cartridge.read_ram(0), 4);
    cartridge.write_rom(0x6000, 0x00);
    cartridge.write_rom(0x6000, 0x01);
    assert_eq!(cartridge.read_ram(0), 59);
}

#[test]
fn mbc3_ram_banks_and_clock_bank_writes() {
    let mut cartridge = create(image(0x13, 0x01, 0x03, 4), None).unwrap();
    cartridge.write_rom(0x0000, 0x0A);
    cartridge.write_rom(0x4000, 0x02);
    cartridge.write_ram(0x1FFF, 0x5A);
    assert_eq!(cartridge.read_ram(0x1FFF), 0x5A);
    cartridge.write_rom(0x4000, 0x01);
    assert_eq!(cartridge.read_ram(0x1FFF), 0x00);
    // Values between the RAM banks and the clock registers select nothing.
    cartridge.write_rom(0x4000, 0x05);
    assert_eq!(cartridge.read_ram(0x1FFF), 0x00);
    cartridge.write_rom(0x4000, 0x02);
    // A write while a clock register is mapped does not reach the RAM.
    cartridge.write_rom(0x4000, 0x08);
    cartridge.write_ram(0x1FFF, 0x77);
    cartridge.write_rom(0x4000, 0x02);
    assert_eq!(cartridge.read_ram(0x1FFF), 0x5A);
}

#[test]
fn mbc3_with_battery_takes_and_gives_save_data() {
    let mut save = vec![0u8; 0x2000];
    save[0x123] = 0xAB;
    let mut cartridge = create(image(0x13, 0x01, 0x02, 4), Some(save.clone())).unwrap();
    cartridge.write_rom(0x0000, 0x0A);
    assert_eq!(cartridge.read_ram(0x123), 0xAB);
    cartridge.write_ram(0x124, 0xCD);
    save[0x124] = 0xCD;
    assert_eq!(cartridge.save_data(), Some(save));
}

#[test]
fn save_data_of_wrong_length_is_dropped() {
    let mut cartridge = create(image(0x13, 0x01, 0x02, 4), Some(vec![0xEEu8; 0x1FFF])).unwrap();
    cartridge.write_rom(0x0000, 0x0A);
    assert_eq!(cartridge.read_ram(0x0000), 0x00);
    assert_eq!(cartridge.save_data(), Some(vec![0u8; 0x2000]));
}

#[test]
fn cartridge_without_battery_keeps_no_save() {
    let mut cartridge = create(image(0x12, 0x01, 0x02, 4), Some(vec![0xEEu8; 0x2000])).unwrap();
    cartridge.write_rom(0x0000, 0x0A);
    assert_eq!(cartridge.read_ram(0x0000), 0x00);
    assert_eq!(cartridge.save_data(), None);
    let plain = create(image(0x03, 0x01, 0x02, 4), Some(vec![0xEEu8; 0x2000])).unwrap();
    assert_eq!(plain.save_data(), None);
}

#[test]
fn save_file_helpers_fill_ram() {
    let mut ram = vec![1u8, 2, 3];
    load_new_ram(&mut ram, 2);
    assert_eq!(ram, vec![0u8; 0x4000]);
    let mut ram = Vec::new();
    try_read_save_file(Some(vec![7u8; 0x2000]), 1, &mut ram);
    assert_eq!(ram, vec![7u8; 0x2000]);
    try_read_save_file(Some(vec![7u8; 0x2001]), 1, &mut ram);
    assert_eq!(ram, vec![0u8; 0x2000]);
    try_read_save_file(None, 4, &mut ram);
    assert_eq!(ram, vec![0u8; 0x8000]);
}

#[test]
fn mbc5_has_nine_bank_bits_and_no_remap() {
    let mut cartridge = create(image(0x1B, 0x08, 0x04, 512), None).unwrap();
    assert_eq!(cartridge.read_rom(0x4000), 1);
    cartridge.write_rom(0x2000, 0x00);
    assert_eq!(cartridge.read_rom(0x4000), 0);
    assert_eq!(cartridge.read_rom(0x4001), 0);
    cartridge.write_rom(0x2FFF, 0xFF);
    assert_eq!(cartridge.read_rom(0x4000), 0xFF);
    cartridge.write_rom(0x3000, 0x01);
    assert_eq!(cartridge.read_rom(0x4000), 0xFF);
    assert_eq!(cartridge.read_rom(0x4001), 1);
    cartridge.write_rom(0x2000, 0x02);
    assert_eq!(cartridge.read_rom(0x4000), 0x02);
    assert_eq!(cartridge.read_rom(0x4001), 1);
    cartridge.write_rom(0x3000, 0xFE);
    assert_eq!(cartridge.read_rom(0x4001), 0);

    cartridge.write_rom(0x0000, 0x0A);
    cartridge.write_rom(0x4000, 0x0F);
    cartridge.write_ram(0x0000, 0x42);
    cartridge.write_rom(0x4000, 0x10);
    assert_eq!(cartridge.read_ram(0x0000), 0x42);
    cartridge.write_rom(0x4000, 0x00);
    assert_eq!(cartridge.read_ram(0x0000), 0x00);
    // MBC5 has no mode register.
    cartridge.write_rom(0x6000, 0x01);
    cartridge.write_rom(0x4000, 0x0F);
    assert_eq!(cartridge.read_ram(0x0000), 0x42);
}
