use gameboy_rs::gameboy::cartridge::create;
use gameboy_rs::gameboy::mmu::Mmu;
use gameboy_rs::gameboy::ppu::bg_fetcher::BgFetcher;
use gameboy_rs::gameboy::ppu::bg_fetcher::BgFifo;
use gameboy_rs::gameboy::ppu::bg_fetcher::FetchMode;
use gameboy_rs::gameboy::ppu::color_at;
use gameboy_rs::gameboy::ppu::sprite_fetcher::SpriteFetcher;
use gameboy_rs::gameboy::ppu::FifoPixel;
use gameboy_rs::gameboy::ppu::LcdControlFlag;
use gameboy_rs::gameboy::ppu::Ppu;
use gameboy_rs::gameboy::ppu::PpuMode;
use gameboy_rs::gameboy::ppu::Sprite;
use gameboy_rs::gameboy::spu::Spu;

fn bus() -> Mmu {
    let cartridge = create(vec![0u8; 0x8000], None).unwrap();
    Mmu::with_ram(cartridge, Spu::new(), None, vec![0u8; 0x2000])
}

/// A picture unit that has been at rest with the LCD off, and a bus on
/// which the LCD has just been switched on with the given LCDC.
fn started(mmu: &mut Mmu, lcdc: u8) -> Ppu {
    let mut ppu = Ppu::new();
    ppu.tick(mmu);
    assert!(ppu.reset);
    mmu.write_byte(0xFF40, lcdc);
    ppu
}

fn tick_until_line(ppu: &mut Ppu, mmu: &mut Mmu, line: u8) -> u32 {
    let mut clocks = 0;
    while mmu.io(0x44) != line {
        ppu.tick(mmu);
        clocks += 1;
        assert!(clocks < 200_000);
    }
    clocks
}

#[test]
fn modes_and_flags() {
    assert_eq!(PpuMode::from_u8(0), PpuMode::HBlank);
    assert_eq!(PpuMode::from_u8(1), PpuMode::VBlank);
    assert_eq!(PpuMode::from_u8(2), PpuMode::OAM);
    assert_eq!(PpuMode::from_u8(3), PpuMode::VRAM);
    assert_eq!(PpuMode::VRAM.into_u8(), 3);
    assert!(LcdControlFlag::LCDDisplayEnable.is_set(0x80));
    assert!(!LcdControlFlag::LCDDisplayEnable.is_set(0x7F));
    assert!(LcdControlFlag::BGEnable.is_set(0x01));
    assert!(LcdControlFlag::OBJSize.is_set(0x04));
    assert!(LcdControlFlag::WindowTileMapAddress.is_set(0x40));
    assert_eq!(LcdControlFlag::WindowEnable.bit_index(), 5);
    let sprite = Sprite::default();
    assert_eq!((sprite.x, sprite.y, sprite.tile_num), (0, 0, 0));
    assert_eq!(color_at(0b1000_0000, 0b1000_0000, 7), 3);
    assert_eq!(color_at(0b1000_0000, 0b0000_0000, 7), 1);
    assert_eq!(color_at(0b0000_0000, 0b0000_0001, 0), 2);
    assert_eq!(color_at(0b1111_1110, 0b1111_1110, 0), 0);
}

#[test]
fn lcd_off_blanks_the_frame() {
    let mut mmu = bus();
    let mut ppu = Ppu::new();
    mmu.set_io(0x44, 17);
    mmu.set_io(0x41, 0x03);
    ppu.tick(&mut mmu);
    assert!(ppu.reset);
    assert_eq!(ppu.mode, PpuMode::HBlank);
    assert_eq!(ppu.frame_buffer, vec![255u8; 160 * 144]);
    assert_eq!(mmu.io(0x44), 0);
    assert_eq!(mmu.io(0x41), 0x00);
    for _ in 0..1000 {
        ppu.tick(&mut mmu);
    }
    assert_eq!(ppu.line_clock_cycles, 0);
    assert_eq!(mmu.io(0x44), 0);
}

#[test]
fn first_line_after_lcd_on_is_cut_short() {
    let mut mmu = bus();
    let mut ppu = started(&mut mmu, 0x91);
    let mut clocks = 0;
    let mut mode_3_from = 0;
    let mut mode_0_from = 0;
    while mmu.io(0x44) == 0 {
        ppu.tick(&mut mmu);
        clocks += 1;
        if mode_3_from == 0 && mmu.io(0x41) % 4 == 3 {
            mode_3_from = ppu.line_clock_cycles;
            assert!(mmu.lock_vram);
        }
        if mode_3_from != 0 && mode_0_from == 0 && mmu.io(0x41) % 4 == 0 {
            mode_0_from = ppu.line_clock_cycles;
            assert!(!mmu.lock_vram);
        }
    }
    assert_eq!(clocks, 450);
    assert_eq!(mode_3_from, 83);
    assert_eq!(mode_0_from, 257);
    assert_eq!(ppu.mode, PpuMode::OAM);
    assert!(!ppu.power_on_line_0);
    assert!(mmu.lock_oam);
}

#[test]
fn a_scanline_is_80_cycles_of_mode_2_and_456_in_all() {
    let mut mmu = bus();
    let mut ppu = started(&mut mmu, 0x91);
    tick_until_line(&mut ppu, &mut mmu, 1);
    for line in 1..10u8 {
        let mut in_mode = [0u32; 4];
        while mmu.io(0x44) == line {
            in_mode[ppu.mode.into_u8() as usize] += 1;
            ppu.tick(&mut mmu);
        }
        assert_eq!(in_mode[2], 80);
        assert_eq!(in_mode[3], 172);
        assert_eq!(in_mode[0], 456 - 80 - 172);
        assert_eq!(in_mode[1], 0);
    }
}

#[test]
fn stat_shows_the_mode_four_cycles_late() {
    let mut mmu = bus();
    let mut ppu = started(&mut mmu, 0x91);
    tick_until_line(&mut ppu, &mut mmu, 1);
    assert_eq!(mmu.io(0x41) % 4, 0);
    for _ in 0..3 {
        ppu.tick(&mut mmu);
        assert_eq!(mmu.io(0x41) % 4, 0);
    }
    ppu.tick(&mut mmu);
    assert_eq!(mmu.io(0x41) % 4, 2);
    for _ in 0..76 {
        ppu.tick(&mut mmu);
    }
    assert_eq!(ppu.mode, PpuMode::VRAM);
    assert!(mmu.lock_vram);
    assert_eq!(mmu.io(0x41) % 4, 2);
    for _ in 0..4 {
        ppu.tick(&mut mmu);
    }
    assert_eq!(mmu.io(0x41) % 4, 3);
}

#[test]
fn a_frame_is_70224_cycles() {
    let mut mmu = bus();
    let mut ppu = started(&mut mmu, 0x91);
    let mut clocks: u32 = 0;
    while !ppu.draw_flag {
        ppu.tick(&mut mmu);
        clocks += 1;
    }
    // The first frame misses the six cycles that its first line is short.
    assert_eq!(clocks, 144 * 456 - 6);
    assert_eq!(mmu.io(0x44), 144);
    for _ in 0..3 {
        ppu.draw_flag = false;
        let mut clocks: u32 = 0;
        while !ppu.draw_flag {
            ppu.tick(&mut mmu);
            clocks += 1;
        }
        assert_eq!(clocks, 70224);
    }
}

#[test]
fn vblank_requests_its_interrupt_once_a_frame() {
    let mut mmu = bus();
    let mut ppu = started(&mut mmu, 0x91);
    tick_until_line(&mut ppu, &mut mmu, 144);
    assert_eq!(ppu.mode, PpuMode::VBlank);
    assert_eq!(mmu.interupts.flags & 0x01, 0);
    for _ in 0..4 {
        ppu.tick(&mut mmu);
    }
    assert_eq!(mmu.interupts.flags & 0x01, 1);
    assert_eq!(mmu.io(0x41) % 4, 1);
    mmu.interupts.flags = 0;
    tick_until_line(&mut ppu, &mut mmu, 153);
    assert_eq!(mmu.interupts.flags & 0x01, 0);
    // LY goes back to 0 four cycles into scanline 153.
    for _ in 0..3 {
        ppu.tick(&mut mmu);
        assert_eq!(mmu.io(0x44), 153);
    }
    ppu.tick(&mut mmu);
    assert_eq!(mmu.io(0x44), 0);
    assert_eq!(ppu.mode, PpuMode::VBlank);
    for _ in 0..452 {
        ppu.tick(&mut mmu);
    }
    assert_eq!(ppu.mode, PpuMode::OAM);
    assert_eq!(mmu.io(0x44), 0);
    assert_eq!(ppu.frame_clock_cycles, 0);
}

#[test]
fn stat_interrupt_on_mode_2_and_on_line_match() {
    let mut mmu = bus();
    let mut ppu = started(&mut mmu, 0x91);
    tick_until_line(&mut ppu, &mut mmu, 1);
    mmu.write_byte(0xFF45, 3);
    mmu.write_byte(0xFF41, 0x40);
    mmu.interupts.flags = 0;
    tick_until_line(&mut ppu, &mut mmu, 2);
    assert_eq!(mmu.interupts.flags & 0x02, 0);
    // The line rises in the cycle in which LY comes to match; STAT shows the
    // match from the fourth cycle of the scanline on.
    tick_until_line(&mut ppu, &mut mmu, 3);
    assert_eq!(mmu.interupts.flags & 0x02, 0x02);
    for _ in 0..4 {
        ppu.tick(&mut mmu);
    }
    assert_eq!(mmu.io(0x41) & 0x04, 0x04);
    mmu.interupts.flags = 0;
    tick_until_line(&mut ppu, &mut mmu, 4);
    for _ in 0..8 {
        ppu.tick(&mut mmu);
    }
    assert_eq!(mmu.interupts.flags & 0x02, 0);
    assert_eq!(mmu.io(0x41) & 0x04, 0);
}

fn fill_tile(mmu: &mut Mmu, tile: u16, low: u8, high: u8) {
    for row in 0..8u16 {
        mmu.write_byte(0x8000 + tile * 16 + row * 2, low);
        mmu.write_byte(0x8000 + tile * 16 + row * 2 + 1, high);
    }
}

fn draw_two_frames(ppu: &mut Ppu, mmu: &mut Mmu) {
    for _ in 0..2 {
        ppu.draw_flag = false;
        let mut clocks: u32 = 0;
        while !ppu.draw_flag {
            ppu.tick(mmu);
            clocks += 1;
            assert!(clocks <= 70224);
        }
    }
}

#[test]
fn background_is_drawn_through_its_palette() {
    let mut mmu = bus();
    fill_tile(&mut mmu, 0, 0xFF, 0x00);
    mmu.write_byte(0xFF47, 0xE4);
    let mut ppu = started(&mut mmu, 0x91);
    draw_two_frames(&mut ppu, &mut mmu);
    assert_eq!(ppu.frame_buffer, vec![192u8; 160 * 144]);
}

#[test]
fn disabled_background_shows_color_zero() {
    let mut mmu = bus();
    fill_tile(&mut mmu, 0, 0xFF, 0xFF);
    mmu.write_byte(0xFF47, 0xE4);
    let mut ppu = started(&mut mmu, 0x90);
    draw_two_frames(&mut ppu, &mut mmu);
    assert_eq!(ppu.frame_buffer, vec![255u8; 160 * 144]);
}

#[test]
fn tile_map_and_scroll() {
    let mut mmu = bus();
    fill_tile(&mut mmu, 0, 0x00, 0x00);
    fill_tile(&mut mmu, 1, 0xFF, 0xFF);
    // Tile 1 at column 2 of row 1 of the map.
    mmu.write_byte(0x9800 + 32 + 2, 1);
    mmu.write_byte(0xFF47, 0xE4);
    mmu.write_byte(0xFF43, 3);
    mmu.write_byte(0xFF42, 2);
    let mut ppu = started(&mut mmu, 0x91);
    draw_two_frames(&mut ppu, &mut mmu);
    for y in 0..144usize {
        for x in 0..160usize {
            let inside = (13..21).contains(&x) && (6..14).contains(&y);
            let expected = if inside { 0 } else { 255 };
            assert_eq!(ppu.frame_buffer[y * 160 + x], expected, "at {},{}", x, y);
        }
    }
}

#[test]
fn signed_tile_numbers() {
    let mut mmu = bus();
    // With bit 4 of LCDC clear, tile number 0 is the tile at 0x9000.
    fill_tile(&mut mmu, 256, 0xFF, 0x00);
    // And tile number 0x80 the one at 0x8800.
    fill_tile(&mut mmu, 128, 0x00, 0xFF);
    mmu.write_byte(0x9800, 0x80);
    mmu.write_byte(0xFF47, 0xE4);
    let mut ppu = started(&mut mmu, 0x81);
    draw_two_frames(&mut ppu, &mut mmu);
    assert_eq!(ppu.frame_buffer[0], 96);
    assert_eq!(ppu.frame_buffer[7 * 160 + 7], 96);
    assert_eq!(ppu.frame_buffer[8], 192);
    assert_eq!(ppu.frame_buffer[8 * 160], 192);
    assert_eq!(
        BgFetcher::get_adjusted_tile_index(&mmu, 0x9800, true),
        128
    );
    assert_eq!(
        BgFetcher::get_adjusted_tile_index(&mmu, 0x9801, true),
        256
    );
    assert_eq!(
        BgFetcher::get_adjusted_tile_index(&mmu, 0x9800, false),
        128
    );
    assert_eq!(BgFetcher::get_bg_map_start_addr(0x08), 0x9C00);
    assert_eq!(BgFetcher::get_bg_map_start_addr(0x00), 0x9800);
    assert_eq!(BgFetcher::get_window_map_start_addr(0x40), 0x9C00);
    assert_eq!(BgFetcher::get_window_map_start_addr(0x08), 0x9800);
}

#[test]
fn sprite_over_background() {
    let mut mmu = bus();
    fill_tile(&mut mmu, 0, 0xFF, 0x00);
    fill_tile(&mut mmu, 1, 0x00, 0xFF);
    mmu.write_byte(0xFF47, 0xE4);
    mmu.write_byte(0xFF48, 0xE4);
    // A sprite with its top left corner at column 4 of row 2.
    mmu.write_byte(0xFE00, 18);
    mmu.write_byte(0xFE01, 12);
    mmu.write_byte(0xFE02, 1);
    mmu.write_byte(0xFE03, 0x00);
    let mut ppu = started(&mut mmu, 0x93);
    draw_two_frames(&mut ppu, &mut mmu);
    for y in 0..144usize {
        for x in 0..160usize {
            let inside = (4..12).contains(&x) && (2..10).contains(&y);
            let expected = if inside { 96 } else { 192 };
            assert_eq!(ppu.frame_buffer[y * 160 + x], expected, "at {},{}", x, y);
        }
    }
}

#[test]
fn sprite_behind_background_shows_only_over_color_zero() {
    let mut mmu = bus();
    // The left half of every background tile is color 0, the right color 1.
    fill_tile(&mut mmu, 0, 0x0F, 0x00);
    fill_tile(&mut mmu, 1, 0xFF, 0xFF);
    mmu.write_byte(0xFF47, 0xE4);
    mmu.write_byte(0xFF48, 0xE4);
    mmu.write_byte(0xFE00, 16);
    mmu.write_byte(0xFE01, 8);
    mmu.write_byte(0xFE02, 1);
    mmu.write_byte(0xFE03, 0x80);
    let mut ppu = started(&mut mmu, 0x93);
    draw_two_frames(&mut ppu, &mut mmu);
    for x in 0..4usize {
        assert_eq!(ppu.frame_buffer[x], 0);
    }
    for x in 4..8usize {
        assert_eq!(ppu.frame_buffer[x], 192);
    }
    assert_eq!(ppu.frame_buffer[8], 255);
}

#[test]
fn sprites_are_searched_in_order_of_x_and_capped_at_ten() {
    let mut mmu = bus();
    let xs: [u8; 12] = [50, 20, 30, 20, 90, 80, 70, 60, 10, 100, 110, 5];
    for (i, x) in xs.iter().enumerate() {
        let base = 0xFE00 + (i as u16) * 4;
        mmu.write_byte(base, 16 + 5);
        mmu.write_byte(base + 1, *x);
        mmu.write_byte(base + 2, i as u8);
    }
    // One that is parked at x = 0 and one on another line do not count.
    mmu.write_byte(0xFE00 + 12 * 4, 16 + 5);
    mmu.write_byte(0xFE00 + 13 * 4, 16 + 40);
    mmu.write_byte(0xFE00 + 13 * 4 + 1, 1);
    let mut ppu = started(&mut mmu, 0x93);
    tick_until_line(&mut ppu, &mut mmu, 5);
    while ppu.mode != PpuMode::VRAM {
        ppu.tick(&mut mmu);
    }
    let found: Vec<(u8, u16)> =
        ppu.fifo_sprite_buffer.iter().map(|sprite| (sprite.x, sprite.tile_num)).collect();
    assert_eq!(
        found,
        vec![
            (10, 8),
            (20, 1),
            (20, 3),
            (30, 2),
            (50, 0),
            (60, 7),
            (70, 6),
            (80, 5),
            (90, 4),
            (100, 9)
        ]
    );
}

#[test]
fn background_fifo_hands_out_pixels_from_the_left() {
    let mut fifo = BgFifo::new();
    assert_eq!(fifo.len, 0);
    fifo.low = 0b1010_0000;
    fifo.high = 0b1100_0000;
    fifo.len = 8;
    assert_eq!(fifo.pop_front(), 3);
    assert_eq!(fifo.pop_front(), 2);
    assert_eq!(fifo.pop_front(), 1);
    assert_eq!(fifo.pop_front(), 0);
    assert_eq!(fifo.len, 4);
    fifo.clear();
    assert_eq!(fifo.len, 0);
}

#[test]
fn background_fetcher_takes_eight_cycles_for_a_tile() {
    let mut mmu = bus();
    fill_tile(&mut mmu, 0, 0x3C, 0x7E);
    mmu.set_io(0x40, 0x10);
    let mut fetcher = BgFetcher::new();
    let mut fifo = BgFifo::new();
    for cycle in 1..8u8 {
        fetcher.tick(&mmu, &mut fifo, 0);
        assert_eq!(fetcher.cycle, cycle);
        assert_eq!(fifo.len, 0);
    }
    fetcher.tick(&mmu, &mut fifo, 0);
    assert_eq!(fifo.len, 8);
    assert_eq!((fifo.low, fifo.high), (0x3C, 0x7E));
    assert_eq!(fetcher.cycle, 0);
    assert_eq!(fetcher.tile_counter, 1);
    // A FIFO that still holds pixels makes the fetcher wait.
    for _ in 0..20 {
        fetcher.tick(&mmu, &mut fifo, 0);
    }
    assert_eq!(fetcher.tile_counter, 1);
    assert_eq!(fetcher.cycle, 20);
    fetcher.reset();
    assert_eq!(fetcher.cycle, 0);
    assert_eq!(fetcher.mode, FetchMode::Background);
}

#[test]
fn sprite_fetcher_mixes_behind_earlier_pixels() {
    let mut mmu = bus();
    fill_tile(&mut mmu, 2, 0xFF, 0x00);
    let sprite = Sprite {
        y: 16,
        x: 8,
        tile_num: 2,
        sprite_palette: 1,
        xflip: false,
        yflip: false,
        belowbg: true,
    };
    let earlier = FifoPixel { sprite_palette: 0, sprite_color_bit: 3, belowbg: false };
    let clear = FifoPixel { sprite_palette: 0, sprite_color_bit: 0, belowbg: false };
    let mut fifo = vec![earlier, clear, earlier];
    let mut fetcher = SpriteFetcher::new();
    for _ in 0..5 {
        fetcher.tick(&mmu, &mut fifo, &sprite);
        assert_eq!(fifo.len(), 3);
    }
    fetcher.tick(&mmu, &mut fifo, &sprite);
    assert_eq!(fetcher.cycle, 6);
    let colors: Vec<(u8, u8)> =
        fifo.iter().map(|pixel| (pixel.sprite_palette, pixel.sprite_color_bit)).collect();
    assert_eq!(colors, vec![(0, 3), (1, 1), (0, 3), (1, 1), (1, 1), (1, 1), (1, 1), (1, 1)]);
    assert!(fifo[1].belowbg);
}

#[test]
fn sprite_left_of_the_screen_is_clipped() {
    let mut mmu = bus();
    fill_tile(&mut mmu, 0, 0xFF, 0x00);
    fill_tile(&mut mmu, 1, 0x00, 0xFF);
    mmu.write_byte(0xFF47, 0xE4);
    mmu.write_byte(0xFF48, 0xE4);
    // Only the right three columns of the sprite are on the screen.
    mmu.write_byte(0xFE00, 16);
    mmu.write_byte(0xFE01, 3);
    mmu.write_byte(0xFE02, 1);
    let mut ppu = started(&mut mmu, 0x93);
    draw_two_frames(&mut ppu, &mut mmu);
    for x in 0..3usize {
        assert_eq!(ppu.frame_buffer[x], 96);
        assert_eq!(ppu.frame_buffer[7 * 160 + x], 96);
    }
    assert_eq!(ppu.frame_buffer[3], 192);
    assert_eq!(ppu.frame_buffer[8 * 160], 192);
}
