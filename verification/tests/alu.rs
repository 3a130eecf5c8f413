use gameboy_rs::gameboy::bits::bit;
use gameboy_rs::gameboy::bits::bit16;
use gameboy_rs::gameboy::bits::bit_weight;
use gameboy_rs::gameboy::bits::set_bit;
use gameboy_rs::gameboy::cpu::disassembler::disassembler_table::ArithmeticOp;
use gameboy_rs::gameboy::cpu::disassembler::disassembler_table::CBOp;
use gameboy_rs::gameboy::cpu::disassembler::disassembler_table::Register;
use gameboy_rs::gameboy::cpu::disassembler::disassembler_table::RegisterPair1;
use gameboy_rs::gameboy::cpu::disassembler::disassembler_table::RegisterPair2;
use gameboy_rs::gameboy::cpu::disassembler::PrefixedOp;
use gameboy_rs::gameboy::cpu::Cpu;

fn flags(cpu: &Cpu) -> (bool, bool, bool, bool) {
    (cpu.zero, cpu.subtract, cpu.half_carry, cpu.carry)
}

#[test]
fn bit_helpers() {
    assert_eq!(bit_weight(0), 1);
    assert_eq!(bit_weight(9), 512);
    assert_eq!(bit_weight(15), 32768);
    assert!(bit(0x80, 7));
    assert!(!bit(0x7F, 7));
    assert!(bit16(0x0200, 9));
    assert!(!bit16(0x01FF, 9));
    assert_eq!(set_bit(0x00, 3, true), 0x08);
    assert_eq!(set_bit(0xFF, 3, false), 0xF7);
    assert_eq!(set_bit(0x08, 3, true), 0x08);
    for v in 0..=255u8 {
        for n in 0..8u8 {
            assert_eq!(set_bit(v, n, true), v | (1 << n));
            assert_eq!(set_bit(v, n, false), v & !(1 << n));
            assert_eq!(bit(v, n), v & (1 << n) != 0);
        }
    }
}

#[test]
fn register_pairs() {
    let mut cpu = Cpu::new();
    cpu.set_bc(0x1234);
    cpu.set_de(0x5678);
    cpu.set_hl(0x9ABC);
    assert_eq!((cpu.b, cpu.c, cpu.d, cpu.e, cpu.h, cpu.l), (0x12, 0x34, 0x56, 0x78, 0x9A, 0xBC));
    assert_eq!(cpu.bc(), 0x1234);
    assert_eq!(cpu.de(), 0x5678);
    assert_eq!(cpu.hl(), 0x9ABC);
    assert_eq!(cpu.get_pair1(RegisterPair1::DE), 0x5678);
    cpu.set_pair1(RegisterPair1::SP, 0xFFFE);
    assert_eq!(cpu.sp, 0xFFFE);
    assert_eq!(cpu.get_register(Register::E), 0x78);
    cpu.set_register(Register::A, 0x42);
    assert_eq!(cpu.a, 0x42);
    cpu.set_register(Register::HLMem, 0x99);
    assert_eq!(cpu.get_register(Register::HLMem), 0);
}

#[test]
fn low_nibble_of_f_is_always_zero() {
    let mut cpu = Cpu::new();
    cpu.set_af(0x12FF);
    assert_eq!(cpu.a, 0x12);
    assert_eq!(cpu.f(), 0xF0);
    assert_eq!(cpu.af(), 0x12F0);
    cpu.set_pair2(RegisterPair2::AF, 0x005F);
    assert_eq!(cpu.f(), 0x50);
    assert_eq!(flags(&cpu), (false, true, false, true));
    cpu.set_af(0x0080);
    assert_eq!(flags(&cpu), (true, false, false, false));
    assert_eq!(cpu.get_pair2(RegisterPair2::AF), 0x0080);
}

#[test]
fn state_after_boot() {
    let cpu = Cpu::after_boot();
    assert_eq!(cpu.pc, 0x0100);
    assert_eq!(cpu.a, 0x01);
    assert_eq!(cpu.f(), 0xB0);
    assert_eq!(cpu.bc(), 0x0013);
    assert_eq!(cpu.de(), 0x00D8);
    assert_eq!(cpu.hl(), 0x014D);
    assert_eq!(cpu.sp, 0xFFFE);
}

#[test]
fn inc_and_dec() {
    let mut cpu = Cpu::new();
    cpu.carry = true;
    assert_eq!(cpu.inc(0x0F), 0x10);
    assert_eq!(flags(&cpu), (false, false, true, true));
    assert_eq!(cpu.inc(0xFF), 0x00);
    assert_eq!(flags(&cpu), (true, false, true, true));
    assert_eq!(cpu.inc(0x41), 0x42);
    assert_eq!(flags(&cpu), (false, false, false, true));
    assert_eq!(cpu.dec(0x10), 0x0F);
    assert_eq!(flags(&cpu), (false, true, true, true));
    assert_eq!(cpu.dec(0x01), 0x00);
    assert_eq!(flags(&cpu), (true, true, false, true));
    assert_eq!(cpu.dec(0x00), 0xFF);
    assert_eq!(flags(&cpu), (false, true, true, true));
}

#[test]
fn add_and_adc() {
    let mut cpu = Cpu::new();
    assert_eq!(cpu.add(0x3A, 0xC6), 0x00);
    assert_eq!(flags(&cpu), (true, false, true, true));
    assert_eq!(cpu.add(0x3C, 0x12), 0x4E);
    assert_eq!(flags(&cpu), (false, false, false, false));
    assert_eq!(cpu.add(0x08, 0x08), 0x10);
    assert_eq!(flags(&cpu), (false, false, true, false));
    cpu.a = 0xE1;
    cpu.carry = true;
    cpu.adc(0x0F);
    assert_eq!(cpu.a, 0xF1);
    assert_eq!(flags(&cpu), (false, false, true, false));
    cpu.a = 0xE1;
    cpu.carry = true;
    cpu.adc(0x1E);
    assert_eq!(cpu.a, 0x00);
    assert_eq!(flags(&cpu), (true, false, true, true));
    cpu.a = 0xFF;
    cpu.carry = true;
    cpu.adc(0xFF);
    assert_eq!(cpu.a, 0xFF);
    assert_eq!(flags(&cpu), (false, false, true, true));
}

#[test]
fn sub_sbc_and_cp() {
    let mut cpu = Cpu::new();
    cpu.a = 0x3E;
    cpu.sub(0x3E);
    assert_eq!(cpu.a, 0x00);
    assert_eq!(flags(&cpu), (true, true, false, false));
    cpu.a = 0x3E;
    cpu.sub(0x0F);
    assert_eq!(cpu.a, 0x2F);
    assert_eq!(flags(&cpu), (false, true, true, false));
    cpu.a = 0x3E;
    cpu.sub(0x40);
    assert_eq!(cpu.a, 0xFE);
    assert_eq!(flags(&cpu), (false, true, false, true));
    cpu.a = 0x3B;
    cpu.carry = true;
    cpu.sbc(0x2A);
    assert_eq!(cpu.a, 0x10);
    assert_eq!(flags(&cpu), (false, true, false, false));
    cpu.a = 0x3B;
    cpu.carry = true;
    cpu.sbc(0x4F);
    assert_eq!(cpu.a, 0xEB);
    assert_eq!(flags(&cpu), (false, true, true, true));
    cpu.a = 0x00;
    cpu.carry = true;
    cpu.sbc(0xFF);
    assert_eq!(cpu.a, 0x00);
    assert_eq!(flags(&cpu), (true, true, true, true));
    cpu.a = 0x3C;
    cpu.cp(0x2F);
    assert_eq!(cpu.a, 0x3C);
    assert_eq!(flags(&cpu), (false, true, true, false));
    cpu.cp(0x3C);
    assert_eq!(flags(&cpu), (true, true, false, false));
    cpu.cp(0x40);
    assert_eq!(flags(&cpu), (false, true, false, true));
}

#[test]
fn logic() {
    let mut cpu = Cpu::new();
    cpu.a = 0x5A;
    cpu.carry = true;
    cpu.and(0x3F);
    assert_eq!(cpu.a, 0x1A);
    assert_eq!(flags(&cpu), (false, false, true, false));
    cpu.and(0x00);
    assert_eq!(flags(&cpu), (true, false, true, false));
    cpu.a = 0x5A;
    cpu.or(0x0F);
    assert_eq!(cpu.a, 0x5F);
    assert_eq!(flags(&cpu), (false, false, false, false));
    cpu.xor(0x5F);
    assert_eq!(cpu.a, 0x00);
    assert_eq!(flags(&cpu), (true, false, false, false));
    cpu.a = 0x10;
    cpu.arithmetic(ArithmeticOp::ADD, 0xF0);
    assert_eq!(cpu.a, 0x00);
    assert_eq!(flags(&cpu), (true, false, false, true));
    cpu.arithmetic(ArithmeticOp::XOR, 0xFF);
    assert_eq!(cpu.a, 0xFF);
}

#[test]
fn sixteen_bit_addition_uses_bit_eleven_for_half_carry() {
    let mut cpu = Cpu::new();
    cpu.zero = true;
    assert_eq!(cpu.add_hl_r16(0x8A23, 0x0605), 0x9028);
    assert_eq!(flags(&cpu), (true, false, true, false));
    assert_eq!(cpu.add_hl_r16(0x8A23, 0x8A23), 0x1446);
    assert_eq!(flags(&cpu), (true, false, true, true));
    assert_eq!(cpu.add_hl_r16(0x00FF, 0x0001), 0x0100);
    assert_eq!(flags(&cpu), (true, false, false, false));
}

#[test]
fn stack_pointer_offsets() {
    let mut cpu = Cpu::new();
    cpu.zero = true;
    cpu.sp = 0xFFF8;
    assert_eq!(cpu.sp_offset(0x02), 0xFFFA);
    assert_eq!(flags(&cpu), (false, false, false, false));
    cpu.sp = 0x00FF;
    assert_eq!(cpu.sp_offset(0x01), 0x0100);
    assert_eq!(flags(&cpu), (false, false, true, true));
    cpu.sp = 0x0000;
    assert_eq!(cpu.sp_offset(0xFF), 0xFFFF);
    assert_eq!(flags(&cpu), (false, false, false, false));
    cpu.sp = 0x0001;
    assert_eq!(cpu.sp_offset(0xFF), 0x0000);
    assert_eq!(flags(&cpu), (false, false, true, true));
}

#[test]
fn rotates_and_shifts() {
    let mut cpu = Cpu::new();
    assert_eq!(cpu.rlc(0x85), 0x0B);
    assert_eq!(flags(&cpu), (false, false, false, true));
    assert_eq!(cpu.rlc(0x00), 0x00);
    assert_eq!(flags(&cpu), (true, false, false, false));
    assert_eq!(cpu.rrc(0x01), 0x80);
    assert_eq!(flags(&cpu), (false, false, false, true));
    cpu.carry = false;
    assert_eq!(cpu.rl(0x80), 0x00);
    assert_eq!(flags(&cpu), (true, false, false, true));
    assert_eq!(cpu.rl(0x11), 0x23);
    assert_eq!(flags(&cpu), (false, false, false, false));
    cpu.carry = true;
    assert_eq!(cpu.rr(0x01), 0x80);
    assert_eq!(flags(&cpu), (false, false, false, true));
    assert_eq!(cpu.sla(0xFF), 0xFE);
    assert_eq!(flags(&cpu), (false, false, false, true));
    assert_eq!(cpu.sra(0x8A), 0xC5);
    assert_eq!(flags(&cpu), (false, false, false, false));
    assert_eq!(cpu.sra(0x01), 0x00);
    assert_eq!(flags(&cpu), (true, false, false, true));
    assert_eq!(cpu.swap(0xF1), 0x1F);
    assert_eq!(flags(&cpu), (false, false, false, false));
    assert_eq!(cpu.srl(0xFF), 0x7F);
    assert_eq!(flags(&cpu), (false, false, false, true));
    assert_eq!(cpu.rotate(CBOp::SWAP, 0x00), 0x00);
    assert!(cpu.zero);
}

#[test]
fn accumulator_rotates_clear_zero() {
    let mut cpu = Cpu::new();
    cpu.a = 0x00;
    cpu.zero = true;
    cpu.rotate_a(CBOp::RLC);
    assert_eq!(cpu.a, 0x00);
    assert_eq!(flags(&cpu), (false, false, false, false));
    cpu.a = 0x80;
    cpu.rotate_a(CBOp::RL);
    assert_eq!(cpu.a, 0x00);
    assert_eq!(flags(&cpu), (false, false, false, true));
    cpu.rotate_a(CBOp::RR);
    assert_eq!(cpu.a, 0x80);
    assert_eq!(flags(&cpu), (false, false, false, false));
    cpu.a = 0x01;
    cpu.rotate_a(CBOp::RRC);
    assert_eq!(cpu.a, 0x80);
    assert_eq!(flags(&cpu), (false, false, false, true));
}

#[test]
fn bit_operations() {
    let mut cpu = Cpu::new();
    cpu.carry = true;
    cpu.bit(7, 0x80);
    assert_eq!(flags(&cpu), (false, false, true, true));
    cpu.bit(4, 0xEF);
    assert_eq!(flags(&cpu), (true, false, true, true));
    assert_eq!(cpu.prefixed(PrefixedOp::ResetBit(0), 0xFF), 0xFE);
    assert_eq!(cpu.prefixed(PrefixedOp::SetBit(7), 0x00), 0x80);
    assert_eq!(cpu.prefixed(PrefixedOp::TestBit(0), 0x01), 0x01);
    assert!(!cpu.zero);
    assert_eq!(cpu.prefixed(PrefixedOp::Rotate(CBOp::SRL), 0x02), 0x01);
}

#[test]
fn decimal_adjust() {
    let mut cpu = Cpu::new();
    // 0x45 + 0x38 = 0x7D, which is 83 in decimal.
    cpu.a = cpu.add(0x45, 0x38);
    cpu.daa();
    assert_eq!(cpu.a, 0x83);
    assert_eq!(flags(&cpu), (false, false, false, false));
    // 0x83 - 0x38 = 0x4B, which is 45 in decimal.
    cpu.sub(0x38);
    cpu.daa();
    assert_eq!(cpu.a, 0x45);
    assert_eq!(flags(&cpu), (false, true, false, false));
    // 0x99 + 0x01 = 0x9A, which is 100: zero with a carry.
    cpu.a = cpu.add(0x99, 0x01);
    cpu.daa();
    assert_eq!(cpu.a, 0x00);
    assert_eq!(flags(&cpu), (true, false, false, true));
    // 0x00 - 0x01 = 0xFF with borrow and half borrow, which is 99.
    cpu.a = 0x00;
    cpu.sub(0x01);
    cpu.daa();
    assert_eq!(cpu.a, 0x99);
    assert_eq!(flags(&cpu), (false, true, false, true));
    for a in 0..100u8 {
        for b in 0..100u8 {
            let mut cpu = Cpu::new();
            let packed = |n: u8| (n / 10) * 16 + n % 10;
            cpu.a = cpu.add(packed(a), packed(b));
            cpu.daa();
            assert_eq!(cpu.a, packed((a + b) % 100));
            assert_eq!(cpu.carry, a + b >= 100);
        }
    }
}
