//! The CPU: register file, flag arithmetic, and the scheduler that runs each
//! instruction as a queue of micro-steps, one machine cycle of four master
//! clocks per `Standard` step.
use vstd::prelude::*;

pub mod disassembler;
pub mod runs;
pub mod scheduler;

use crate::gameboy::bits::bit;
use crate::gameboy::bits::has_bit;
use crate::gameboy::bits::set_bit;
use crate::gameboy::bits::with_bit;
use crate::gameboy::cpu::disassembler::disassembler_table::ArithmeticOp;
use crate::gameboy::cpu::disassembler::disassembler_table::CBOp;
use crate::gameboy::cpu::disassembler::disassembler_table::Register;
use crate::gameboy::cpu::disassembler::disassembler_table::RegisterPair1;
use crate::gameboy::cpu::disassembler::disassembler_table::RegisterPair2;
use crate::gameboy::cpu::disassembler::MicroOp;
use crate::gameboy::cpu::disassembler::Pointer;
use crate::gameboy::cpu::disassembler::PrefixedOp;
use crate::gameboy::interupt::highest_pending;
use crate::gameboy::interupt::Interupt;
use crate::gameboy::mmu::next_addr;
use crate::gameboy::mmu::Mmu;
use crate::gameboy::mmu::MmuView;

verus! {

/// Which queue of steps the CPU is working through.
#[derive(Clone, Copy, PartialEq, Eq, Structural, Debug)]
pub enum InstructionKind {
    /// The queue of an unprefixed opcode.
    Plain,
    /// The queue of an opcode behind the prefix byte.
    Prefixed,
    /// The queue that services an interrupt.
    Interrupt,
}

/// The instruction in progress: its queue, and the position in the queue of
/// the next step to run.
#[derive(Clone, Copy, Debug)]
pub struct Current {
    pub kind: InstructionKind,
    pub opcode: u8,
    pub position: usize,
}

/// The state of the CPU.
///
/// The four flags live in their own fields; the F register is put together
/// from them when it is read, so its low nibble is always zero.
#[derive(Clone, Copy, Debug)]
pub struct Cpu {
    pub a: u8,
    pub b: u8,
    pub c: u8,
    pub d: u8,
    pub e: u8,
    pub h: u8,
    pub l: u8,
    /// Z, bit 7 of F.
    pub zero: bool,
    /// N, bit 6 of F: the last operation was a subtraction.
    pub subtract: bool,
    /// H, bit 5 of F.
    pub half_carry: bool,
    /// C, bit 4 of F.
    pub carry: bool,
    pub pc: u16,
    pub sp: u16,
    pub operand8: u8,
    pub operand16: u16,
    pub temp_val8: u8,
    pub temp_val_16: u16,
    pub instruction: Option<Current>,
    /// Master clocks spent on the machine cycle in progress.
    pub machine_cycles_taken_for_current_step: u8,
    pub stopped: bool,
    pub halted: bool,
    /// Set while the CPU sits in HALT with interrupts disabled and waits for
    /// any request to wake it.
    pub halted_waiting_for_interupt_pending: bool,
    /// Set when HALT was run with interrupts disabled and one pending: the
    /// next opcode fetch leaves PC where it is.
    pub halt_bug: bool,
    /// Set by EI: interrupts are enabled when the next opcode is fetched.
    pub ei_delay: bool,
    /// The opcode that names no instruction and brought the CPU to a stop.
    pub trap: Option<u8>,
}

/// A 16-bit value from its two halves.
pub open spec fn word(high: u8, low: u8) -> u16 {
    (high * 256 + low) as u16
}

/// An 8-bit immediate read as a two's complement offset, as a 16-bit value
/// to add modulo 0x10000.
pub open spec fn sign_extended(val: u8) -> u16 {
    if val < 128 {
        val as u16
    } else {
        (0xFF00 + val) as u16
    }
}

/// The sum of two 16-bit values modulo 0x10000.
pub open spec fn wrapping_sum(x: u16, y: u16) -> u16 {
    if x + y >= 0x10000 {
        (x + y - 0x10000) as u16
    } else {
        (x + y) as u16
    }
}

/// The difference of two 16-bit values modulo 0x10000.
pub open spec fn wrapping_difference(x: u16, y: u16) -> u16 {
    if x < y {
        (x - y + 0x10000) as u16
    } else {
        (x - y) as u16
    }
}

/// The sum of two bytes modulo 0x100.
pub open spec fn wrapping_sum8(x: int, y: int) -> u8 {
    ((x + y) % 256) as u8
}

impl Cpu {
    /// The CPU at power-on, about to run the boot image from address 0.
    pub open spec fn initial() -> Cpu {
        Cpu {
            a: 0,
            b: 0,
            c: 0,
            d: 0,
            e: 0,
            h: 0,
            l: 0,
            zero: false,
            subtract: false,
            half_carry: false,
            carry: false,
            pc: 0,
            sp: 0,
            operand8: 0,
            operand16: 0,
            temp_val8: 0,
            temp_val_16: 0,
            instruction: None,
            machine_cycles_taken_for_current_step: 0,
            stopped: false,
            halted: false,
            halted_waiting_for_interupt_pending: false,
            halt_bug: false,
            ei_delay: false,
            trap: None,
        }
    }

    /// The CPU as the boot image leaves it: PC at 0x0100, A = 0x01,
    /// F = 0xB0, BC = 0x0013, DE = 0x00D8, HL = 0x014D, SP = 0xFFFE.
    pub open spec fn booted() -> Cpu {
        Cpu {
            a: 0x01,
            b: 0x00,
            c: 0x13,
            d: 0x00,
            e: 0xD8,
            h: 0x01,
            l: 0x4D,
            zero: true,
            subtract: false,
            half_carry: true,
            carry: true,
            pc: 0x0100,
            sp: 0xFFFE,
            ..Self::initial()
        }
    }

    /// The F register: Z in bit 7, N in bit 6, H in bit 5, C in bit 4.
    pub open spec fn flags_byte(self) -> u8 {
        ((if self.zero {
            128int
        } else {
            0int
        }) + (if self.subtract {
            64int
        } else {
            0int
        }) + (if self.half_carry {
            32int
        } else {
            0int
        }) + (if self.carry {
            16int
        } else {
            0int
        })) as u8
    }

    pub open spec fn af_pair(self) -> u16 {
        word(self.a, self.flags_byte())
    }

    pub open spec fn bc_pair(self) -> u16 {
        word(self.b, self.c)
    }

    pub open spec fn de_pair(self) -> u16 {
        word(self.d, self.e)
    }

    pub open spec fn hl_pair(self) -> u16 {
        word(self.h, self.l)
    }

    /// The CPU with the four flags set as given.
    pub open spec fn with_flags(self, zero: bool, subtract: bool, half_carry: bool, carry: bool) -> Cpu {
        Cpu { zero, subtract, half_carry, carry, ..self }
    }

    /// The CPU with AF set; the low nibble of F is dropped.
    pub open spec fn with_af(self, val: u16) -> Cpu {
        Cpu {
            a: (val / 256) as u8,
            zero: has_bit(val as int, 7),
            subtract: has_bit(val as int, 6),
            half_carry: has_bit(val as int, 5),
            carry: has_bit(val as int, 4),
            ..self
        }
    }

    pub open spec fn with_bc(self, val: u16) -> Cpu {
        Cpu { b: (val / 256) as u8, c: (val % 256) as u8, ..self }
    }

    pub open spec fn with_de(self, val: u16) -> Cpu {
        Cpu { d: (val / 256) as u8, e: (val % 256) as u8, ..self }
    }

    pub open spec fn with_hl(self, val: u16) -> Cpu {
        Cpu { h: (val / 256) as u8, l: (val % 256) as u8, ..self }
    }

    /// The value of an 8-bit register. The byte at HL is no register: for
    /// it this gives 0.
    pub open spec fn register(self, register: Register) -> u8 {
        match register {
            Register::B => self.b,
            Register::C => self.c,
            Register::D => self.d,
            Register::E => self.e,
            Register::H => self.h,
            Register::L => self.l,
            Register::HLMem => 0,
            Register::A => self.a,
        }
    }

    /// The CPU with an 8-bit register set. The byte at HL is no register:
    /// for it nothing changes.
    pub open spec fn with_register(self, register: Register, val: u8) -> Cpu {
        match register {
            Register::B => Cpu { b: val, ..self },
            Register::C => Cpu { c: val, ..self },
            Register::D => Cpu { d: val, ..self },
            Register::E => Cpu { e: val, ..self },
            Register::H => Cpu { h: val, ..self },
            Register::L => Cpu { l: val, ..self },
            Register::HLMem => self,
            Register::A => Cpu { a: val, ..self },
        }
    }

    /// The value of a register pair of the 16-bit group.
    pub open spec fn pair1(self, pair: RegisterPair1) -> u16 {
        match pair {
            RegisterPair1::BC => self.bc_pair(),
            RegisterPair1::DE => self.de_pair(),
            RegisterPair1::HL => self.hl_pair(),
            RegisterPair1::SP => self.sp,
        }
    }

    /// The CPU with a register pair of the 16-bit group set.
    pub open spec fn with_pair1(self, pair: RegisterPair1, val: u16) -> Cpu {
        match pair {
            RegisterPair1::BC => self.with_bc(val),
            RegisterPair1::DE => self.with_de(val),
            RegisterPair1::HL => self.with_hl(val),
            RegisterPair1::SP => Cpu { sp: val, ..self },
        }
    }

    /// The value of a register pair of the stack group.
    pub open spec fn pair2(self, pair: RegisterPair2) -> u16 {
        match pair {
            RegisterPair2::BC => self.bc_pair(),
            RegisterPair2::DE => self.de_pair(),
            RegisterPair2::HL => self.hl_pair(),
            RegisterPair2::AF => self.af_pair(),
        }
    }

    /// The CPU with a register pair of the stack group set.
    pub open spec fn with_pair2(self, pair: RegisterPair2, val: u16) -> Cpu {
        match pair {
            RegisterPair2::BC => self.with_bc(val),
            RegisterPair2::DE => self.with_de(val),
            RegisterPair2::HL => self.with_hl(val),
            RegisterPair2::AF => self.with_af(val),
        }
    }

    // The flag arithmetic. Each function gives the CPU with its flags (and,
    // for the operations on the accumulator, with A) updated, and the result.
    /// INC: H is the carry out of bit 3; C stays.
    #[verifier::opaque]
    pub open spec fn inc_result(self, val: u8) -> (Cpu, u8) {
        let result = wrapping_sum8(val as int, 1);
        (self.with_flags(result == 0, false, val % 16 == 15, self.carry), result)
    }

    /// DEC: H is the borrow from bit 4; C stays.
    #[verifier::opaque]
    pub open spec fn dec_result(self, val: u8) -> (Cpu, u8) {
        let result = wrapping_sum8(val as int, 255);
        (self.with_flags(result == 0, true, val % 16 == 0, self.carry), result)
    }

    /// ADD: C is the carry out of bit 7, H the carry out of bit 3.
    #[verifier::opaque]
    pub open spec fn add_result(self, val1: u8, val2: u8) -> (Cpu, u8) {
        let result = wrapping_sum8(val1 as int, val2 as int);
        (
            self.with_flags(result == 0, false, val1 % 16 + val2 % 16 > 15, val1 + val2 > 255),
            result,
        )
    }

    /// The carry flag as a number.
    pub open spec fn carry_in(self) -> int {
        if self.carry {
            1
        } else {
            0
        }
    }

    /// ADC: as ADD, with the carry flag added in both carries.
    #[verifier::opaque]
    pub open spec fn adc_result(self, val: u8) -> Cpu {
        let result = wrapping_sum8(self.a + val, self.carry_in());
        Cpu {
            a: result,
            ..self.with_flags(
                result == 0,
                false,
                self.a % 16 + val % 16 + self.carry_in() > 15,
                self.a + val + self.carry_in() > 255,
            )
        }
    }

    /// The difference of A and `val`, less `borrow`, modulo 0x100.
    pub open spec fn difference(self, val: u8, borrow: int) -> u8 {
        ((self.a - val - borrow + 512) % 256) as u8
    }

    /// SUB: N is set; C is the borrow, H the borrow from bit 4.
    #[verifier::opaque]
    pub open spec fn sub_result(self, val: u8) -> Cpu {
        let result = self.difference(val, 0);
        Cpu { a: result, ..self.with_flags(result == 0, true, val % 16 > self.a % 16, val > self.a) }
    }

    /// SBC: as SUB, with the carry flag taken off in both borrows.
    #[verifier::opaque]
    pub open spec fn sbc_result(self, val: u8) -> Cpu {
        let result = self.difference(val, self.carry_in());
        Cpu {
            a: result,
            ..self.with_flags(
                result == 0,
                true,
                self.a % 16 - val % 16 - self.carry_in() < 0,
                self.a - val - self.carry_in() < 0,
            )
        }
    }

    /// CP: the flags of SUB; A stays.
    #[verifier::opaque]
    pub open spec fn cp_result(self, val: u8) -> Cpu {
        self.with_flags(self.a == val, true, val % 16 > self.a % 16, val > self.a)
    }

    /// AND: H is set, N and C are cleared.
    #[verifier::opaque]
    pub open spec fn and_result(self, val: u8) -> Cpu {
        Cpu { a: self.a & val, ..self.with_flags(self.a & val == 0, false, true, false) }
    }

    /// OR: N, H and C are cleared.
    #[verifier::opaque]
    pub open spec fn or_result(self, val: u8) -> Cpu {
        Cpu { a: self.a | val, ..self.with_flags(self.a | val == 0, false, false, false) }
    }

    /// XOR: N, H and C are cleared.
    #[verifier::opaque]
    pub open spec fn xor_result(self, val: u8) -> Cpu {
        Cpu { a: self.a ^ val, ..self.with_flags(self.a ^ val == 0, false, false, false) }
    }

    /// One of the eight accumulator operations.
    #[verifier::opaque]
    pub open spec fn arithmetic_result(self, op: ArithmeticOp, val: u8) -> Cpu {
        match op {
            ArithmeticOp::ADD => {
                let (flagged, result) = self.add_result(self.a, val);
                Cpu { a: result, ..flagged }
            },
            ArithmeticOp::ADC => self.adc_result(val),
            ArithmeticOp::SUB => self.sub_result(val),
            ArithmeticOp::SBC => self.sbc_result(val),
            ArithmeticOp::AND => self.and_result(val),
            ArithmeticOp::XOR => self.xor_result(val),
            ArithmeticOp::OR => self.or_result(val),
            ArithmeticOp::CP => self.cp_result(val),
        }
    }

    /// ADD HL: C is the carry out of bit 15, H the carry out of bit 11; Z
    /// stays.
    #[verifier::opaque]
    pub open spec fn add_hl_result(self, hl: u16, r16: u16) -> (Cpu, u16) {
        (
            self.with_flags(self.zero, false, hl % 4096 + r16 % 4096 > 4095, hl + r16 > 0xFFFF),
            wrapping_sum(hl, r16),
        )
    }

    /// The sum of SP and a signed immediate: Z and N are cleared, H and C
    /// are the carries out of bit 3 and bit 7 of the low byte.
    #[verifier::opaque]
    pub open spec fn sp_offset_result(self, offset: u8) -> (Cpu, u16) {
        let arg = sign_extended(offset);
        (
            self.with_flags(
                false,
                false,
                self.sp % 16 + arg % 16 > 15,
                self.sp % 256 + arg % 256 > 255,
            ),
            wrapping_sum(self.sp, arg),
        )
    }

    /// A byte rotated left by one: bit 7 comes back in at bit 0.
    pub open spec fn rotated_left(val: u8) -> u8 {
        (val % 128 * 2 + val / 128) as u8
    }

    /// A byte rotated right by one: bit 0 comes back in at bit 7.
    pub open spec fn rotated_right(val: u8) -> u8 {
        (val / 2 + val % 2 * 128) as u8
    }

    /// A byte shifted left by one, with `low` coming in at bit 0.
    pub open spec fn shifted_left(val: u8, low: int) -> u8 {
        (val % 128 * 2 + low) as u8
    }

    /// A byte shifted right by one, with `high` coming in at bit 7.
    pub open spec fn shifted_right(val: u8, high: int) -> u8 {
        (val / 2 + high * 128) as u8
    }

    /// The result of a rotate, shift or swap: the value, and the carry flag
    /// that it leaves.
    #[verifier::opaque]
    pub open spec fn rotation(self, op: CBOp, val: u8) -> (u8, bool) {
        match op {
            CBOp::RLC => (Self::rotated_left(val), val >= 128),
            CBOp::RRC => (Self::rotated_right(val), val % 2 == 1),
            CBOp::RL => (Self::shifted_left(val, self.carry_in()), val >= 128),
            CBOp::RR => (Self::shifted_right(val, self.carry_in()), val % 2 == 1),
            CBOp::SLA => (Self::shifted_left(val, 0), val >= 128),
            CBOp::SRA => (Self::shifted_right(val, (val / 128) as int), val % 2 == 1),
            CBOp::SWAP => ((val % 16 * 16 + val / 16) as u8, false),
            CBOp::SRL => (Self::shifted_right(val, 0), val % 2 == 1),
        }
    }

    /// A prefixed rotate, shift or swap: Z is set on a zero result, N and H
    /// are cleared.
    pub open spec fn rotate_result(self, op: CBOp, val: u8) -> (Cpu, u8) {
        let (result, carry) = self.rotation(op, val);
        (self.with_flags(result == 0, false, false, carry), result)
    }

    /// A rotate of the accumulator by one of the four unprefixed opcodes:
    /// as the prefixed rotate, but Z is cleared.
    pub open spec fn rotate_a_result(self, op: CBOp) -> Cpu {
        let (result, carry) = self.rotation(op, self.a);
        Cpu { a: result, ..self.with_flags(false, false, false, carry) }
    }

    /// BIT: Z is set if the bit is clear; N is cleared, H set; C stays.
    #[verifier::opaque]
    pub open spec fn bit_result(self, n: u8, val: u8) -> Cpu {
        self.with_flags(!has_bit(val as int, n), false, true, self.carry)
    }

    /// A prefixed operation on a value: the CPU with its flags updated, and
    /// the value to store.
    #[verifier::opaque]
    pub open spec fn prefixed_result(self, op: PrefixedOp, val: u8) -> (Cpu, u8) {
        match op {
            PrefixedOp::Rotate(rotate) => self.rotate_result(rotate, val),
            PrefixedOp::TestBit(n) => (self.bit_result(n, val), val),
            PrefixedOp::ResetBit(n) => (self, with_bit(val, n, false)),
            PrefixedOp::SetBit(n) => (self, with_bit(val, n, true)),
        }
    }

    /// DAA: the decimal adjustment of A after an addition or subtraction of
    /// packed decimals. After an addition, 0x60 is added if C is set or A
    /// is above 0x99, which also sets C, and then 0x06 if H is set or the low
    /// nibble is above 9. After a subtraction, 0x60 is taken off if C is
    /// set and 0x06 if H is set. Z follows the result, H is cleared.
    #[verifier::opaque]
    pub open spec fn daa_result(self) -> Cpu {
        if self.subtract {
            let high = if self.carry {
                wrapping_sum8(self.a as int, 0xA0)
            } else {
                self.a
            };
            let result = if self.half_carry {
                wrapping_sum8(high as int, 0xFA)
            } else {
                high
            };
            Cpu { a: result, ..self.with_flags(result == 0, true, false, self.carry) }
        } else {
            let carry = self.carry || self.a > 0x99;
            let high = if carry {
                wrapping_sum8(self.a as int, 0x60)
            } else {
                self.a
            };
            let result = if self.half_carry || high % 16 > 9 {
                wrapping_sum8(high as int, 0x06)
            } else {
                high
            };
            Cpu { a: result, ..self.with_flags(result == 0, false, false, carry) }
        }
    }

    /// CPL: A is complemented; N and H are set.
    pub open spec fn cpl_result(self) -> Cpu {
        Cpu { a: (255 - self.a) as u8, ..self.with_flags(self.zero, true, true, self.carry) }
    }

    /// SCF: C is set; N and H are cleared.
    pub open spec fn scf_result(self) -> Cpu {
        self.with_flags(self.zero, false, false, true)
    }

    /// CCF: C is flipped; N and H are cleared.
    pub open spec fn ccf_result(self) -> Cpu {
        self.with_flags(self.zero, false, false, !self.carry)
    }
}

/// Adds two bytes modulo 0x100.
fn add8(x: u8, y: u8) -> (sum: u8)
    ensures
        sum == wrapping_sum8(x as int, y as int),
{
    x.wrapping_add(y)
}

impl Cpu {
    /// Makes the CPU at power-on, about to run the boot image.
    pub fn new() -> (cpu: Self)
        ensures
            cpu == Self::initial(),
    {
        Self {
            a: 0,
            b: 0,
            c: 0,
            d: 0,
            e: 0,
            h: 0,
            l: 0,
            zero: false,
            subtract: false,
            half_carry: false,
            carry: false,
            pc: 0,
            sp: 0,
            operand8: 0,
            operand16: 0,
            temp_val8: 0,
            temp_val_16: 0,
            instruction: None,
            machine_cycles_taken_for_current_step: 0,
            stopped: false,
            halted: false,
            halted_waiting_for_interupt_pending: false,
            halt_bug: false,
            ei_delay: false,
            trap: None,
        }
    }

    /// Makes the CPU in the state that the boot image leaves it in.
    pub fn after_boot() -> (cpu: Self)
        ensures
            cpu == Self::booted(),
            cpu.af_pair() == 0x01B0,
            cpu.bc_pair() == 0x0013,
            cpu.de_pair() == 0x00D8,
            cpu.hl_pair() == 0x014D,
    {
        let mut cpu = Self::new();
        cpu.a = 0x01;
        cpu.c = 0x13;
        cpu.e = 0xD8;
        cpu.h = 0x01;
        cpu.l = 0x4D;
        cpu.zero = true;
        cpu.half_carry = true;
        cpu.carry = true;
        cpu.pc = 0x0100;
        cpu.sp = 0xFFFE;
        cpu
    }

    /// Whether an instruction is in progress.
    pub fn is_processing_instruction(&self) -> (processing: bool)
        ensures
            processing == self.instruction is Some,
    {
        self.instruction.is_some()
    }

    /// Makes the interrupt service routine the instruction in progress.
    pub fn set_interrupt_instruction(&mut self)
        ensures
            *final(self) == (Cpu {
                instruction: Some(
                    Current { kind: InstructionKind::Interrupt, opcode: 0, position: 0 },
                ),
                ..*old(self)
            }),
    {
        self.instruction = Some(
            Current { kind: InstructionKind::Interrupt, opcode: 0, position: 0 },
        );
    }

    /// The F register.
    pub fn f(&self) -> (val: u8)
        ensures
            val == self.flags_byte(),
            val % 16 == 0,
    {
        let zero: u8 = if self.zero { 128 } else { 0 };
        let subtract: u8 = if self.subtract { 64 } else { 0 };
        let half_carry: u8 = if self.half_carry { 32 } else { 0 };
        let carry: u8 = if self.carry { 16 } else { 0 };
        zero + subtract + half_carry + carry
    }

    pub fn inc(&mut self, val: u8) -> (result: u8)
        ensures
            (*final(self), result) == old(self).inc_result(val),
    {
        proof {
            reveal(Cpu::inc_result);
        }
        let result = val.wrapping_add(1);
        self.half_carry = val % 16 == 15;
        self.zero = result == 0;
        self.subtract = false;
        result
    }

    pub fn dec(&mut self, val: u8) -> (result: u8)
        ensures
            (*final(self), result) == old(self).dec_result(val),
    {
        proof {
            reveal(Cpu::dec_result);
        }
        let result = val.wrapping_sub(1);
        self.half_carry = val % 16 == 0;
        self.zero = result == 0;
        self.subtract = true;
        result
    }

    pub fn cp(&mut self, val: u8)
        ensures
            *final(self) == old(self).cp_result(val),
    {
        proof {
            reveal(Cpu::cp_result);
        }
        self.zero = self.a == val;
        self.carry = val > self.a;
        self.half_carry = val % 16 > self.a % 16;
        self.subtract = true;
    }

    pub fn or(&mut self, val: u8)
        ensures
            *final(self) == old(self).or_result(val),
    {
        proof {
            reveal(Cpu::or_result);
        }
        self.a = self.a | val;
        self.zero = self.a == 0;
        self.carry = false;
        self.subtract = false;
        self.half_carry = false;
    }

    pub fn xor(&mut self, val: u8)
        ensures
            *final(self) == old(self).xor_result(val),
    {
        proof {
            reveal(Cpu::xor_result);
        }
        self.a = self.a ^ val;
        self.zero = self.a == 0;
        self.carry = false;
        self.subtract = false;
        self.half_carry = false;
    }

    pub fn and(&mut self, val: u8)
        ensures
            *final(self) == old(self).and_result(val),
    {
        proof {
            reveal(Cpu::and_result);
        }
        self.a = self.a & val;
        self.zero = self.a == 0;
        self.carry = false;
        self.subtract = false;
        self.half_carry = true;
    }

    pub fn add(&mut self, val1: u8, val2: u8) -> (result: u8)
        ensures
            (*final(self), result) == old(self).add_result(val1, val2),
    {
        proof {
            reveal(Cpu::add_result);
        }
        let result = val1.wrapping_add(val2);
        self.subtract = false;
        self.carry = val1 as u16 + val2 as u16 > 255;
        self.zero = result == 0;
        self.half_carry = val1 % 16 + val2 % 16 > 15;
        result
    }

    pub fn adc(&mut self, val: u8)
        ensures
            *final(self) == old(self).adc_result(val),
    {
        proof {
            reveal(Cpu::adc_result);
        }
        let carry: u8 = if self.carry { 1 } else { 0 };
        let is_half_carry = self.a % 16 + val % 16 + carry > 15;
        let is_carry = self.a as u16 + val as u16 + carry as u16 > 255;
        let result = self.a.wrapping_add(val).wrapping_add(carry);
        self.zero = result == 0;
        self.half_carry = is_half_carry;
        self.carry = is_carry;
        self.subtract = false;
        self.a = result;
    }

    pub fn sub(&mut self, val: u8)
        ensures
            *final(self) == old(self).sub_result(val),
    {
        proof {
            reveal(Cpu::sub_result);
        }
        self.carry = val > self.a;
        self.half_carry = val % 16 > self.a % 16;
        self.a = self.a.wrapping_sub(val);
        self.zero = self.a == 0;
        self.subtract = true;
    }

    pub fn sbc(&mut self, val: u8)
        ensures
            *final(self) == old(self).sbc_result(val),
    {
        proof {
            reveal(Cpu::sbc_result);
        }
        let carry: u8 = if self.carry { 1 } else { 0 };
        let is_half_carry = self.a % 16 < val % 16 + carry;
        let is_full_carry = (self.a as u16) < val as u16 + carry as u16;
        let result = self.a.wrapping_sub(val).wrapping_sub(carry);
        self.zero = result == 0;
        self.half_carry = is_half_carry;
        self.carry = is_full_carry;
        self.subtract = true;
        self.a = result;
    }

    pub fn add_hl_r16(&mut self, hl: u16, r16: u16) -> (result: u16)
        ensures
            (*final(self), result) == old(self).add_hl_result(hl, r16),
    {
        proof {
            reveal(Cpu::add_hl_result);
        }
        let result = hl.wrapping_add(r16);
        self.subtract = false;
        self.carry = hl as u32 + r16 as u32 > 0xFFFF;
        self.half_carry = hl % 4096 + r16 % 4096 > 4095;
        result
    }

    pub fn rlc(&mut self, val: u8) -> (result: u8)
        ensures
            (*final(self), result) == old(self).rotate_result(CBOp::RLC, val),
    {
        proof {
            reveal(Cpu::rotation);
        }
        let result = val % 128 * 2 + val / 128;
        self.carry = val >= 128;
        self.zero = result == 0;
        self.subtract = false;
        self.half_carry = false;
        result
    }

    pub fn rrc(&mut self, val: u8) -> (result: u8)
        ensures
            (*final(self), result) == old(self).rotate_result(CBOp::RRC, val),
    {
        proof {
            reveal(Cpu::rotation);
        }
        let result = val / 2 + val % 2 * 128;
        self.carry = val % 2 == 1;
        self.zero = result == 0;
        self.subtract = false;
        self.half_carry = false;
        result
    }

    pub fn rl(&mut self, val: u8) -> (result: u8)
        ensures
            (*final(self), result) == old(self).rotate_result(CBOp::RL, val),
    {
        proof {
            reveal(Cpu::rotation);
        }
        let carry: u8 = if self.carry { 1 } else { 0 };
        let result = val % 128 * 2 + carry;
        self.carry = val >= 128;
        self.zero = result == 0;
        self.subtract = false;
        self.half_carry = false;
        result
    }

    pub fn rr(&mut self, val: u8) -> (result: u8)
        ensures
            (*final(self), result) == old(self).rotate_result(CBOp::RR, val),
    {
        proof {
            reveal(Cpu::rotation);
        }
        let carry: u8 = if self.carry { 1 } else { 0 };
        let result = val / 2 + carry * 128;
        self.carry = val % 2 == 1;
        self.zero = result == 0;
        self.subtract = false;
        self.half_carry = false;
        result
    }

    pub fn sla(&mut self, val: u8) -> (result: u8)
        ensures
            (*final(self), result) == old(self).rotate_result(CBOp::SLA, val),
    {
        proof {
            reveal(Cpu::rotation);
        }
        let result = val % 128 * 2;
        self.carry = val >= 128;
        self.zero = result == 0;
        self.subtract = false;
        self.half_carry = false;
        result
    }

    pub fn sra(&mut self, val: u8) -> (result: u8)
        ensures
            (*final(self), result) == old(self).rotate_result(CBOp::SRA, val),
    {
        proof {
            reveal(Cpu::rotation);
        }
        let result = val / 2 + val / 128 * 128;
        self.carry = val % 2 == 1;
        self.zero = result == 0;
        self.subtract = false;
        self.half_carry = false;
        result
    }

    pub fn swap(&mut self, val: u8) -> (result: u8)
        ensures
            (*final(self), result) == old(self).rotate_result(CBOp::SWAP, val),
    {
        proof {
            reveal(Cpu::rotation);
        }
        let result = val % 16 * 16 + val / 16;
        self.zero = result == 0;
        self.carry = false;
        self.subtract = false;
        self.half_carry = false;
        result
    }

    pub fn srl(&mut self, val: u8) -> (result: u8)
        ensures
            (*final(self), result) == old(self).rotate_result(CBOp::SRL, val),
    {
        proof {
            reveal(Cpu::rotation);
        }
        let result = val / 2;
        self.carry = val % 2 == 1;
        self.zero = result == 0;
        self.subtract = false;
        self.half_carry = false;
        result
    }

    pub fn bit(&mut self, bit_index: u8, val: u8)
        requires
            bit_index < 8,
        ensures
            *final(self) == old(self).bit_result(bit_index, val),
    {
        proof {
            reveal(Cpu::bit_result);
        }
        self.zero = !bit(val, bit_index);
        self.subtract = false;
        self.half_carry = true;
    }

    /// Applies one of the eight accumulator operations to A and `val`.
    pub fn arithmetic(&mut self, op: ArithmeticOp, val: u8)
        ensures
            *final(self) == old(self).arithmetic_result(op, val),
    {
        proof {
            reveal(Cpu::arithmetic_result);
        }
        match op {
            ArithmeticOp::ADD => {
                self.a = self.add(self.a, val);
            },
            ArithmeticOp::ADC => self.adc(val),
            ArithmeticOp::SUB => self.sub(val),
            ArithmeticOp::SBC => self.sbc(val),
            ArithmeticOp::AND => self.and(val),
            ArithmeticOp::XOR => self.xor(val),
            ArithmeticOp::OR => self.or(val),
            ArithmeticOp::CP => self.cp(val),
        }
    }

    /// Applies a rotate, shift or swap to `val`.
    pub fn rotate(&mut self, op: CBOp, val: u8) -> (result: u8)
        ensures
            (*final(self), result) == old(self).rotate_result(op, val),
    {
        proof {
            reveal(Cpu::rotation);
        }
        match op {
            CBOp::RLC => self.rlc(val),
            CBOp::RRC => self.rrc(val),
            CBOp::RL => self.rl(val),
            CBOp::RR => self.rr(val),
            CBOp::SLA => self.sla(val),
            CBOp::SRA => self.sra(val),
            CBOp::SWAP => self.swap(val),
            CBOp::SRL => self.srl(val),
        }
    }

    /// Rotates the accumulator as one of the four unprefixed rotates does.
    pub fn rotate_a(&mut self, op: CBOp)
        ensures
            *final(self) == old(self).rotate_a_result(op),
    {
        self.a = self.rotate(op, self.a);
        self.zero = false;
    }

    /// Applies a prefixed operation to `val` and gives the value to store.
    pub fn prefixed(&mut self, op: PrefixedOp, val: u8) -> (result: u8)
        requires
            op matches PrefixedOp::TestBit(n) ==> n < 8,
            op matches PrefixedOp::ResetBit(n) ==> n < 8,
            op matches PrefixedOp::SetBit(n) ==> n < 8,
        ensures
            (*final(self), result) == old(self).prefixed_result(op, val),
    {
        proof {
            reveal(Cpu::prefixed_result);
        }
        match op {
            PrefixedOp::Rotate(rotate) => self.rotate(rotate, val),
            PrefixedOp::TestBit(n) => {
                self.bit(n, val);
                val
            },
            PrefixedOp::ResetBit(n) => set_bit(val, n, false),
            PrefixedOp::SetBit(n) => set_bit(val, n, true),
        }
    }

    /// Adjusts A to packed decimal after an addition or subtraction.
    pub fn daa(&mut self)
        ensures
            *final(self) == old(self).daa_result(),
    {
        proof {
            reveal(Cpu::daa_result);
        }
        if self.subtract {
            let high = if self.carry {
                add8(self.a, 0xA0)
            } else {
                self.a
            };
            self.a = if self.half_carry {
                add8(high, 0xFA)
            } else {
                high
            };
        } else {
            let carry = self.carry || self.a > 0x99;
            let high = if carry {
                add8(self.a, 0x60)
            } else {
                self.a
            };
            self.a = if self.half_carry || high % 16 > 0x09 {
                add8(high, 0x06)
            } else {
                high
            };
            self.carry = carry;
        }
        self.zero = self.a == 0;
        self.half_carry = false;
    }

    /// The sum of SP and a signed immediate, with the flags it leaves.
    pub fn sp_offset(&mut self, offset: u8) -> (result: u16)
        ensures
            (*final(self), result) == old(self).sp_offset_result(offset),
    {
        proof {
            reveal(Cpu::sp_offset_result);
        }
        let arg: u16 = if offset < 128 {
            offset as u16
        } else {
            0xFF00 + offset as u16
        };
        self.half_carry = self.sp % 16 + arg % 16 > 15;
        self.carry = self.sp % 256 + arg % 256 > 255;
        self.zero = false;
        self.subtract = false;
        self.sp.wrapping_add(arg)
    }

    pub fn af(&self) -> (val: u16)
        ensures
            val == self.af_pair(),
    {
        self.a as u16 * 256 + self.f() as u16
    }

    pub fn bc(&self) -> (val: u16)
        ensures
            val == self.bc_pair(),
    {
        self.b as u16 * 256 + self.c as u16
    }

    pub fn de(&self) -> (val: u16)
        ensures
            val == self.de_pair(),
    {
        self.d as u16 * 256 + self.e as u16
    }

    pub fn hl(&self) -> (val: u16)
        ensures
            val == self.hl_pair(),
    {
        self.h as u16 * 256 + self.l as u16
    }

    pub fn set_af(&mut self, val: u16)
        ensures
            *final(self) == old(self).with_af(val),
    {
        self.a = (val / 256) as u8;
        self.zero = val / 128 % 2 == 1;
        self.subtract = val / 64 % 2 == 1;
        self.half_carry = val / 32 % 2 == 1;
        self.carry = val / 16 % 2 == 1;
    }

    pub fn set_bc(&mut self, val: u16)
        ensures
            *final(self) == old(self).with_bc(val),
    {
        self.b = (val / 256) as u8;
        self.c = (val % 256) as u8;
    }

    pub fn set_de(&mut self, val: u16)
        ensures
            *final(self) == old(self).with_de(val),
    {
        self.d = (val / 256) as u8;
        self.e = (val % 256) as u8;
    }

    pub fn set_hl(&mut self, val: u16)
        ensures
            *final(self) == old(self).with_hl(val),
    {
        self.h = (val / 256) as u8;
        self.l = (val % 256) as u8;
    }

    pub fn set_pc(&mut self, pc: u16)
        ensures
            *final(self) == (Cpu { pc, ..*old(self) }),
    {
        self.pc = pc;
    }

    /// Reads an 8-bit register; gives 0 for the byte at HL.
    pub fn get_register(&self, register: Register) -> (val: u8)
        ensures
            val == self.register(register),
    {
        match register {
            Register::B => self.b,
            Register::C => self.c,
            Register::D => self.d,
            Register::E => self.e,
            Register::H => self.h,
            Register::L => self.l,
            Register::HLMem => 0,
            Register::A => self.a,
        }
    }

    /// Sets an 8-bit register; does nothing for the byte at HL.
    pub fn set_register(&mut self, register: Register, val: u8)
        ensures
            *final(self) == old(self).with_register(register, val),
    {
        match register {
            Register::B => self.b = val,
            Register::C => self.c = val,
            Register::D => self.d = val,
            Register::E => self.e = val,
            Register::H => self.h = val,
            Register::L => self.l = val,
            Register::HLMem => {},
            Register::A => self.a = val,
        }
    }

    pub fn get_pair1(&self, pair: RegisterPair1) -> (val: u16)
        ensures
            val == self.pair1(pair),
    {
        match pair {
            RegisterPair1::BC => self.bc(),
            RegisterPair1::DE => self.de(),
            RegisterPair1::HL => self.hl(),
            RegisterPair1::SP => self.sp,
        }
    }

    pub fn set_pair1(&mut self, pair: RegisterPair1, val: u16)
        ensures
            *final(self) == old(self).with_pair1(pair, val),
    {
        match pair {
            RegisterPair1::BC => self.set_bc(val),
            RegisterPair1::DE => self.set_de(val),
            RegisterPair1::HL => self.set_hl(val),
            RegisterPair1::SP => self.sp = val,
        }
    }

    pub fn get_pair2(&self, pair: RegisterPair2) -> (val: u16)
        ensures
            val == self.pair2(pair),
    {
        match pair {
            RegisterPair2::BC => self.bc(),
            RegisterPair2::DE => self.de(),
            RegisterPair2::HL => self.hl(),
            RegisterPair2::AF => self.af(),
        }
    }

    pub fn set_pair2(&mut self, pair: RegisterPair2, val: u16)
        ensures
            *final(self) == old(self).with_pair2(pair, val),
    {
        match pair {
            RegisterPair2::BC => self.set_bc(val),
            RegisterPair2::DE => self.set_de(val),
            RegisterPair2::HL => self.set_hl(val),
            RegisterPair2::AF => self.set_af(val),
        }
    }
}

impl MicroOp {
    /// A bit operation names one of the eight bits of a byte.
    pub open spec fn wf(self) -> bool {
        match self {
            MicroOp::Prefixed(PrefixedOp::TestBit(n), _) => n < 8,
            MicroOp::Prefixed(PrefixedOp::ResetBit(n), _) => n < 8,
            MicroOp::Prefixed(PrefixedOp::SetBit(n), _) => n < 8,
            _ => true,
        }
    }
}

impl Cpu {
    /// The CPU after it has read the byte at PC, and that byte.
    pub open spec fn fetched(self, bus: MmuView) -> (Cpu, u8) {
        (Cpu { pc: wrapping_sum(self.pc, 1), ..self }, bus.read_byte(self.pc))
    }

    /// The value of an 8-bit operand: a register, or the byte at HL.
    pub open spec fn operand_value(self, bus: MmuView, register: Register) -> u8 {
        if register.in_memory() {
            bus.read_byte(self.hl_pair())
        } else {
            self.register(register)
        }
    }

    /// The machine after `val` has been stored in an 8-bit operand.
    pub open spec fn operand_stored(self, bus: MmuView, register: Register, val: u8) -> (
        Cpu,
        MmuView,
    ) {
        if register.in_memory() {
            (self, bus.write_byte(self.hl_pair(), val))
        } else {
            (self.with_register(register, val), bus)
        }
    }

    /// The address that a pointer holds.
    pub open spec fn pointer_address(self, pointer: Pointer) -> u16 {
        match pointer {
            Pointer::BC => self.bc_pair(),
            Pointer::DE => self.de_pair(),
            Pointer::HLIncrement => self.hl_pair(),
            Pointer::HLDecrement => self.hl_pair(),
        }
    }

    /// The CPU after a pointer has been used: HL moves on where the pointer
    /// says so.
    #[verifier::opaque]
    pub open spec fn pointer_moved(self, pointer: Pointer) -> Cpu {
        match pointer {
            Pointer::HLIncrement => self.with_hl(wrapping_sum(self.hl_pair(), 1)),
            Pointer::HLDecrement => self.with_hl(wrapping_difference(self.hl_pair(), 1)),
            _ => self,
        }
    }

    /// The machine after a word has been pushed: SP goes down by two and the
    /// word is written there, low byte first.
    pub open spec fn pushed(self, bus: MmuView, val: u16) -> (Cpu, MmuView) {
        let sp = wrapping_difference(self.sp, 2);
        (Cpu { sp, ..self }, bus.write_word(sp, val))
    }

    /// The machine after a byte has been pushed: SP goes down by one and the
    /// byte is written there.
    pub open spec fn pushed_byte(self, bus: MmuView, val: u8) -> (Cpu, MmuView) {
        let sp = wrapping_difference(self.sp, 1);
        (Cpu { sp, ..self }, bus.write_byte(sp, val))
    }

    /// The CPU after a word has been popped, and that word: it is read at SP,
    /// low byte first, and SP goes up by two.
    pub open spec fn popped(self, bus: MmuView) -> (Cpu, u16) {
        (Cpu { sp: wrapping_sum(self.sp, 2), ..self }, bus.read_word(self.sp))
    }

    /// The CPU after a byte has been popped, and that byte: it is read at SP
    /// and SP goes up by one.
    pub open spec fn popped_byte(self, bus: MmuView) -> (Cpu, u8) {
        (Cpu { sp: wrapping_sum(self.sp, 1), ..self }, bus.read_byte(self.sp))
    }

    /// The machine after HALT. With interrupts enabled the CPU halts until
    /// one is served. With interrupts disabled and none pending it halts
    /// until one is requested. With interrupts disabled and one pending it
    /// goes on, and the next opcode fetch will leave PC where it is.
    #[verifier::opaque]
    pub open spec fn halt_entered(self, bus: MmuView) -> (Cpu, MmuView) {
        if bus.interupts.master > 0 {
            (Cpu { halted: true, ..self }, bus)
        } else if bus.interupts.enable & bus.interupts.flags != 0 {
            (Cpu { halt_bug: true, ..self }, bus)
        } else {
            (
                Cpu { halted: true, halted_waiting_for_interupt_pending: true, ..self },
                MmuView {
                    interupts: Interupt { waiting_for_halt_if: true, ..bus.interupts },
                    ..bus
                },
            )
        }
    }

    /// The machine after the last step of the interrupt service routine: PC
    /// goes to the vector of the source of highest priority that is pending
    /// under the latched enable mask and request flags, the request of that
    /// source is taken back, and interrupts are disabled. If no source is
    /// pending any more, PC goes to 0.
    #[verifier::opaque]
    pub open spec fn dispatched(self, bus: MmuView) -> (Cpu, MmuView) {
        let state = highest_pending(self.temp_val8, (self.temp_val_16 % 256) as u8);
        let interupts = match state {
            Some(flag) => bus.interupts.cleared(flag),
            None => bus.interupts,
        };
        (
            Cpu {
                pc: match state {
                    Some(flag) => flag.vector(),
                    None => 0,
                },
                ..self
            },
            MmuView { interupts: Interupt { master: 0, ..interupts }, ..bus },
        )
    }

    /// The machine after one micro-step.
    #[verifier::opaque]
    pub open spec fn executed(self, bus: MmuView, op: MicroOp) -> (Cpu, MmuView) {
        match op {
            MicroOp::Idle => (self, bus),
            MicroOp::FetchOperand8 => (Cpu { operand8: self.fetched(bus).1, ..self.fetched(bus).0 }, bus),
            MicroOp::FetchOperand16 => (
                Cpu { operand16: word(self.fetched(bus).1, self.operand8), ..self.fetched(bus).0 },
                bus,
            ),
            MicroOp::StoreSpLowAtOperand16 => (
                self,
                bus.write_byte(self.operand16, (self.sp % 256) as u8),
            ),
            MicroOp::StoreSpHighAtOperand16 => (
                self,
                bus.write_byte(next_addr(self.operand16), (self.sp / 256) as u8),
            ),
            MicroOp::Stop => (Cpu { stopped: true, ..self }, bus),
            MicroOp::JumpRelative => (
                Cpu { pc: wrapping_sum(self.pc, sign_extended(self.operand8)), ..self },
                bus,
            ),
            MicroOp::FetchPairLow(pair) => (self.pair_low_fetched(bus, pair), bus),
            MicroOp::FetchPairHigh(pair) => (self.pair_high_fetched(bus, pair), bus),
            MicroOp::AddToHl(pair) => (
                self.add_hl_result(self.hl_pair(), self.pair1(pair)).0.with_hl(
                    self.add_hl_result(self.hl_pair(), self.pair1(pair)).1,
                ),
                bus,
            ),
            MicroOp::StoreA(pointer) => (
                self.pointer_moved(pointer),
                bus.write_byte(self.pointer_address(pointer), self.a),
            ),
            MicroOp::LoadA(pointer) => (
                Cpu { a: bus.read_byte(self.pointer_address(pointer)), ..self.pointer_moved(pointer) },
                bus,
            ),
            MicroOp::IncPair(pair) => (
                self.with_pair1(pair, wrapping_sum(self.pair1(pair), 1)),
                bus,
            ),
            MicroOp::DecPair(pair) => (
                self.with_pair1(pair, wrapping_difference(self.pair1(pair), 1)),
                bus,
            ),
            MicroOp::Inc(register) => (
                self.inc_result(self.operand_value(bus, register)).0.with_result(
                    register,
                    self.inc_result(self.operand_value(bus, register)).1,
                ),
                bus,
            ),
            MicroOp::Dec(register) => (
                self.dec_result(self.operand_value(bus, register)).0.with_result(
                    register,
                    self.dec_result(self.operand_value(bus, register)).1,
                ),
                bus,
            ),
            MicroOp::StoreTemp8AtHl => (self, bus.write_byte(self.hl_pair(), self.temp_val8)),
            MicroOp::LoadImmediate(register) => self.operand_stored(bus, register, self.operand8),
            MicroOp::Rlca => (self.rotate_a_result(CBOp::RLC), bus),
            MicroOp::Rrca => (self.rotate_a_result(CBOp::RRC), bus),
            MicroOp::Rla => (self.rotate_a_result(CBOp::RL), bus),
            MicroOp::Rra => (self.rotate_a_result(CBOp::RR), bus),
            MicroOp::Daa => (self.daa_result(), bus),
            MicroOp::Cpl => (self.cpl_result(), bus),
            MicroOp::Scf => (self.scf_result(), bus),
            MicroOp::Ccf => (self.ccf_result(), bus),
            MicroOp::Halt => self.halt_entered(bus),
            MicroOp::ReadOperand(register) => (
                Cpu { temp_val8: self.operand_value(bus, register), ..self },
                bus,
            ),
            MicroOp::WriteOperand(register) => self.operand_stored(bus, register, self.temp_val8),
            MicroOp::Arithmetic(operation) => (
                self.arithmetic_result(operation, self.temp_val8),
                bus,
            ),
            MicroOp::ArithmeticImmediate(operation) => (
                self.arithmetic_result(operation, self.operand8),
                bus,
            ),
            MicroOp::PopTemp16Low => (
                Cpu { temp_val_16: self.popped_byte(bus).1 as u16, ..self.popped_byte(bus).0 },
                bus,
            ),
            MicroOp::PopTemp16High => (
                Cpu {
                    temp_val_16: word(self.popped_byte(bus).1, (self.temp_val_16 % 256) as u8),
                    ..self.popped_byte(bus).0
                },
                bus,
            ),
            MicroOp::Return => (Cpu { pc: self.temp_val_16, ..self }, bus),
            MicroOp::ReturnEnable => (
                Cpu { pc: self.temp_val_16, ..self },
                MmuView { interupts: Interupt { master: 1, ..bus.interupts }, ..bus },
            ),
            MicroOp::StoreAHigh => (self, bus.write_byte((0xFF00 + self.operand8) as u16, self.a)),
            MicroOp::LoadAHigh => (
                Cpu { a: bus.read_byte((0xFF00 + self.operand8) as u16), ..self },
                bus,
            ),
            MicroOp::AddSpImmediate => (
                Cpu {
                    sp: self.sp_offset_result(self.operand8).1,
                    ..self.sp_offset_result(self.operand8).0
                },
                bus,
            ),
            MicroOp::LoadHlSpImmediate => (
                self.sp_offset_result(self.operand8).0.with_hl(
                    self.sp_offset_result(self.operand8).1,
                ),
                bus,
            ),
            MicroOp::PopLow(pair) => (
                self.popped_byte(bus).0.with_pair2(
                    pair,
                    word((self.pair2(pair) / 256) as u8, self.popped_byte(bus).1),
                ),
                bus,
            ),
            MicroOp::PopHigh(pair) => (
                self.popped_byte(bus).0.with_pair2(
                    pair,
                    word(self.popped_byte(bus).1, (self.pair2(pair) % 256) as u8),
                ),
                bus,
            ),
            MicroOp::PushHigh(pair) => self.pushed_byte(bus, (self.pair2(pair) / 256) as u8),
            MicroOp::PushLow(pair) => self.pushed_byte(bus, (self.pair2(pair) % 256) as u8),
            MicroOp::JumpHl => (Cpu { pc: self.hl_pair(), ..self }, bus),
            MicroOp::LoadSpHl => (Cpu { sp: self.hl_pair(), ..self }, bus),
            MicroOp::Jump => (Cpu { pc: self.operand16, ..self }, bus),
            MicroOp::StoreAHighC => (self, bus.write_byte((0xFF00 + self.c) as u16, self.a)),
            MicroOp::LoadAHighC => (Cpu { a: bus.read_byte((0xFF00 + self.c) as u16), ..self }, bus),
            MicroOp::StoreAAtOperand16 => (self, bus.write_byte(self.operand16, self.a)),
            MicroOp::LoadAAtOperand16 => (Cpu { a: bus.read_byte(self.operand16), ..self }, bus),
            MicroOp::Di => (
                self,
                MmuView { interupts: Interupt { master: 0, ..bus.interupts }, ..bus },
            ),
            MicroOp::Ei => (Cpu { ei_delay: true, ..self }, bus),
            MicroOp::PushPcHigh => self.pushed_byte(bus, (self.pc / 256) as u8),
            MicroOp::PushPcLow => self.pushed_byte(bus, (self.pc % 256) as u8),
            MicroOp::Restart(vector) => (Cpu { pc: vector as u16, ..self }, bus),
            MicroOp::Prefixed(operation, register) => (
                self.prefixed_result(operation, self.operand_value(bus, register)).0.with_result(
                    register,
                    self.prefixed_result(operation, self.operand_value(bus, register)).1,
                ),
                bus,
            ),
            MicroOp::PushPcHighLatchEnable => (
                Cpu {
                    temp_val8: self.pushed_byte(bus, (self.pc / 256) as u8).1.interupts.enable,
                    ..self.pushed_byte(bus, (self.pc / 256) as u8).0
                },
                self.pushed_byte(bus, (self.pc / 256) as u8).1,
            ),
            MicroOp::PushPcLowLatchFlags => (
                Cpu {
                    temp_val_16: bus.interupts.flags as u16,
                    ..self.pushed_byte(bus, (self.pc % 256) as u8).0
                },
                self.pushed_byte(bus, (self.pc % 256) as u8).1,
            ),
            MicroOp::Dispatch => self.dispatched(bus),
        }
    }

    /// The CPU with the result of an operation put away: in temp8 where the
    /// operand is the byte at HL, which a later step writes back, and in the
    /// register otherwise.
    pub open spec fn with_result(self, register: Register, val: u8) -> Cpu {
        if register.in_memory() {
            Cpu { temp_val8: val, ..self }
        } else {
            self.with_register(register, val)
        }
    }

    /// The CPU after the low byte of a 16-bit immediate has been read into a
    /// register pair. For SP the byte is also kept in operand8.
    #[verifier::opaque]
    pub open spec fn pair_low_fetched(self, bus: MmuView, pair: RegisterPair1) -> Cpu {
        let (moved, val) = self.fetched(bus);
        match pair {
            RegisterPair1::BC => Cpu { c: val, ..moved },
            RegisterPair1::DE => Cpu { e: val, ..moved },
            RegisterPair1::HL => Cpu { l: val, ..moved },
            RegisterPair1::SP => Cpu {
                operand8: val,
                sp: word((self.sp % 256) as u8, val),
                ..moved
            },
        }
    }

    /// The CPU after the high byte of a 16-bit immediate has been read into
    /// a register pair.
    #[verifier::opaque]
    pub open spec fn pair_high_fetched(self, bus: MmuView, pair: RegisterPair1) -> Cpu {
        let (moved, val) = self.fetched(bus);
        match pair {
            RegisterPair1::BC => Cpu { b: val, ..moved },
            RegisterPair1::DE => Cpu { d: val, ..moved },
            RegisterPair1::HL => Cpu { h: val, ..moved },
            RegisterPair1::SP => Cpu { sp: word(val, self.operand8), ..moved },
        }
    }

    /// Reads the byte at PC and advances PC.
    pub fn fetch(&mut self, mmu: &Mmu) -> (op: u8)
        requires
            mmu.wf(),
        ensures
            (*final(self), op) == old(self).fetched(mmu@),
    {
        let op = mmu.read_byte(self.pc);
        self.pc = self.pc.wrapping_add(1);
        op
    }

    /// Pushes PC onto the stack.
    pub fn push_pc_to_stack(&mut self, mmu: &mut Mmu)
        requires
            old(mmu).wf(),
        ensures
            final(mmu).wf(),
            *final(self) == old(self).pushed(old(mmu)@, old(self).pc).0,
            final(mmu)@ =~= old(self).pushed(old(mmu)@, old(self).pc).1,
    {
        self.write_word_to_stack(mmu, self.pc);
    }

    pub fn write_word_to_stack(&mut self, mmu: &mut Mmu, val: u16)
        requires
            old(mmu).wf(),
        ensures
            final(mmu).wf(),
            *final(self) == old(self).pushed(old(mmu)@, val).0,
            final(mmu)@ =~= old(self).pushed(old(mmu)@, val).1,
    {
        self.sp = self.sp.wrapping_sub(2);
        mmu.write_word(self.sp, val);
    }

    pub fn write_byte_to_stack(&mut self, mmu: &mut Mmu, val: u8)
        requires
            old(mmu).wf(),
        ensures
            final(mmu).wf(),
            *final(self) == old(self).pushed_byte(old(mmu)@, val).0,
            final(mmu)@ =~= old(self).pushed_byte(old(mmu)@, val).1,
    {
        self.sp = self.sp.wrapping_sub(1);
        mmu.write_byte(self.sp, val);
    }

    pub fn read_word_from_stack(&mut self, mmu: &Mmu) -> (val: u16)
        requires
            mmu.wf(),
        ensures
            (*final(self), val) == old(self).popped(mmu@),
    {
        let val = mmu.read_word(self.sp);
        self.sp = self.sp.wrapping_add(2);
        val
    }

    pub fn read_byte_from_stack(&mut self, mmu: &Mmu) -> (val: u8)
        requires
            mmu.wf(),
        ensures
            (*final(self), val) == old(self).popped_byte(mmu@),
    {
        let val = mmu.read_byte(self.sp);
        self.sp = self.sp.wrapping_add(1);
        val
    }

    fn read_operand(&self, mmu: &Mmu, register: Register) -> (val: u8)
        requires
            mmu.wf(),
        ensures
            val == self.operand_value(mmu@, register),
    {
        if register.is_memory() {
            mmu.read_byte(self.hl())
        } else {
            self.get_register(register)
        }
    }

    fn store_operand(&mut self, mmu: &mut Mmu, register: Register, val: u8)
        requires
            old(mmu).wf(),
        ensures
            final(mmu).wf(),
            *final(self) == old(self).operand_stored(old(mmu)@, register, val).0,
            final(mmu)@ =~= old(self).operand_stored(old(mmu)@, register, val).1,
    {
        if register.is_memory() {
            mmu.write_byte(self.hl(), val);
        } else {
            self.set_register(register, val);
        }
    }

    fn put_result(&mut self, register: Register, val: u8)
        ensures
            *final(self) == old(self).with_result(register, val),
    {
        if register.is_memory() {
            self.temp_val8 = val;
        } else {
            self.set_register(register, val);
        }
    }

    fn address_of(&self, pointer: Pointer) -> (addr: u16)
        ensures
            addr == self.pointer_address(pointer),
    {
        match pointer {
            Pointer::BC => self.bc(),
            Pointer::DE => self.de(),
            Pointer::HLIncrement => self.hl(),
            Pointer::HLDecrement => self.hl(),
        }
    }

    fn move_pointer(&mut self, pointer: Pointer)
        ensures
            *final(self) == old(self).pointer_moved(pointer),
    {
        proof {
            reveal(Cpu::pointer_moved);
        }
        match pointer {
            Pointer::HLIncrement => self.set_hl(self.hl().wrapping_add(1)),
            Pointer::HLDecrement => self.set_hl(self.hl().wrapping_sub(1)),
            _ => {},
        }
    }

    fn fetch_pair_low(&mut self, mmu: &Mmu, pair: RegisterPair1)
        requires
            mmu.wf(),
        ensures
            *final(self) == old(self).pair_low_fetched(mmu@, pair),
    {
        proof {
            reveal(Cpu::pair_low_fetched);
        }
        let low = self.sp % 256;
        let val = self.fetch(mmu);
        match pair {
            RegisterPair1::BC => self.c = val,
            RegisterPair1::DE => self.e = val,
            RegisterPair1::HL => self.l = val,
            RegisterPair1::SP => {
                self.operand8 = val;
                self.sp = low * 256 + val as u16;
            },
        }
    }

    fn fetch_pair_high(&mut self, mmu: &Mmu, pair: RegisterPair1)
        requires
            mmu.wf(),
        ensures
            *final(self) == old(self).pair_high_fetched(mmu@, pair),
    {
        proof {
            reveal(Cpu::pair_high_fetched);
        }
        let val = self.fetch(mmu);
        match pair {
            RegisterPair1::BC => self.b = val,
            RegisterPair1::DE => self.d = val,
            RegisterPair1::HL => self.h = val,
            RegisterPair1::SP => {
                self.sp = val as u16 * 256 + self.operand8 as u16;
            },
        }
    }

    fn enter_halt(&mut self, mmu: &mut Mmu)
        requires
            old(mmu).wf(),
        ensures
            final(mmu).wf(),
            *final(self) == old(self).halt_entered(old(mmu)@).0,
            final(mmu)@ =~= old(self).halt_entered(old(mmu)@).1,
    {
        proof {
            reveal(Cpu::halt_entered);
        }
        if mmu.interupts.is_master_enabled() {
            self.halted = true;
        } else if mmu.interupts.enable & mmu.interupts.flags != 0 {
            self.halt_bug = true;
        } else {
            self.halted = true;
            self.halted_waiting_for_interupt_pending = true;
            mmu.interupts.waiting_for_halt_if = true;
        }
    }

    fn dispatch(&mut self, mmu: &mut Mmu)
        requires
            old(mmu).wf(),
        ensures
            final(mmu).wf(),
            *final(self) == old(self).dispatched(old(mmu)@).0,
            final(mmu)@ =~= old(self).dispatched(old(mmu)@).1,
    {
        proof {
            reveal(Cpu::dispatched);
        }
        let state = mmu.interupts.get_interupt_state_latched(
            self.temp_val8,
            (self.temp_val_16 % 256) as u8,
        );
        let address = match state {
            Some(flag) => {
                mmu.interupts.clear_interupt(flag);
                Interupt::get_interupt_vector(flag)
            },
            None => 0,
        };
        mmu.interupts.disable_master();
        self.set_pc(address);
    }
}

impl Cpu {
    /// Runs one micro-step.
    #[verifier::rlimit(100)]
    pub fn execute(&mut self, mmu: &mut Mmu, op: MicroOp)
        requires
            old(mmu).wf(),
            op.wf(),
        ensures
            final(mmu).wf(),
            *final(self) == old(self).executed(old(mmu)@, op).0,
            final(mmu)@ =~= old(self).executed(old(mmu)@, op).1,
            final(self).instruction == old(self).instruction,
            final(self).machine_cycles_taken_for_current_step == old(
                self,
            ).machine_cycles_taken_for_current_step,
            final(self).trap == old(self).trap,
            !(op is Halt) ==> final(self).halted == old(self).halted,
    {
        match op {
            MicroOp::Idle
            | MicroOp::FetchOperand8
            | MicroOp::FetchOperand16
            | MicroOp::FetchPairLow(_)
            | MicroOp::FetchPairHigh(_)
            | MicroOp::LoadSpHl
            | MicroOp::LoadImmediate(_)
            | MicroOp::StoreTemp8AtHl => self.execute_fetch(mmu, op),
            MicroOp::StoreA(_)
            | MicroOp::LoadA(_)
            | MicroOp::ReadOperand(_)
            | MicroOp::WriteOperand(_)
            | MicroOp::StoreAHigh
            | MicroOp::LoadAHigh
            | MicroOp::StoreAHighC
            | MicroOp::LoadAHighC
            | MicroOp::StoreAAtOperand16
            | MicroOp::LoadAAtOperand16 => self.execute_move(mmu, op),
            MicroOp::Inc(_)
            | MicroOp::Dec(_)
            | MicroOp::Arithmetic(_)
            | MicroOp::ArithmeticImmediate(_)
            | MicroOp::Rlca
            | MicroOp::Rrca
            | MicroOp::Rla
            | MicroOp::Rra
            | MicroOp::Prefixed(_, _) => self.execute_arithmetic(mmu, op),
            MicroOp::Daa
            | MicroOp::Cpl
            | MicroOp::Scf
            | MicroOp::Ccf
            | MicroOp::AddToHl(_)
            | MicroOp::IncPair(_)
            | MicroOp::DecPair(_)
            | MicroOp::AddSpImmediate
            | MicroOp::LoadHlSpImmediate => self.execute_wide(mmu, op),
            MicroOp::Stop
            | MicroOp::JumpRelative
            | MicroOp::Halt
            | MicroOp::Return
            | MicroOp::ReturnEnable
            | MicroOp::JumpHl
            | MicroOp::Jump
            | MicroOp::Di
            | MicroOp::Ei
            | MicroOp::Restart(_) => self.execute_control(mmu, op),
            MicroOp::StoreSpLowAtOperand16
            | MicroOp::StoreSpHighAtOperand16
            | MicroOp::PopTemp16Low
            | MicroOp::PopTemp16High
            | MicroOp::PopLow(_)
            | MicroOp::PopHigh(_)
            | MicroOp::PushHigh(_)
            | MicroOp::PushLow(_)
            | MicroOp::PushPcHigh
            | MicroOp::PushPcLow => self.execute_half(mmu, op),
            _ => self.execute_interrupt(mmu, op),
        }
    }

    /// Runs an operand fetch or a 16-bit load.
    #[verifier::rlimit(100)]
    fn execute_fetch(&mut self, mmu: &mut Mmu, op: MicroOp)
        requires
            old(mmu).wf(),
            op.wf(),
            matches!(op, MicroOp::Idle | MicroOp::FetchOperand8 | MicroOp::FetchOperand16 | MicroOp::FetchPairLow(_) | MicroOp::FetchPairHigh(_) | MicroOp::LoadSpHl | MicroOp::LoadImmediate(_) | MicroOp::StoreTemp8AtHl),
        ensures
            final(mmu).wf(),
            *final(self) == old(self).executed(old(mmu)@, op).0,
            final(mmu)@ =~= old(self).executed(old(mmu)@, op).1,
            final(self).instruction == old(self).instruction,
            final(self).machine_cycles_taken_for_current_step == old(
                self,
            ).machine_cycles_taken_for_current_step,
            final(self).trap == old(self).trap,
            !(op is Halt) ==> final(self).halted == old(self).halted,
    {
        match op {
            MicroOp::Idle => self.run_idle(mmu),
            MicroOp::FetchOperand8 => self.run_fetch_operand8(mmu),
            MicroOp::FetchOperand16 => self.run_fetch_operand16(mmu),
            MicroOp::FetchPairLow(pair) => self.run_fetch_pair_low(mmu, pair),
            MicroOp::FetchPairHigh(pair) => self.run_fetch_pair_high(mmu, pair),
            MicroOp::LoadSpHl => self.run_load_sp_hl(mmu),
            MicroOp::LoadImmediate(register) => self.run_load_immediate(mmu, register),
            MicroOp::StoreTemp8AtHl => self.run_store_temp8_at_hl(mmu),
            _ => {},
        }
    }

    /// Runs an 8-bit load or store.
    #[verifier::rlimit(100)]
    fn execute_move(&mut self, mmu: &mut Mmu, op: MicroOp)
        requires
            old(mmu).wf(),
            op.wf(),
            matches!(op, MicroOp::StoreA(_) | MicroOp::LoadA(_) | MicroOp::ReadOperand(_) | MicroOp::WriteOperand(_) | MicroOp::StoreAHigh | MicroOp::LoadAHigh | MicroOp::StoreAHighC | MicroOp::LoadAHighC | MicroOp::StoreAAtOperand16 | MicroOp::LoadAAtOperand16),
        ensures
            final(mmu).wf(),
            *final(self) == old(self).executed(old(mmu)@, op).0,
            final(mmu)@ =~= old(self).executed(old(mmu)@, op).1,
            final(self).instruction == old(self).instruction,
            final(self).machine_cycles_taken_for_current_step == old(
                self,
            ).machine_cycles_taken_for_current_step,
            final(self).trap == old(self).trap,
            !(op is Halt) ==> final(self).halted == old(self).halted,
    {
        match op {
            MicroOp::StoreA(pointer) => self.run_store_a(mmu, pointer),
            MicroOp::LoadA(pointer) => self.run_load_a(mmu, pointer),
            MicroOp::ReadOperand(register) => self.run_read_operand(mmu, register),
            MicroOp::WriteOperand(register) => self.run_write_operand(mmu, register),
            MicroOp::StoreAHigh => self.run_store_a_high(mmu),
            MicroOp::LoadAHigh => self.run_load_a_high(mmu),
            MicroOp::StoreAHighC => self.run_store_a_high_c(mmu),
            MicroOp::LoadAHighC => self.run_load_a_high_c(mmu),
            MicroOp::StoreAAtOperand16 => self.run_store_a_at_operand16(mmu),
            MicroOp::LoadAAtOperand16 => self.run_load_a_at_operand16(mmu),
            _ => {},
        }
    }

    /// Runs an 8-bit arithmetic, rotate or bit operation.
    #[verifier::rlimit(100)]
    fn execute_arithmetic(&mut self, mmu: &mut Mmu, op: MicroOp)
        requires
            old(mmu).wf(),
            op.wf(),
            matches!(op, MicroOp::Inc(_) | MicroOp::Dec(_) | MicroOp::Arithmetic(_) | MicroOp::ArithmeticImmediate(_) | MicroOp::Rlca | MicroOp::Rrca | MicroOp::Rla | MicroOp::Rra | MicroOp::Prefixed(_, _)),
        ensures
            final(mmu).wf(),
            *final(self) == old(self).executed(old(mmu)@, op).0,
            final(mmu)@ =~= old(self).executed(old(mmu)@, op).1,
            final(self).instruction == old(self).instruction,
            final(self).machine_cycles_taken_for_current_step == old(
                self,
            ).machine_cycles_taken_for_current_step,
            final(self).trap == old(self).trap,
            !(op is Halt) ==> final(self).halted == old(self).halted,
    {
        match op {
            MicroOp::Inc(register) => self.run_inc(mmu, register),
            MicroOp::Dec(register) => self.run_dec(mmu, register),
            MicroOp::Arithmetic(operation) => self.run_arithmetic(mmu, operation),
            MicroOp::ArithmeticImmediate(operation) => self.run_arithmetic_immediate(mmu, operation),
            MicroOp::Rlca => self.run_rlca(mmu),
            MicroOp::Rrca => self.run_rrca(mmu),
            MicroOp::Rla => self.run_rla(mmu),
            MicroOp::Rra => self.run_rra(mmu),
            MicroOp::Prefixed(operation, register) => self.run_prefixed(mmu, operation, register),
            _ => {},
        }
    }

    /// Runs a flag operation or a 16-bit arithmetic operation.
    #[verifier::rlimit(100)]
    fn execute_wide(&mut self, mmu: &mut Mmu, op: MicroOp)
        requires
            old(mmu).wf(),
            op.wf(),
            matches!(op, MicroOp::Daa | MicroOp::Cpl | MicroOp::Scf | MicroOp::Ccf | MicroOp::AddToHl(_) | MicroOp::IncPair(_) | MicroOp::DecPair(_) | MicroOp::AddSpImmediate | MicroOp::LoadHlSpImmediate),
        ensures
            final(mmu).wf(),
            *final(self) == old(self).executed(old(mmu)@, op).0,
            final(mmu)@ =~= old(self).executed(old(mmu)@, op).1,
            final(self).instruction == old(self).instruction,
            final(self).machine_cycles_taken_for_current_step == old(
                self,
            ).machine_cycles_taken_for_current_step,
            final(self).trap == old(self).trap,
            !(op is Halt) ==> final(self).halted == old(self).halted,
    {
        match op {
            MicroOp::Daa => self.run_daa(mmu),
            MicroOp::Cpl => self.run_cpl(mmu),
            MicroOp::Scf => self.run_scf(mmu),
            MicroOp::Ccf => self.run_ccf(mmu),
            MicroOp::AddToHl(pair) => self.run_add_to_hl(mmu, pair),
            MicroOp::IncPair(pair) => self.run_inc_pair(mmu, pair),
            MicroOp::DecPair(pair) => self.run_dec_pair(mmu, pair),
            MicroOp::AddSpImmediate => self.run_add_sp_immediate(mmu),
            MicroOp::LoadHlSpImmediate => self.run_load_hl_sp_immediate(mmu),
            _ => {},
        }
    }

    /// Runs a jump, a return or a change of mode.
    #[verifier::rlimit(100)]
    fn execute_control(&mut self, mmu: &mut Mmu, op: MicroOp)
        requires
            old(mmu).wf(),
            op.wf(),
            matches!(op, MicroOp::Stop | MicroOp::JumpRelative | MicroOp::Halt | MicroOp::Return | MicroOp::ReturnEnable | MicroOp::JumpHl | MicroOp::Jump | MicroOp::Di | MicroOp::Ei | MicroOp::Restart(_)),
        ensures
            final(mmu).wf(),
            *final(self) == old(self).executed(old(mmu)@, op).0,
            final(mmu)@ =~= old(self).executed(old(mmu)@, op).1,
            final(self).instruction == old(self).instruction,
            final(self).machine_cycles_taken_for_current_step == old(
                self,
            ).machine_cycles_taken_for_current_step,
            final(self).trap == old(self).trap,
            !(op is Halt) ==> final(self).halted == old(self).halted,
    {
        match op {
            MicroOp::Stop => self.run_stop(mmu),
            MicroOp::JumpRelative => self.run_jump_relative(mmu),
            MicroOp::Halt => self.run_halt(mmu),
            MicroOp::Return => self.run_return(mmu),
            MicroOp::ReturnEnable => self.run_return_enable(mmu),
            MicroOp::JumpHl => self.run_jump_hl(mmu),
            MicroOp::Jump => self.run_jump(mmu),
            MicroOp::Di => self.run_di(mmu),
            MicroOp::Ei => self.run_ei(mmu),
            MicroOp::Restart(vector) => self.run_restart(mmu, vector),
            _ => {},
        }
    }

    /// Runs one half of a 16-bit stack or memory access.
    #[verifier::rlimit(100)]
    fn execute_half(&mut self, mmu: &mut Mmu, op: MicroOp)
        requires
            old(mmu).wf(),
            op.wf(),
            matches!(op, MicroOp::StoreSpLowAtOperand16 | MicroOp::StoreSpHighAtOperand16 | MicroOp::PopTemp16Low | MicroOp::PopTemp16High | MicroOp::PopLow(_) | MicroOp::PopHigh(_) | MicroOp::PushHigh(_) | MicroOp::PushLow(_) | MicroOp::PushPcHigh | MicroOp::PushPcLow),
        ensures
            final(mmu).wf(),
            *final(self) == old(self).executed(old(mmu)@, op).0,
            final(mmu)@ =~= old(self).executed(old(mmu)@, op).1,
            final(self).instruction == old(self).instruction,
            final(self).machine_cycles_taken_for_current_step == old(
                self,
            ).machine_cycles_taken_for_current_step,
            final(self).trap == old(self).trap,
            !(op is Halt) ==> final(self).halted == old(self).halted,
    {
        match op {
            MicroOp::StoreSpLowAtOperand16 => self.run_store_sp_low(mmu),
            MicroOp::StoreSpHighAtOperand16 => self.run_store_sp_high(mmu),
            MicroOp::PopTemp16Low => self.run_pop_temp16_low(mmu),
            MicroOp::PopTemp16High => self.run_pop_temp16_high(mmu),
            MicroOp::PopLow(pair) => self.run_pop_low(mmu, pair),
            MicroOp::PopHigh(pair) => self.run_pop_high(mmu, pair),
            MicroOp::PushHigh(pair) => self.run_push_high(mmu, pair),
            MicroOp::PushLow(pair) => self.run_push_low(mmu, pair),
            MicroOp::PushPcHigh => self.run_push_pc_high(mmu),
            MicroOp::PushPcLow => self.run_push_pc_low(mmu),
            _ => {},
        }
    }

    /// Runs a step of the interrupt service routine.
    #[verifier::rlimit(100)]
    fn execute_interrupt(&mut self, mmu: &mut Mmu, op: MicroOp)
        requires
            old(mmu).wf(),
            op.wf(),
            matches!(op, MicroOp::PushPcHighLatchEnable | MicroOp::PushPcLowLatchFlags | MicroOp::Dispatch),
        ensures
            final(mmu).wf(),
            *final(self) == old(self).executed(old(mmu)@, op).0,
            final(mmu)@ =~= old(self).executed(old(mmu)@, op).1,
            final(self).instruction == old(self).instruction,
            final(self).machine_cycles_taken_for_current_step == old(
                self,
            ).machine_cycles_taken_for_current_step,
            final(self).trap == old(self).trap,
            !(op is Halt) ==> final(self).halted == old(self).halted,
    {
        match op {
            MicroOp::PushPcHighLatchEnable => self.run_push_pc_high_latch_enable(mmu),
            MicroOp::PushPcLowLatchFlags => self.run_push_pc_low_latch_flags(mmu),
            MicroOp::Dispatch => self.run_dispatch(mmu),
            _ => {},
        }
    }

    fn run_idle(&mut self, mmu: &mut Mmu)
        requires
            old(mmu).wf(),
        ensures
            final(mmu).wf(),
            *final(self) == old(self).executed(old(mmu)@, MicroOp::Idle).0,
            final(mmu)@ =~= old(self).executed(old(mmu)@, MicroOp::Idle).1,
            final(self).instruction == old(self).instruction,
            final(self).machine_cycles_taken_for_current_step == old(
                self,
            ).machine_cycles_taken_for_current_step,
            final(self).trap == old(self).trap,
            final(self).halted == old(self).halted,
    {
        proof {
            reveal(Cpu::executed);
        }
    }

    fn run_fetch_operand8(&mut self, mmu: &mut Mmu)
        requires
            old(mmu).wf(),
        ensures
            final(mmu).wf(),
            *final(self) == old(self).executed(old(mmu)@, MicroOp::FetchOperand8).0,
            final(mmu)@ =~= old(self).executed(old(mmu)@, MicroOp::FetchOperand8).1,
            final(self).instruction == old(self).instruction,
            final(self).machine_cycles_taken_for_current_step == old(
                self,
            ).machine_cycles_taken_for_current_step,
            final(self).trap == old(self).trap,
            final(self).halted == old(self).halted,
    {
        proof {
            reveal(Cpu::executed);
        }
        let val = self.fetch(mmu);
        self.operand8 = val;
    }

    fn run_fetch_operand16(&mut self, mmu: &mut Mmu)
        requires
            old(mmu).wf(),
        ensures
            final(mmu).wf(),
            *final(self) == old(self).executed(old(mmu)@, MicroOp::FetchOperand16).0,
            final(mmu)@ =~= old(self).executed(old(mmu)@, MicroOp::FetchOperand16).1,
            final(self).instruction == old(self).instruction,
            final(self).machine_cycles_taken_for_current_step == old(
                self,
            ).machine_cycles_taken_for_current_step,
            final(self).trap == old(self).trap,
            final(self).halted == old(self).halted,
    {
        proof {
            reveal(Cpu::executed);
        }
        let higher_bits = self.fetch(mmu);
        self.operand16 = higher_bits as u16 * 256 + self.operand8 as u16;
    }

    fn run_fetch_pair_low(&mut self, mmu: &mut Mmu, pair: RegisterPair1)
        requires
            old(mmu).wf(),
        ensures
            final(mmu).wf(),
            *final(self) == old(self).executed(old(mmu)@, MicroOp::FetchPairLow(pair)).0,
            final(mmu)@ =~= old(self).executed(old(mmu)@, MicroOp::FetchPairLow(pair)).1,
            final(self).instruction == old(self).instruction,
            final(self).machine_cycles_taken_for_current_step == old(
                self,
            ).machine_cycles_taken_for_current_step,
            final(self).trap == old(self).trap,
            final(self).halted == old(self).halted,
    {
        proof {
            reveal(Cpu::executed);
            reveal(Cpu::pair_low_fetched);
        }
        self.fetch_pair_low(mmu, pair);
    }

    fn run_fetch_pair_high(&mut self, mmu: &mut Mmu, pair: RegisterPair1)
        requires
            old(mmu).wf(),
        ensures
            final(mmu).wf(),
            *final(self) == old(self).executed(old(mmu)@, MicroOp::FetchPairHigh(pair)).0,
            final(mmu)@ =~= old(self).executed(old(mmu)@, MicroOp::FetchPairHigh(pair)).1,
            final(self).instruction == old(self).instruction,
            final(self).machine_cycles_taken_for_current_step == old(
                self,
            ).machine_cycles_taken_for_current_step,
            final(self).trap == old(self).trap,
            final(self).halted == old(self).halted,
    {
        proof {
            reveal(Cpu::executed);
            reveal(Cpu::pair_high_fetched);
        }
        self.fetch_pair_high(mmu, pair);
    }

    fn run_store_a(&mut self, mmu: &mut Mmu, pointer: Pointer)
        requires
            old(mmu).wf(),
        ensures
            final(mmu).wf(),
            *final(self) == old(self).executed(old(mmu)@, MicroOp::StoreA(pointer)).0,
            final(mmu)@ =~= old(self).executed(old(mmu)@, MicroOp::StoreA(pointer)).1,
            final(self).instruction == old(self).instruction,
            final(self).machine_cycles_taken_for_current_step == old(
                self,
            ).machine_cycles_taken_for_current_step,
            final(self).trap == old(self).trap,
            final(self).halted == old(self).halted,
    {
        proof {
            reveal(Cpu::executed);
            reveal(Cpu::pointer_moved);
        }
        mmu.write_byte(self.address_of(pointer), self.a);
        self.move_pointer(pointer);
    }

    fn run_load_a(&mut self, mmu: &mut Mmu, pointer: Pointer)
        requires
            old(mmu).wf(),
        ensures
            final(mmu).wf(),
            *final(self) == old(self).executed(old(mmu)@, MicroOp::LoadA(pointer)).0,
            final(mmu)@ =~= old(self).executed(old(mmu)@, MicroOp::LoadA(pointer)).1,
            final(self).instruction == old(self).instruction,
            final(self).machine_cycles_taken_for_current_step == old(
                self,
            ).machine_cycles_taken_for_current_step,
            final(self).trap == old(self).trap,
            final(self).halted == old(self).halted,
    {
        proof {
            reveal(Cpu::executed);
            reveal(Cpu::pointer_moved);
        }
        let val = mmu.read_byte(self.address_of(pointer));
        self.move_pointer(pointer);
        self.a = val;
    }

    fn run_store_temp8_at_hl(&mut self, mmu: &mut Mmu)
        requires
            old(mmu).wf(),
        ensures
            final(mmu).wf(),
            *final(self) == old(self).executed(old(mmu)@, MicroOp::StoreTemp8AtHl).0,
            final(mmu)@ =~= old(self).executed(old(mmu)@, MicroOp::StoreTemp8AtHl).1,
            final(self).instruction == old(self).instruction,
            final(self).machine_cycles_taken_for_current_step == old(
                self,
            ).machine_cycles_taken_for_current_step,
            final(self).trap == old(self).trap,
            final(self).halted == old(self).halted,
    {
        proof {
            reveal(Cpu::executed);
        }
        mmu.write_byte(self.hl(), self.temp_val8);
    }

    fn run_load_immediate(&mut self, mmu: &mut Mmu, register: Register)
        requires
            old(mmu).wf(),
        ensures
            final(mmu).wf(),
            *final(self) == old(self).executed(old(mmu)@, MicroOp::LoadImmediate(register)).0,
            final(mmu)@ =~= old(self).executed(old(mmu)@, MicroOp::LoadImmediate(register)).1,
            final(self).instruction == old(self).instruction,
            final(self).machine_cycles_taken_for_current_step == old(
                self,
            ).machine_cycles_taken_for_current_step,
            final(self).trap == old(self).trap,
            final(self).halted == old(self).halted,
    {
        proof {
            reveal(Cpu::executed);
        }
        self.store_operand(mmu, register, self.operand8);
    }

    fn run_read_operand(&mut self, mmu: &mut Mmu, register: Register)
        requires
            old(mmu).wf(),
        ensures
            final(mmu).wf(),
            *final(self) == old(self).executed(old(mmu)@, MicroOp::ReadOperand(register)).0,
            final(mmu)@ =~= old(self).executed(old(mmu)@, MicroOp::ReadOperand(register)).1,
            final(self).instruction == old(self).instruction,
            final(self).machine_cycles_taken_for_current_step == old(
                self,
            ).machine_cycles_taken_for_current_step,
            final(self).trap == old(self).trap,
            final(self).halted == old(self).halted,
    {
        proof {
            reveal(Cpu::executed);
        }
        self.temp_val8 = self.read_operand(mmu, register);
    }

    fn run_write_operand(&mut self, mmu: &mut Mmu, register: Register)
        requires
            old(mmu).wf(),
        ensures
            final(mmu).wf(),
            *final(self) == old(self).executed(old(mmu)@, MicroOp::WriteOperand(register)).0,
            final(mmu)@ =~= old(self).executed(old(mmu)@, MicroOp::WriteOperand(register)).1,
            final(self).instruction == old(self).instruction,
            final(self).machine_cycles_taken_for_current_step == old(
                self,
            ).machine_cycles_taken_for_current_step,
            final(self).trap == old(self).trap,
            final(self).halted == old(self).halted,
    {
        proof {
            reveal(Cpu::executed);
        }
        self.store_operand(mmu, register, self.temp_val8);
    }

    fn run_store_a_high(&mut self, mmu: &mut Mmu)
        requires
            old(mmu).wf(),
        ensures
            final(mmu).wf(),
            *final(self) == old(self).executed(old(mmu)@, MicroOp::StoreAHigh).0,
            final(mmu)@ =~= old(self).executed(old(mmu)@, MicroOp::StoreAHigh).1,
            final(self).instruction == old(self).instruction,
            final(self).machine_cycles_taken_for_current_step == old(
                self,
            ).machine_cycles_taken_for_current_step,
            final(self).trap == old(self).trap,
            final(self).halted == old(self).halted,
    {
        proof {
            reveal(Cpu::executed);
        }
        mmu.write_byte(0xFF00 + self.operand8 as u16, self.a);
    }

    fn run_load_a_high(&mut self, mmu: &mut Mmu)
        requires
            old(mmu).wf(),
        ensures
            final(mmu).wf(),
            *final(self) == old(self).executed(old(mmu)@, MicroOp::LoadAHigh).0,
            final(mmu)@ =~= old(self).executed(old(mmu)@, MicroOp::LoadAHigh).1,
            final(self).instruction == old(self).instruction,
            final(self).machine_cycles_taken_for_current_step == old(
                self,
            ).machine_cycles_taken_for_current_step,
            final(self).trap == old(self).trap,
            final(self).halted == old(self).halted,
    {
        proof {
            reveal(Cpu::executed);
        }
        self.a = mmu.read_byte(0xFF00 + self.operand8 as u16);
    }

    fn run_load_sp_hl(&mut self, mmu: &mut Mmu)
        requires
            old(mmu).wf(),
        ensures
            final(mmu).wf(),
            *final(self) == old(self).executed(old(mmu)@, MicroOp::LoadSpHl).0,
            final(mmu)@ =~= old(self).executed(old(mmu)@, MicroOp::LoadSpHl).1,
            final(self).instruction == old(self).instruction,
            final(self).machine_cycles_taken_for_current_step == old(
                self,
            ).machine_cycles_taken_for_current_step,
            final(self).trap == old(self).trap,
            final(self).halted == old(self).halted,
    {
        proof {
            reveal(Cpu::executed);
        }
        self.sp = self.hl();
    }

    fn run_store_a_high_c(&mut self, mmu: &mut Mmu)
        requires
            old(mmu).wf(),
        ensures
            final(mmu).wf(),
            *final(self) == old(self).executed(old(mmu)@, MicroOp::StoreAHighC).0,
            final(mmu)@ =~= old(self).executed(old(mmu)@, MicroOp::StoreAHighC).1,
            final(self).instruction == old(self).instruction,
            final(self).machine_cycles_taken_for_current_step == old(
                self,
            ).machine_cycles_taken_for_current_step,
            final(self).trap == old(self).trap,
            final(self).halted == old(self).halted,
    {
        proof {
            reveal(Cpu::executed);
        }
        mmu.write_byte(0xFF00 + self.c as u16, self.a);
    }

    fn run_load_a_high_c(&mut self, mmu: &mut Mmu)
        requires
            old(mmu).wf(),
        ensures
            final(mmu).wf(),
            *final(self) == old(self).executed(old(mmu)@, MicroOp::LoadAHighC).0,
            final(mmu)@ =~= old(self).executed(old(mmu)@, MicroOp::LoadAHighC).1,
            final(self).instruction == old(self).instruction,
            final(self).machine_cycles_taken_for_current_step == old(
                self,
            ).machine_cycles_taken_for_current_step,
            final(self).trap == old(self).trap,
            final(self).halted == old(self).halted,
    {
        proof {
            reveal(Cpu::executed);
        }
        self.a = mmu.read_byte(0xFF00 + self.c as u16);
    }

    fn run_store_a_at_operand16(&mut self, mmu: &mut Mmu)
        requires
            old(mmu).wf(),
        ensures
            final(mmu).wf(),
            *final(self) == old(self).executed(old(mmu)@, MicroOp::StoreAAtOperand16).0,
            final(mmu)@ =~= old(self).executed(old(mmu)@, MicroOp::StoreAAtOperand16).1,
            final(self).instruction == old(self).instruction,
            final(self).machine_cycles_taken_for_current_step == old(
                self,
            ).machine_cycles_taken_for_current_step,
            final(self).trap == old(self).trap,
            final(self).halted == old(self).halted,
    {
        proof {
            reveal(Cpu::executed);
        }
        mmu.write_byte(self.operand16, self.a);
    }

    fn run_load_a_at_operand16(&mut self, mmu: &mut Mmu)
        requires
            old(mmu).wf(),
        ensures
            final(mmu).wf(),
            *final(self) == old(self).executed(old(mmu)@, MicroOp::LoadAAtOperand16).0,
            final(mmu)@ =~= old(self).executed(old(mmu)@, MicroOp::LoadAAtOperand16).1,
            final(self).instruction == old(self).instruction,
            final(self).machine_cycles_taken_for_current_step == old(
                self,
            ).machine_cycles_taken_for_current_step,
            final(self).trap == old(self).trap,
            final(self).halted == old(self).halted,
    {
        proof {
            reveal(Cpu::executed);
        }
        self.a = mmu.read_byte(self.operand16);
    }

    fn run_add_to_hl(&mut self, mmu: &mut Mmu, pair: RegisterPair1)
        requires
            old(mmu).wf(),
        ensures
            final(mmu).wf(),
            *final(self) == old(self).executed(old(mmu)@, MicroOp::AddToHl(pair)).0,
            final(mmu)@ =~= old(self).executed(old(mmu)@, MicroOp::AddToHl(pair)).1,
            final(self).instruction == old(self).instruction,
            final(self).machine_cycles_taken_for_current_step == old(
                self,
            ).machine_cycles_taken_for_current_step,
            final(self).trap == old(self).trap,
            final(self).halted == old(self).halted,
    {
        proof {
            reveal(Cpu::executed);
            reveal(Cpu::add_hl_result);
        }
        let result = self.add_hl_r16(self.hl(), self.get_pair1(pair));
        self.set_hl(result);
    }

    fn run_inc_pair(&mut self, mmu: &mut Mmu, pair: RegisterPair1)
        requires
            old(mmu).wf(),
        ensures
            final(mmu).wf(),
            *final(self) == old(self).executed(old(mmu)@, MicroOp::IncPair(pair)).0,
            final(mmu)@ =~= old(self).executed(old(mmu)@, MicroOp::IncPair(pair)).1,
            final(self).instruction == old(self).instruction,
            final(self).machine_cycles_taken_for_current_step == old(
                self,
            ).machine_cycles_taken_for_current_step,
            final(self).trap == old(self).trap,
            final(self).halted == old(self).halted,
    {
        proof {
            reveal(Cpu::executed);
        }
        self.set_pair1(pair, self.get_pair1(pair).wrapping_add(1));
    }

    fn run_dec_pair(&mut self, mmu: &mut Mmu, pair: RegisterPair1)
        requires
            old(mmu).wf(),
        ensures
            final(mmu).wf(),
            *final(self) == old(self).executed(old(mmu)@, MicroOp::DecPair(pair)).0,
            final(mmu)@ =~= old(self).executed(old(mmu)@, MicroOp::DecPair(pair)).1,
            final(self).instruction == old(self).instruction,
            final(self).machine_cycles_taken_for_current_step == old(
                self,
            ).machine_cycles_taken_for_current_step,
            final(self).trap == old(self).trap,
            final(self).halted == old(self).halted,
    {
        proof {
            reveal(Cpu::executed);
        }
        self.set_pair1(pair, self.get_pair1(pair).wrapping_sub(1));
    }

    fn run_inc(&mut self, mmu: &mut Mmu, register: Register)
        requires
            old(mmu).wf(),
        ensures
            final(mmu).wf(),
            *final(self) == old(self).executed(old(mmu)@, MicroOp::Inc(register)).0,
            final(mmu)@ =~= old(self).executed(old(mmu)@, MicroOp::Inc(register)).1,
            final(self).instruction == old(self).instruction,
            final(self).machine_cycles_taken_for_current_step == old(
                self,
            ).machine_cycles_taken_for_current_step,
            final(self).trap == old(self).trap,
            final(self).halted == old(self).halted,
    {
        proof {
            reveal(Cpu::executed);
            reveal(Cpu::inc_result);
        }
        let val = self.read_operand(mmu, register);
        let result = self.inc(val);
        self.put_result(register, result);
    }

    fn run_dec(&mut self, mmu: &mut Mmu, register: Register)
        requires
            old(mmu).wf(),
        ensures
            final(mmu).wf(),
            *final(self) == old(self).executed(old(mmu)@, MicroOp::Dec(register)).0,
            final(mmu)@ =~= old(self).executed(old(mmu)@, MicroOp::Dec(register)).1,
            final(self).instruction == old(self).instruction,
            final(self).machine_cycles_taken_for_current_step == old(
                self,
            ).machine_cycles_taken_for_current_step,
            final(self).trap == old(self).trap,
            final(self).halted == old(self).halted,
    {
        proof {
            reveal(Cpu::executed);
            reveal(Cpu::dec_result);
        }
        let val = self.read_operand(mmu, register);
        let result = self.dec(val);
        self.put_result(register, result);
    }

    fn run_rlca(&mut self, mmu: &mut Mmu)
        requires
            old(mmu).wf(),
        ensures
            final(mmu).wf(),
            *final(self) == old(self).executed(old(mmu)@, MicroOp::Rlca).0,
            final(mmu)@ =~= old(self).executed(old(mmu)@, MicroOp::Rlca).1,
            final(self).instruction == old(self).instruction,
            final(self).machine_cycles_taken_for_current_step == old(
                self,
            ).machine_cycles_taken_for_current_step,
            final(self).trap == old(self).trap,
            final(self).halted == old(self).halted,
    {
        proof {
            reveal(Cpu::executed);
            reveal(Cpu::rotation);
        }
        self.rotate_a(CBOp::RLC);
    }

    fn run_rrca(&mut self, mmu: &mut Mmu)
        requires
            old(mmu).wf(),
        ensures
            final(mmu).wf(),
            *final(self) == old(self).executed(old(mmu)@, MicroOp::Rrca).0,
            final(mmu)@ =~= old(self).executed(old(mmu)@, MicroOp::Rrca).1,
            final(self).instruction == old(self).instruction,
            final(self).machine_cycles_taken_for_current_step == old(
                self,
            ).machine_cycles_taken_for_current_step,
            final(self).trap == old(self).trap,
            final(self).halted == old(self).halted,
    {
        proof {
            reveal(Cpu::executed);
            reveal(Cpu::rotation);
        }
        self.rotate_a(CBOp::RRC);
    }

    fn run_rla(&mut self, mmu: &mut Mmu)
        requires
            old(mmu).wf(),
        ensures
            final(mmu).wf(),
            *final(self) == old(self).executed(old(mmu)@, MicroOp::Rla).0,
            final(mmu)@ =~= old(self).executed(old(mmu)@, MicroOp::Rla).1,
            final(self).instruction == old(self).instruction,
            final(self).machine_cycles_taken_for_current_step == old(
                self,
            ).machine_cycles_taken_for_current_step,
            final(self).trap == old(self).trap,
            final(self).halted == old(self).halted,
    {
        proof {
            reveal(Cpu::executed);
            reveal(Cpu::rotation);
        }
        self.rotate_a(CBOp::RL);
    }

    fn run_rra(&mut self, mmu: &mut Mmu)
        requires
            old(mmu).wf(),
        ensures
            final(mmu).wf(),
            *final(self) == old(self).executed(old(mmu)@, MicroOp::Rra).0,
            final(mmu)@ =~= old(self).executed(old(mmu)@, MicroOp::Rra).1,
            final(self).instruction == old(self).instruction,
            final(self).machine_cycles_taken_for_current_step == old(
                self,
            ).machine_cycles_taken_for_current_step,
            final(self).trap == old(self).trap,
            final(self).halted == old(self).halted,
    {
        proof {
            reveal(Cpu::executed);
            reveal(Cpu::rotation);
        }
        self.rotate_a(CBOp::RR);
    }

    fn run_daa(&mut self, mmu: &mut Mmu)
        requires
            old(mmu).wf(),
        ensures
            final(mmu).wf(),
            *final(self) == old(self).executed(old(mmu)@, MicroOp::Daa).0,
            final(mmu)@ =~= old(self).executed(old(mmu)@, MicroOp::Daa).1,
            final(self).instruction == old(self).instruction,
            final(self).machine_cycles_taken_for_current_step == old(
                self,
            ).machine_cycles_taken_for_current_step,
            final(self).trap == old(self).trap,
            final(self).halted == old(self).halted,
    {
        proof {
            reveal(Cpu::executed);
            reveal(Cpu::daa_result);
        }
        self.daa();
    }

    fn run_cpl(&mut self, mmu: &mut Mmu)
        requires
            old(mmu).wf(),
        ensures
            final(mmu).wf(),
            *final(self) == old(self).executed(old(mmu)@, MicroOp::Cpl).0,
            final(mmu)@ =~= old(self).executed(old(mmu)@, MicroOp::Cpl).1,
            final(self).instruction == old(self).instruction,
            final(self).machine_cycles_taken_for_current_step == old(
                self,
            ).machine_cycles_taken_for_current_step,
            final(self).trap == old(self).trap,
            final(self).halted == old(self).halted,
    {
        proof {
            reveal(Cpu::executed);
        }
        self.a = 255 - self.a;
        self.subtract = true;
        self.half_carry = true;
    }

    fn run_scf(&mut self, mmu: &mut Mmu)
        requires
            old(mmu).wf(),
        ensures
            final(mmu).wf(),
            *final(self) == old(self).executed(old(mmu)@, MicroOp::Scf).0,
            final(mmu)@ =~= old(self).executed(old(mmu)@, MicroOp::Scf).1,
            final(self).instruction == old(self).instruction,
            final(self).machine_cycles_taken_for_current_step == old(
                self,
            ).machine_cycles_taken_for_current_step,
            final(self).trap == old(self).trap,
            final(self).halted == old(self).halted,
    {
        proof {
            reveal(Cpu::executed);
        }
        self.carry = true;
        self.subtract = false;
        self.half_carry = false;
    }

    fn run_ccf(&mut self, mmu: &mut Mmu)
        requires
            old(mmu).wf(),
        ensures
            final(mmu).wf(),
            *final(self) == old(self).executed(old(mmu)@, MicroOp::Ccf).0,
            final(mmu)@ =~= old(self).executed(old(mmu)@, MicroOp::Ccf).1,
            final(self).instruction == old(self).instruction,
            final(self).machine_cycles_taken_for_current_step == old(
                self,
            ).machine_cycles_taken_for_current_step,
            final(self).trap == old(self).trap,
            final(self).halted == old(self).halted,
    {
        proof {
            reveal(Cpu::executed);
        }
        self.carry = !self.carry;
        self.subtract = false;
        self.half_carry = false;
    }

    fn run_arithmetic(&mut self, mmu: &mut Mmu, operation: ArithmeticOp)
        requires
            old(mmu).wf(),
        ensures
            final(mmu).wf(),
            *final(self) == old(self).executed(old(mmu)@, MicroOp::Arithmetic(operation)).0,
            final(mmu)@ =~= old(self).executed(old(mmu)@, MicroOp::Arithmetic(operation)).1,
            final(self).instruction == old(self).instruction,
            final(self).machine_cycles_taken_for_current_step == old(
                self,
            ).machine_cycles_taken_for_current_step,
            final(self).trap == old(self).trap,
            final(self).halted == old(self).halted,
    {
        proof {
            reveal(Cpu::executed);
            reveal(Cpu::arithmetic_result);
            reveal(Cpu::add_result);
            reveal(Cpu::adc_result);
            reveal(Cpu::sub_result);
            reveal(Cpu::sbc_result);
            reveal(Cpu::and_result);
            reveal(Cpu::or_result);
            reveal(Cpu::xor_result);
            reveal(Cpu::cp_result);
        }
        self.arithmetic(operation, self.temp_val8);
    }

    fn run_arithmetic_immediate(&mut self, mmu: &mut Mmu, operation: ArithmeticOp)
        requires
            old(mmu).wf(),
        ensures
            final(mmu).wf(),
            *final(self) == old(self).executed(old(mmu)@, MicroOp::ArithmeticImmediate(operation)).0,
            final(mmu)@ =~= old(self).executed(old(mmu)@, MicroOp::ArithmeticImmediate(operation)).1,
            final(self).instruction == old(self).instruction,
            final(self).machine_cycles_taken_for_current_step == old(
                self,
            ).machine_cycles_taken_for_current_step,
            final(self).trap == old(self).trap,
            final(self).halted == old(self).halted,
    {
        proof {
            reveal(Cpu::executed);
            reveal(Cpu::arithmetic_result);
            reveal(Cpu::add_result);
            reveal(Cpu::adc_result);
            reveal(Cpu::sub_result);
            reveal(Cpu::sbc_result);
            reveal(Cpu::and_result);
            reveal(Cpu::or_result);
            reveal(Cpu::xor_result);
            reveal(Cpu::cp_result);
        }
        self.arithmetic(operation, self.operand8);
    }

    fn run_add_sp_immediate(&mut self, mmu: &mut Mmu)
        requires
            old(mmu).wf(),
        ensures
            final(mmu).wf(),
            *final(self) == old(self).executed(old(mmu)@, MicroOp::AddSpImmediate).0,
            final(mmu)@ =~= old(self).executed(old(mmu)@, MicroOp::AddSpImmediate).1,
            final(self).instruction == old(self).instruction,
            final(self).machine_cycles_taken_for_current_step == old(
                self,
            ).machine_cycles_taken_for_current_step,
            final(self).trap == old(self).trap,
            final(self).halted == old(self).halted,
    {
        proof {
            reveal(Cpu::executed);
            reveal(Cpu::sp_offset_result);
        }
        let result = self.sp_offset(self.operand8);
        self.sp = result;
    }

    fn run_load_hl_sp_immediate(&mut self, mmu: &mut Mmu)
        requires
            old(mmu).wf(),
        ensures
            final(mmu).wf(),
            *final(self) == old(self).executed(old(mmu)@, MicroOp::LoadHlSpImmediate).0,
            final(mmu)@ =~= old(self).executed(old(mmu)@, MicroOp::LoadHlSpImmediate).1,
            final(self).instruction == old(self).instruction,
            final(self).machine_cycles_taken_for_current_step == old(
                self,
            ).machine_cycles_taken_for_current_step,
            final(self).trap == old(self).trap,
            final(self).halted == old(self).halted,
    {
        proof {
            reveal(Cpu::executed);
            reveal(Cpu::sp_offset_result);
        }
        let result = self.sp_offset(self.operand8);
        self.set_hl(result);
    }

    fn run_prefixed(&mut self, mmu: &mut Mmu, operation: PrefixedOp, register: Register)
        requires
            old(mmu).wf(),
            (MicroOp::Prefixed(operation, register)).wf(),
        ensures
            final(mmu).wf(),
            *final(self) == old(self).executed(old(mmu)@, MicroOp::Prefixed(operation, register)).0,
            final(mmu)@ =~= old(self).executed(old(mmu)@, MicroOp::Prefixed(operation, register)).1,
            final(self).instruction == old(self).instruction,
            final(self).machine_cycles_taken_for_current_step == old(
                self,
            ).machine_cycles_taken_for_current_step,
            final(self).trap == old(self).trap,
            final(self).halted == old(self).halted,
    {
        proof {
            reveal(Cpu::executed);
            reveal(Cpu::prefixed_result);
            reveal(Cpu::rotation);
            reveal(Cpu::bit_result);
        }
        let val = self.read_operand(mmu, register);
        let result = self.prefixed(operation, val);
        self.put_result(register, result);
    }

    fn run_stop(&mut self, mmu: &mut Mmu)
        requires
            old(mmu).wf(),
        ensures
            final(mmu).wf(),
            *final(self) == old(self).executed(old(mmu)@, MicroOp::Stop).0,
            final(mmu)@ =~= old(self).executed(old(mmu)@, MicroOp::Stop).1,
            final(self).instruction == old(self).instruction,
            final(self).machine_cycles_taken_for_current_step == old(
                self,
            ).machine_cycles_taken_for_current_step,
            final(self).trap == old(self).trap,
            final(self).halted == old(self).halted,
    {
        proof {
            reveal(Cpu::executed);
        }
        self.stopped = true;
    }

    fn run_jump_relative(&mut self, mmu: &mut Mmu)
        requires
            old(mmu).wf(),
        ensures
            final(mmu).wf(),
            *final(self) == old(self).executed(old(mmu)@, MicroOp::JumpRelative).0,
            final(mmu)@ =~= old(self).executed(old(mmu)@, MicroOp::JumpRelative).1,
            final(self).instruction == old(self).instruction,
            final(self).machine_cycles_taken_for_current_step == old(
                self,
            ).machine_cycles_taken_for_current_step,
            final(self).trap == old(self).trap,
            final(self).halted == old(self).halted,
    {
        proof {
            reveal(Cpu::executed);
        }
        self.jump_relative();
    }

    fn run_halt(&mut self, mmu: &mut Mmu)
        requires
            old(mmu).wf(),
        ensures
            final(mmu).wf(),
            *final(self) == old(self).executed(old(mmu)@, MicroOp::Halt).0,
            final(mmu)@ =~= old(self).executed(old(mmu)@, MicroOp::Halt).1,
            final(self).instruction == old(self).instruction,
            final(self).machine_cycles_taken_for_current_step == old(
                self,
            ).machine_cycles_taken_for_current_step,
            final(self).trap == old(self).trap,
    {
        proof {
            reveal(Cpu::executed);
            reveal(Cpu::halt_entered);
        }
        self.enter_halt(mmu);
    }

    fn run_return(&mut self, mmu: &mut Mmu)
        requires
            old(mmu).wf(),
        ensures
            final(mmu).wf(),
            *final(self) == old(self).executed(old(mmu)@, MicroOp::Return).0,
            final(mmu)@ =~= old(self).executed(old(mmu)@, MicroOp::Return).1,
            final(self).instruction == old(self).instruction,
            final(self).machine_cycles_taken_for_current_step == old(
                self,
            ).machine_cycles_taken_for_current_step,
            final(self).trap == old(self).trap,
            final(self).halted == old(self).halted,
    {
        proof {
            reveal(Cpu::executed);
        }
        self.pc = self.temp_val_16;
    }

    fn run_return_enable(&mut self, mmu: &mut Mmu)
        requires
            old(mmu).wf(),
        ensures
            final(mmu).wf(),
            *final(self) == old(self).executed(old(mmu)@, MicroOp::ReturnEnable).0,
            final(mmu)@ =~= old(self).executed(old(mmu)@, MicroOp::ReturnEnable).1,
            final(self).instruction == old(self).instruction,
            final(self).machine_cycles_taken_for_current_step == old(
                self,
            ).machine_cycles_taken_for_current_step,
            final(self).trap == old(self).trap,
            final(self).halted == old(self).halted,
    {
        proof {
            reveal(Cpu::executed);
        }
        self.pc = self.temp_val_16;
        mmu.interupts.enable_master();
    }

    fn run_jump_hl(&mut self, mmu: &mut Mmu)
        requires
            old(mmu).wf(),
        ensures
            final(mmu).wf(),
            *final(self) == old(self).executed(old(mmu)@, MicroOp::JumpHl).0,
            final(mmu)@ =~= old(self).executed(old(mmu)@, MicroOp::JumpHl).1,
            final(self).instruction == old(self).instruction,
            final(self).machine_cycles_taken_for_current_step == old(
                self,
            ).machine_cycles_taken_for_current_step,
            final(self).trap == old(self).trap,
            final(self).halted == old(self).halted,
    {
        proof {
            reveal(Cpu::executed);
        }
        self.pc = self.hl();
    }

    fn run_jump(&mut self, mmu: &mut Mmu)
        requires
            old(mmu).wf(),
        ensures
            final(mmu).wf(),
            *final(self) == old(self).executed(old(mmu)@, MicroOp::Jump).0,
            final(mmu)@ =~= old(self).executed(old(mmu)@, MicroOp::Jump).1,
            final(self).instruction == old(self).instruction,
            final(self).machine_cycles_taken_for_current_step == old(
                self,
            ).machine_cycles_taken_for_current_step,
            final(self).trap == old(self).trap,
            final(self).halted == old(self).halted,
    {
        proof {
            reveal(Cpu::executed);
        }
        self.pc = self.operand16;
    }

    fn run_di(&mut self, mmu: &mut Mmu)
        requires
            old(mmu).wf(),
        ensures
            final(mmu).wf(),
            *final(self) == old(self).executed(old(mmu)@, MicroOp::Di).0,
            final(mmu)@ =~= old(self).executed(old(mmu)@, MicroOp::Di).1,
            final(self).instruction == old(self).instruction,
            final(self).machine_cycles_taken_for_current_step == old(
                self,
            ).machine_cycles_taken_for_current_step,
            final(self).trap == old(self).trap,
            final(self).halted == old(self).halted,
    {
        proof {
            reveal(Cpu::executed);
        }
        mmu.interupts.disable_master();
    }

    fn run_ei(&mut self, mmu: &mut Mmu)
        requires
            old(mmu).wf(),
        ensures
            final(mmu).wf(),
            *final(self) == old(self).executed(old(mmu)@, MicroOp::Ei).0,
            final(mmu)@ =~= old(self).executed(old(mmu)@, MicroOp::Ei).1,
            final(self).instruction == old(self).instruction,
            final(self).machine_cycles_taken_for_current_step == old(
                self,
            ).machine_cycles_taken_for_current_step,
            final(self).trap == old(self).trap,
            final(self).halted == old(self).halted,
    {
        proof {
            reveal(Cpu::executed);
        }
        self.ei_delay = true;
    }

    fn run_restart(&mut self, mmu: &mut Mmu, vector: u8)
        requires
            old(mmu).wf(),
        ensures
            final(mmu).wf(),
            *final(self) == old(self).executed(old(mmu)@, MicroOp::Restart(vector)).0,
            final(mmu)@ =~= old(self).executed(old(mmu)@, MicroOp::Restart(vector)).1,
            final(self).instruction == old(self).instruction,
            final(self).machine_cycles_taken_for_current_step == old(
                self,
            ).machine_cycles_taken_for_current_step,
            final(self).trap == old(self).trap,
            final(self).halted == old(self).halted,
    {
        proof {
            reveal(Cpu::executed);
        }
        self.pc = vector as u16;
    }

    fn run_dispatch(&mut self, mmu: &mut Mmu)
        requires
            old(mmu).wf(),
        ensures
            final(mmu).wf(),
            *final(self) == old(self).executed(old(mmu)@, MicroOp::Dispatch).0,
            final(mmu)@ =~= old(self).executed(old(mmu)@, MicroOp::Dispatch).1,
            final(self).instruction == old(self).instruction,
            final(self).machine_cycles_taken_for_current_step == old(
                self,
            ).machine_cycles_taken_for_current_step,
            final(self).trap == old(self).trap,
            final(self).halted == old(self).halted,
    {
        proof {
            reveal(Cpu::executed);
            reveal(Cpu::dispatched);
        }
        self.dispatch(mmu);
    }

    fn run_store_sp_low(&mut self, mmu: &mut Mmu)
        requires
            old(mmu).wf(),
        ensures
            final(mmu).wf(),
            *final(self) == old(self).executed(old(mmu)@, MicroOp::StoreSpLowAtOperand16).0,
            final(mmu)@ =~= old(self).executed(old(mmu)@, MicroOp::StoreSpLowAtOperand16).1,
            final(self).instruction == old(self).instruction,
            final(self).machine_cycles_taken_for_current_step == old(
                self,
            ).machine_cycles_taken_for_current_step,
            final(self).trap == old(self).trap,
            final(self).halted == old(self).halted,
    {
        proof {
            reveal(Cpu::executed);
        }
        mmu.write_byte(self.operand16, (self.sp % 256) as u8);
    }

    fn run_store_sp_high(&mut self, mmu: &mut Mmu)
        requires
            old(mmu).wf(),
        ensures
            final(mmu).wf(),
            *final(self) == old(self).executed(old(mmu)@, MicroOp::StoreSpHighAtOperand16).0,
            final(mmu)@ =~= old(self).executed(old(mmu)@, MicroOp::StoreSpHighAtOperand16).1,
            final(self).instruction == old(self).instruction,
            final(self).machine_cycles_taken_for_current_step == old(
                self,
            ).machine_cycles_taken_for_current_step,
            final(self).trap == old(self).trap,
            final(self).halted == old(self).halted,
    {
        proof {
            reveal(Cpu::executed);
        }
        mmu.write_byte(self.operand16.wrapping_add(1), (self.sp / 256) as u8);
    }

    fn run_pop_temp16_low(&mut self, mmu: &mut Mmu)
        requires
            old(mmu).wf(),
        ensures
            final(mmu).wf(),
            *final(self) == old(self).executed(old(mmu)@, MicroOp::PopTemp16Low).0,
            final(mmu)@ =~= old(self).executed(old(mmu)@, MicroOp::PopTemp16Low).1,
            final(self).instruction == old(self).instruction,
            final(self).machine_cycles_taken_for_current_step == old(
                self,
            ).machine_cycles_taken_for_current_step,
            final(self).trap == old(self).trap,
            final(self).halted == old(self).halted,
    {
        proof {
            reveal(Cpu::executed);
        }
        let val = self.read_byte_from_stack(mmu);
        self.temp_val_16 = val as u16;
    }

    fn run_pop_temp16_high(&mut self, mmu: &mut Mmu)
        requires
            old(mmu).wf(),
        ensures
            final(mmu).wf(),
            *final(self) == old(self).executed(old(mmu)@, MicroOp::PopTemp16High).0,
            final(mmu)@ =~= old(self).executed(old(mmu)@, MicroOp::PopTemp16High).1,
            final(self).instruction == old(self).instruction,
            final(self).machine_cycles_taken_for_current_step == old(
                self,
            ).machine_cycles_taken_for_current_step,
            final(self).trap == old(self).trap,
            final(self).halted == old(self).halted,
    {
        proof {
            reveal(Cpu::executed);
        }
        let low = self.temp_val_16 % 256;
        let val = self.read_byte_from_stack(mmu);
        self.temp_val_16 = val as u16 * 256 + low;
    }

    fn run_pop_low(&mut self, mmu: &mut Mmu, pair: RegisterPair2)
        requires
            old(mmu).wf(),
        ensures
            final(mmu).wf(),
            *final(self) == old(self).executed(old(mmu)@, MicroOp::PopLow(pair)).0,
            final(mmu)@ =~= old(self).executed(old(mmu)@, MicroOp::PopLow(pair)).1,
            final(self).instruction == old(self).instruction,
            final(self).machine_cycles_taken_for_current_step == old(
                self,
            ).machine_cycles_taken_for_current_step,
            final(self).trap == old(self).trap,
            final(self).halted == old(self).halted,
    {
        proof {
            reveal(Cpu::executed);
        }
        let high = self.get_pair2(pair) / 256;
        let val = self.read_byte_from_stack(mmu);
        self.set_pair2(pair, high * 256 + val as u16);
    }

    fn run_pop_high(&mut self, mmu: &mut Mmu, pair: RegisterPair2)
        requires
            old(mmu).wf(),
        ensures
            final(mmu).wf(),
            *final(self) == old(self).executed(old(mmu)@, MicroOp::PopHigh(pair)).0,
            final(mmu)@ =~= old(self).executed(old(mmu)@, MicroOp::PopHigh(pair)).1,
            final(self).instruction == old(self).instruction,
            final(self).machine_cycles_taken_for_current_step == old(
                self,
            ).machine_cycles_taken_for_current_step,
            final(self).trap == old(self).trap,
            final(self).halted == old(self).halted,
    {
        proof {
            reveal(Cpu::executed);
        }
        let low = self.get_pair2(pair) % 256;
        let val = self.read_byte_from_stack(mmu);
        self.set_pair2(pair, val as u16 * 256 + low);
    }

    fn run_push_high(&mut self, mmu: &mut Mmu, pair: RegisterPair2)
        requires
            old(mmu).wf(),
        ensures
            final(mmu).wf(),
            *final(self) == old(self).executed(old(mmu)@, MicroOp::PushHigh(pair)).0,
            final(mmu)@ =~= old(self).executed(old(mmu)@, MicroOp::PushHigh(pair)).1,
            final(self).instruction == old(self).instruction,
            final(self).machine_cycles_taken_for_current_step == old(
                self,
            ).machine_cycles_taken_for_current_step,
            final(self).trap == old(self).trap,
            final(self).halted == old(self).halted,
    {
        proof {
            reveal(Cpu::executed);
        }
        let val = self.get_pair2(pair);
        self.write_byte_to_stack(mmu, (val / 256) as u8);
    }

    fn run_push_low(&mut self, mmu: &mut Mmu, pair: RegisterPair2)
        requires
            old(mmu).wf(),
        ensures
            final(mmu).wf(),
            *final(self) == old(self).executed(old(mmu)@, MicroOp::PushLow(pair)).0,
            final(mmu)@ =~= old(self).executed(old(mmu)@, MicroOp::PushLow(pair)).1,
            final(self).instruction == old(self).instruction,
            final(self).machine_cycles_taken_for_current_step == old(
                self,
            ).machine_cycles_taken_for_current_step,
            final(self).trap == old(self).trap,
            final(self).halted == old(self).halted,
    {
        proof {
            reveal(Cpu::executed);
        }
        let val = self.get_pair2(pair);
        self.write_byte_to_stack(mmu, (val % 256) as u8);
    }

    fn run_push_pc_high(&mut self, mmu: &mut Mmu)
        requires
            old(mmu).wf(),
        ensures
            final(mmu).wf(),
            *final(self) == old(self).executed(old(mmu)@, MicroOp::PushPcHigh).0,
            final(mmu)@ =~= old(self).executed(old(mmu)@, MicroOp::PushPcHigh).1,
            final(self).instruction == old(self).instruction,
            final(self).machine_cycles_taken_for_current_step == old(
                self,
            ).machine_cycles_taken_for_current_step,
            final(self).trap == old(self).trap,
            final(self).halted == old(self).halted,
    {
        proof {
            reveal(Cpu::executed);
        }
        self.write_byte_to_stack(mmu, (self.pc / 256) as u8);
    }

    fn run_push_pc_low(&mut self, mmu: &mut Mmu)
        requires
            old(mmu).wf(),
        ensures
            final(mmu).wf(),
            *final(self) == old(self).executed(old(mmu)@, MicroOp::PushPcLow).0,
            final(mmu)@ =~= old(self).executed(old(mmu)@, MicroOp::PushPcLow).1,
            final(self).instruction == old(self).instruction,
            final(self).machine_cycles_taken_for_current_step == old(
                self,
            ).machine_cycles_taken_for_current_step,
            final(self).trap == old(self).trap,
            final(self).halted == old(self).halted,
    {
        proof {
            reveal(Cpu::executed);
        }
        self.write_byte_to_stack(mmu, (self.pc % 256) as u8);
    }

    fn run_push_pc_high_latch_enable(&mut self, mmu: &mut Mmu)
        requires
            old(mmu).wf(),
        ensures
            final(mmu).wf(),
            *final(self) == old(self).executed(old(mmu)@, MicroOp::PushPcHighLatchEnable).0,
            final(mmu)@ =~= old(self).executed(old(mmu)@, MicroOp::PushPcHighLatchEnable).1,
            final(self).instruction == old(self).instruction,
            final(self).machine_cycles_taken_for_current_step == old(
                self,
            ).machine_cycles_taken_for_current_step,
            final(self).trap == old(self).trap,
            final(self).halted == old(self).halted,
    {
        proof {
            reveal(Cpu::executed);
        }
        self.write_byte_to_stack(mmu, (self.pc / 256) as u8);
        self.temp_val8 = mmu.interupts.enable;
    }

    fn run_push_pc_low_latch_flags(&mut self, mmu: &mut Mmu)
        requires
            old(mmu).wf(),
        ensures
            final(mmu).wf(),
            *final(self) == old(self).executed(old(mmu)@, MicroOp::PushPcLowLatchFlags).0,
            final(mmu)@ =~= old(self).executed(old(mmu)@, MicroOp::PushPcLowLatchFlags).1,
            final(self).instruction == old(self).instruction,
            final(self).machine_cycles_taken_for_current_step == old(
                self,
            ).machine_cycles_taken_for_current_step,
            final(self).trap == old(self).trap,
            final(self).halted == old(self).halted,
    {
        proof {
            reveal(Cpu::executed);
        }
        let itr_if = mmu.interupts.flags;
        self.write_byte_to_stack(mmu, (self.pc % 256) as u8);
        self.temp_val_16 = itr_if as u16;
    }

    fn jump_relative(&mut self)
        ensures
            *final(self) == (Cpu {
                pc: wrapping_sum(old(self).pc, sign_extended(old(self).operand8)),
                ..*old(self)
            }),
    {
        let arg: u16 = if self.operand8 < 128 {
            self.operand8 as u16
        } else {
            0xFF00 + self.operand8 as u16
        };
        self.pc = self.pc.wrapping_add(arg);
    }
}

} // verus!
