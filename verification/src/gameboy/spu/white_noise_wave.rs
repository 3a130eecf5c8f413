//! The noise channel: a linear-feedback shift register behind an envelope.
use vstd::prelude::*;

use crate::gameboy::bits::bit_weight;
use crate::gameboy::bits::weight;
use crate::gameboy::spu::envelope::Envelope;
use crate::gameboy::spu::Mode;

verus! {

#[derive(Clone, Copy, PartialEq, Eq, Structural, Debug)]
pub enum CounterWidth {
    Width15,
    Width7,
}

/// The shift register and its clock divider.
#[derive(Clone, Copy, Debug)]
pub struct WhiteNoiseGenerator {
    pub dividing_ratio: u8,
    pub shift_clock: u8,
    pub counter_width: CounterWidth,
    /// The register value that the generator was made from.
    pub val: u8,
    pub noise: u16,
    pub cycles: u32,
}

impl WhiteNoiseGenerator {
    pub open spec fn wf(self) -> bool {
        &&& self.dividing_ratio < 8
        &&& self.shift_clock < 16
        &&& self.noise <= match self.counter_width {
            CounterWidth::Width15 => 0x7FFFu16,
            CounterWidth::Width7 => 0x7Fu16,
        }
    }

    /// The generator that a register value describes: the clock shift in the
    /// high nibble, the register width in bit 3 (set means seven bits), the
    /// dividing ratio in the low three bits. All bits of the register start
    /// high.
    pub open spec fn of(val: u8) -> WhiteNoiseGenerator {
        WhiteNoiseGenerator {
            dividing_ratio: val % 8,
            shift_clock: val / 16,
            counter_width: if val / 8 % 2 == 0 {
                CounterWidth::Width15
            } else {
                CounterWidth::Width7
            },
            val,
            noise: if val / 8 % 2 == 0 {
                0x7FFF
            } else {
                0x7F
            },
            cycles: 0,
        }
    }

    /// The master cycles between two steps of the shift register: the divisor,
    /// eight times the ratio or four for a ratio of zero, shifted left by the
    /// clock shift plus one.
    pub open spec fn period(self) -> int {
        (if self.dividing_ratio == 0 {
            4
        } else {
            8 * self.dividing_ratio
        }) * 2 * weight(self.shift_clock)
    }

    /// The shift register after one step: it moves right by one, and the
    /// exclusive or of its two lowest bits enters at the top.
    pub open spec fn stepped(noise: u16, width: CounterWidth) -> u16 {
        let carry: int = if noise % 2 != noise / 2 % 2 {
            1
        } else {
            0
        };
        match width {
            CounterWidth::Width15 => (noise / 2 + carry * 0x4000) as u16,
            CounterWidth::Width7 => (noise / 2 + carry * 0x40) as u16,
        }
    }

    /// The generator after one master cycle.
    pub open spec fn ticked(self) -> WhiteNoiseGenerator {
        let cycles = ((self.cycles + 1) % self.period()) as u32;
        WhiteNoiseGenerator {
            cycles,
            noise: if cycles == 0 {
                Self::stepped(self.noise, self.counter_width)
            } else {
                self.noise
            },
            ..self
        }
    }

    /// The output is high while the lowest bit of the register is clear.
    pub open spec fn output_high(self) -> bool {
        self.noise % 2 == 0
    }

    pub fn new(val: u8) -> (generator: Self)
        ensures
            generator == Self::of(val),
            generator.wf(),
    {
        let counter_width = if val / 8 % 2 == 0 {
            CounterWidth::Width15
        } else {
            CounterWidth::Width7
        };
        let noise: u16 = match counter_width {
            CounterWidth::Width15 => 0x7FFF,
            CounterWidth::Width7 => 0x7F,
        };
        Self {
            dividing_ratio: val % 8,
            shift_clock: val / 16,
            counter_width,
            val,
            noise,
            cycles: 0,
        }
    }

    pub fn tick(&mut self)
        requires
            old(self).wf(),
        ensures
            *final(self) == old(self).ticked(),
            final(self).wf(),
    {
        let divisor: u32 = if self.dividing_ratio == 0 {
            4
        } else {
            8 * (self.dividing_ratio as u32)
        };
        let scale = bit_weight(self.shift_clock) as u32;
        assert(divisor * 2 * scale <= 56 * 2 * 32768) by (nonlinear_arith)
            requires
                divisor <= 56,
                scale <= 32768,
        ;
        assert(divisor * 2 * scale >= 8) by (nonlinear_arith)
            requires
                divisor >= 4,
                scale >= 1,
        ;
        let tot_cycles = divisor * 2 * scale;
        self.cycles = ((self.cycles as u64 + 1) % (tot_cycles as u64)) as u32;
        if self.cycles == 0 {
            let shift = self.noise / 2;
            let carry: u16 = if self.noise % 2 != self.noise / 2 % 2 {
                1
            } else {
                0
            };
            self.noise = match self.counter_width {
                CounterWidth::Width15 => shift + carry * 0x4000,
                CounterWidth::Width7 => shift + carry * 0x40,
            };
        }
    }

    pub fn is_output_high(&self) -> (high: bool)
        ensures
            high == self.output_high(),
    {
        self.noise % 2 == 0
    }
}

/// The noise channel.
#[derive(Clone, Copy, Debug)]
pub struct WhiteNoiseWave {
    pub enabled: bool,
    pub white_noise_generator: WhiteNoiseGenerator,
    pub start_envelope: Envelope,
    pub envelope: Envelope,
    pub mode: Mode,
    /// Master cycles until the length counter runs out.
    pub remaining: u32,
}

impl WhiteNoiseWave {
    pub open spec fn wf(self) -> bool {
        &&& self.white_noise_generator.wf()
        &&& self.envelope.wf()
        &&& self.start_envelope.wf()
        &&& self.remaining <= 64 * 0x4000
    }

    /// The channel at power-on.
    pub open spec fn initial() -> WhiteNoiseWave {
        WhiteNoiseWave {
            enabled: false,
            white_noise_generator: WhiteNoiseGenerator::of(0),
            start_envelope: Envelope::of(0),
            envelope: Envelope::of(0),
            mode: Mode::Consecutive,
            remaining: 0x10_0000,
        }
    }

    /// The channel after one master cycle.
    pub open spec fn ticked(self) -> WhiteNoiseWave {
        if self.mode == Mode::Counter && self.remaining == 0 {
            WhiteNoiseWave { enabled: false, remaining: 0x10_0000, ..self }
        } else {
            let counted = if self.mode == Mode::Counter {
                WhiteNoiseWave { remaining: (self.remaining - 1) as u32, ..self }
            } else {
                self
            };
            if !counted.enabled {
                counted
            } else {
                WhiteNoiseWave {
                    envelope: counted.envelope.ticked(),
                    white_noise_generator: counted.white_noise_generator.ticked(),
                    ..counted
                }
            }
        }
    }

    /// The digital output of the channel, 0 to 15.
    pub open spec fn output(self) -> u8 {
        if self.enabled && self.white_noise_generator.output_high() {
            self.envelope.volume
        } else {
            0
        }
    }

    /// The channel with its length counter loaded: 64 - `length` steps of
    /// 0x4000 master cycles are left.
    pub open spec fn with_length(self, length: u8) -> WhiteNoiseWave {
        WhiteNoiseWave { remaining: ((64 - length) * 0x4000) as u32, ..self }
    }

    /// The channel with an envelope stored for the next start; it falls
    /// silent if its running envelope leaves the converter off.
    pub open spec fn with_envelope(self, envelope: Envelope) -> WhiteNoiseWave {
        WhiteNoiseWave {
            start_envelope: envelope,
            enabled: self.enabled && self.envelope.is_enabled(),
            ..self
        }
    }

    /// The channel restarted with the stored envelope.
    pub open spec fn started(self) -> WhiteNoiseWave {
        WhiteNoiseWave {
            envelope: self.start_envelope,
            enabled: self.start_envelope.is_enabled(),
            ..self
        }
    }

    pub fn new() -> (channel: Self)
        ensures
            channel == Self::initial(),
            channel.wf(),
    {
        Self {
            enabled: false,
            white_noise_generator: WhiteNoiseGenerator::new(0),
            start_envelope: Envelope::new(0),
            envelope: Envelope::new(0),
            mode: Mode::Consecutive,
            remaining: 0x10_0000,
        }
    }

    pub fn tick(&mut self)
        requires
            old(self).wf(),
        ensures
            *final(self) == old(self).ticked(),
            final(self).wf(),
    {
        if self.mode == Mode::Counter {
            if self.remaining == 0 {
                self.enabled = false;
                self.remaining = 0x10_0000;
                return ;
            }
            self.remaining -= 1;
        }
        if !self.enabled {
            return ;
        }
        self.envelope.tick();
        self.white_noise_generator.tick();
    }

    pub fn sample(&self) -> (sample: u8)
        requires
            self.wf(),
        ensures
            sample == self.output(),
            sample <= 15,
    {
        if !self.enabled {
            return 0;
        }
        if self.white_noise_generator.is_output_high() {
            self.envelope.volume
        } else {
            0
        }
    }

    /// Restarts the channel with the stored envelope.
    pub fn start(&mut self)
        ensures
            *final(self) == old(self).started(),
    {
        self.envelope = self.start_envelope;
        self.enabled = self.envelope.enabled();
    }

    /// Loads the length counter: the channel has 64 - `length` steps of
    /// 0x4000 master cycles left.
    pub fn set_length(&mut self, length: u8)
        requires
            length < 64,
        ensures
            *final(self) == old(self).with_length(length),
    {
        self.remaining = (64 - (length as u32)) * 0x4000;
    }

    /// Stores the envelope for the next start; the channel falls silent if
    /// its running envelope leaves the converter off.
    pub fn set_envelope(&mut self, envelope: Envelope)
        ensures
            *final(self) == old(self).with_envelope(envelope),
    {
        self.start_envelope = envelope;
        if !self.envelope.enabled() {
            self.enabled = false;
        }
    }

    pub fn is_dac_enabled(&self) -> (on: bool)
        ensures
            on == self.envelope.is_enabled(),
    {
        self.envelope.enabled()
    }
}

} // verus!
