//! The tone channel with frequency sweep.
use vstd::prelude::*;

use crate::gameboy::spu::envelope::Envelope;
use crate::gameboy::spu::Mode;

verus! {

/// The share of each period during which a square wave is high.
#[derive(Clone, Copy, PartialEq, Eq, Structural, Debug)]
pub enum Duty {
    D12,
    D25,
    D50,
    D75,
}

impl Duty {
    /// The duty that a two-bit field selects.
    pub open spec fn of(val: u8) -> Duty {
        if val == 0 {
            Duty::D12
        } else if val == 1 {
            Duty::D25
        } else if val == 2 {
            Duty::D50
        } else {
            Duty::D75
        }
    }

    /// The two-bit field that selects the duty.
    pub open spec fn index(self) -> u8 {
        match self {
            Duty::D12 => 0,
            Duty::D25 => 1,
            Duty::D50 => 2,
            Duty::D75 => 3,
        }
    }

    /// For how many of the eight phases of a period the wave is high.
    pub open spec fn pulses(self) -> u8 {
        match self {
            Duty::D12 => 1,
            Duty::D25 => 2,
            Duty::D50 => 4,
            Duty::D75 => 6,
        }
    }

    pub fn from_u8(val: u8) -> (duty: Self)
        requires
            val < 4,
        ensures
            duty == Self::of(val),
    {
        if val == 0 {
            Duty::D12
        } else if val == 1 {
            Duty::D25
        } else if val == 2 {
            Duty::D50
        } else {
            Duty::D75
        }
    }

    pub fn into_u8(self) -> (val: u8)
        ensures
            val == self.index(),
    {
        match self {
            Duty::D12 => 0,
            Duty::D25 => 1,
            Duty::D50 => 2,
            Duty::D75 => 3,
        }
    }

    pub fn pulses_per_8(self) -> (pulses: u8)
        ensures
            pulses == self.pulses(),
    {
        match self {
            Duty::D12 => 1,
            Duty::D25 => 2,
            Duty::D50 => 4,
            Duty::D75 => 6,
        }
    }
}

#[derive(Clone, Copy, PartialEq, Eq, Structural, Debug)]
pub enum SweepDirection {
    Increase,
    Decrease,
}

/// The frequency sweep: every `duration` master cycles the frequency moves
/// by itself shifted right by `sweep_shift`.
#[derive(Clone, Copy, Debug)]
pub struct Sweep {
    pub duration: u32,
    pub direction: SweepDirection,
    pub sweep_shift: u8,
    pub counter: u32,
}

/// `freq` shifted right by `shift` places.
pub open spec fn shifted(freq: u16, shift: u8) -> u16 {
    if shift == 0 {
        freq
    } else if shift == 1 {
        freq / 2
    } else if shift == 2 {
        freq / 4
    } else if shift == 3 {
        freq / 8
    } else if shift == 4 {
        freq / 16
    } else if shift == 5 {
        freq / 32
    } else if shift == 6 {
        freq / 64
    } else {
        freq / 128
    }
}

fn shift_right(freq: u16, shift: u8) -> (r: u16)
    ensures
        r == shifted(freq, shift),
        r <= freq,
{
    if shift == 0 {
        freq
    } else if shift == 1 {
        freq / 2
    } else if shift == 2 {
        freq / 4
    } else if shift == 3 {
        freq / 8
    } else if shift == 4 {
        freq / 16
    } else if shift == 5 {
        freq / 32
    } else if shift == 6 {
        freq / 64
    } else {
        freq / 128
    }
}

impl Sweep {
    pub open spec fn wf(self) -> bool {
        &&& self.duration % 0x8000 == 0
        &&& self.duration <= 7 * 0x8000
        &&& self.counter <= self.duration
        &&& self.sweep_shift < 8
    }

    /// The sweep that a register value describes: the period in bits 6 to 4,
    /// the direction in bit 3 (set means down), the shift in the low three
    /// bits.
    pub open spec fn of(val: u8) -> Sweep {
        Sweep {
            duration: (val / 16 % 8 * 0x8000) as u32,
            direction: if val / 8 % 2 == 0 {
                SweepDirection::Increase
            } else {
                SweepDirection::Decrease
            },
            sweep_shift: val % 8,
            counter: 0,
        }
    }

    /// The register value that describes the sweep; its top bit reads high.
    pub open spec fn as_register(self) -> int {
        128 + self.duration / 0x8000 * 16 + (if self.direction == SweepDirection::Decrease {
            8int
        } else {
            0int
        }) + self.sweep_shift
    }

    /// The counter after one master cycle.
    pub open spec fn next_counter(self) -> u32 {
        if self.duration == 0 {
            self.counter
        } else {
            ((self.counter + 1) % self.duration as int) as u32
        }
    }

    /// Whether the frequency moves in this master cycle.
    pub open spec fn fires(self) -> bool {
        self.duration != 0 && self.next_counter() == 0
    }

    /// The frequency after one master cycle, or `None` where a sweep upwards
    /// leaves the eleven bits of a frequency, which silences the channel.
    pub open spec fn swept(self, freq: u16) -> Option<u16> {
        if !self.fires() {
            Some(freq)
        } else if self.direction == SweepDirection::Increase {
            if freq + shifted(freq, self.sweep_shift) > 0x7FF {
                None
            } else {
                Some((freq + shifted(freq, self.sweep_shift)) as u16)
            }
        } else if self.sweep_shift == 0 {
            Some(freq)
        } else {
            Some((freq - shifted(freq, self.sweep_shift)) as u16)
        }
    }

    pub fn new(val: u8) -> (sweep: Self)
        ensures
            sweep == Self::of(val),
            sweep.wf(),
    {
        let direction = if val / 8 % 2 == 0 {
            SweepDirection::Increase
        } else {
            SweepDirection::Decrease
        };
        Self {
            duration: (val / 16 % 8) as u32 * 0x8000,
            direction,
            sweep_shift: val % 8,
            counter: 0,
        }
    }

    pub fn into_u8(&self) -> (val: u8)
        requires
            self.wf(),
        ensures
            val == self.as_register(),
    {
        let duration = (self.duration / 0x8000) as u8;
        let direction: u8 = match self.direction {
            SweepDirection::Increase => 0,
            SweepDirection::Decrease => 8,
        };
        128 + duration * 16 + direction + self.sweep_shift
    }

    pub fn tick(&mut self, freq: u16) -> (next: Option<u16>)
        requires
            old(self).wf(),
            freq <= 0x7FF,
        ensures
            *final(self) == (Sweep { counter: old(self).next_counter(), ..*old(self) }),
            final(self).wf(),
            next == old(self).swept(freq),
            next matches Some(f) ==> f <= 0x7FF,
    {
        if self.duration == 0 {
            return Some(freq);
        }
        self.counter = (self.counter + 1) % self.duration;
        if self.counter != 0 {
            return Some(freq);
        }
        let offset = shift_right(freq, self.sweep_shift);
        match self.direction {
            SweepDirection::Increase => {
                let freq = freq + offset;
                if freq > 0x7FF {
                    None
                } else {
                    Some(freq)
                }
            },
            SweepDirection::Decrease => {
                if self.sweep_shift == 0 {
                    Some(freq)
                } else {
                    Some(freq - offset)
                }
            },
        }
    }
}

/// A square wave with duty, envelope, length counter and frequency sweep.
#[derive(Clone, Copy, Debug)]
pub struct SquareWave {
    pub duty: Duty,
    pub envelope: Envelope,
    pub start_envelope: Envelope,
    pub freq: u16,
    pub mode: Mode,
    pub enabled: bool,
    /// Master cycles until the length counter runs out.
    pub remaining: u32,
    /// Master cycles until the next phase.
    pub counter: u16,
    pub phase: u8,
    pub sweep: Sweep,
}

impl SquareWave {
    pub open spec fn wf(self) -> bool {
        &&& self.envelope.wf()
        &&& self.start_envelope.wf()
        &&& self.sweep.wf()
        &&& self.freq <= 0x7FF
        &&& self.phase < 8
        &&& self.remaining <= 64 * 0x4000
    }

    /// The channel at power-on.
    pub open spec fn initial() -> SquareWave {
        SquareWave {
            duty: Duty::D12,
            envelope: Envelope::of(0),
            start_envelope: Envelope::of(0),
            freq: 0,
            mode: Mode::Consecutive,
            enabled: false,
            remaining: 0x10_0000,
            counter: 0,
            phase: 0,
            sweep: Sweep::of(0),
        }
    }

    /// The channel after the frequency timer has run for one master cycle:
    /// when it runs out it is reloaded with four times (0x800 - frequency)
    /// and the phase moves on.
    pub open spec fn phase_ticked(self) -> SquareWave {
        if self.counter == 0 {
            SquareWave {
                counter: (4 * (0x800 - self.freq) - 1) as u16,
                phase: ((self.phase + 1) % 8) as u8,
                ..self
            }
        } else {
            SquareWave { counter: (self.counter - 1) as u16, ..self }
        }
    }

    /// The channel after one master cycle.
    pub open spec fn ticked(self) -> SquareWave {
        if self.mode == Mode::Counter && self.remaining == 0 {
            SquareWave { enabled: false, remaining: 0x10_0000, ..self }
        } else {
            let counted = if self.mode == Mode::Counter {
                SquareWave { remaining: (self.remaining - 1) as u32, ..self }
            } else {
                self
            };
            if !counted.enabled {
                counted
            } else {
                let swept = SquareWave {
                    envelope: counted.envelope.ticked(),
                    sweep: Sweep { counter: counted.sweep.next_counter(), ..counted.sweep },
                    ..counted
                };
                match counted.sweep.swept(counted.freq) {
                    None => SquareWave { enabled: false, ..swept },
                    Some(freq) => (SquareWave { freq, ..swept }).phase_ticked(),
                }
            }
        }
    }

    /// The digital output of the channel, 0 to 15.
    pub open spec fn output(self) -> u8 {
        if self.enabled && self.phase < self.duty.pulses() {
            self.envelope.volume
        } else {
            0
        }
    }

    /// The channel with its length counter loaded: 64 - `length` steps of
    /// 0x4000 master cycles are left.
    pub open spec fn with_length(self, length: u8) -> SquareWave {
        SquareWave { remaining: ((64 - length) * 0x4000) as u32, ..self }
    }

    /// The channel with an envelope stored for the next start; it falls
    /// silent if its running envelope leaves the converter off.
    pub open spec fn with_envelope(self, envelope: Envelope) -> SquareWave {
        SquareWave {
            start_envelope: envelope,
            enabled: self.enabled && self.envelope.is_enabled(),
            ..self
        }
    }

    /// The channel restarted with the stored envelope.
    pub open spec fn started(self) -> SquareWave {
        SquareWave {
            envelope: self.start_envelope,
            enabled: self.start_envelope.is_enabled(),
            ..self
        }
    }

    pub fn new() -> (channel: Self)
        ensures
            channel == Self::initial(),
            channel.wf(),
    {
        Self {
            duty: Duty::from_u8(0),
            envelope: Envelope::new(0),
            start_envelope: Envelope::new(0),
            freq: 0,
            mode: Mode::Consecutive,
            enabled: false,
            remaining: 0x10_0000,
            counter: 0,
            phase: 0,
            sweep: Sweep::new(0),
        }
    }

    pub fn tick(&mut self)
        requires
            old(self).wf(),
        ensures
            *final(self) == old(self).ticked(),
            final(self).wf(),
    {
        if self.mode == Mode::Counter {
            if self.remaining == 0 {
                self.enabled = false;
                self.remaining = 0x10_0000;
                return ;
            }
            self.remaining -= 1;
        }
        if !self.enabled {
            return ;
        }
        self.envelope.tick();
        match self.sweep.tick(self.freq) {
            Some(freq) => {
                self.freq = freq;
            },
            None => {
                self.enabled = false;
                return ;
            },
        }
        if self.counter == 0 {
            self.counter = 4 * (0x800 - self.freq);
            self.phase = (self.phase + 1) % 8;
        }
        self.counter -= 1;
    }

    pub fn sample(&self) -> (sample: u8)
        requires
            self.wf(),
        ensures
            sample == self.output(),
            sample <= 15,
    {
        if !self.enabled {
            return 0;
        }
        if self.phase < self.duty.pulses_per_8() {
            self.envelope.volume
        } else {
            0
        }
    }

    /// Loads the length counter: the channel has 64 - `length` steps of
    /// 0x4000 master cycles left.
    pub fn set_length(&mut self, length: u8)
        requires
            length < 64,
        ensures
            *final(self) == old(self).with_length(length),
    {
        self.remaining = (64 - (length as u32)) * 0x4000;
    }

    /// Stores the envelope for the next start; the channel falls silent if
    /// its running envelope leaves the converter off.
    pub fn set_envelope(&mut self, envelope: Envelope)
        ensures
            *final(self) == old(self).with_envelope(envelope),
    {
        self.start_envelope = envelope;
        if !self.envelope.enabled() {
            self.enabled = false;
        }
    }

    /// Restarts the channel with the stored envelope.
    pub fn start(&mut self)
        ensures
            *final(self) == old(self).started(),
    {
        self.envelope = self.start_envelope;
        self.enabled = self.envelope.enabled();
    }

    pub fn is_dac_enabled(&self) -> (on: bool)
        ensures
            on == self.envelope.is_enabled(),
    {
        self.envelope.enabled()
    }
}

} // verus!
