//! The tone channel without frequency sweep.
use vstd::prelude::*;

use crate::gameboy::spu::envelope::Envelope;
use crate::gameboy::spu::square_wave::Duty;
use crate::gameboy::spu::Mode;

verus! {

/// A square wave with duty, envelope and length counter.
#[derive(Clone, Copy, Debug)]
pub struct RectangleWave {
    pub duty: Duty,
    pub envelope: Envelope,
    pub start_envelope: Envelope,
    pub freq: u16,
    pub mode: Mode,
    pub enabled: bool,
    /// Master cycles until the length counter runs out.
    pub remaining: u32,
    /// Master cycles until the next phase.
    pub counter: u16,
    pub phase: u8,
}

impl RectangleWave {
    pub open spec fn wf(self) -> bool {
        &&& self.envelope.wf()
        &&& self.start_envelope.wf()
        &&& self.freq <= 0x7FF
        &&& self.phase < 8
        &&& self.remaining <= 64 * 0x4000
    }

    /// The channel at power-on.
    pub open spec fn initial() -> RectangleWave {
        RectangleWave {
            duty: Duty::D12,
            envelope: Envelope::of(0),
            start_envelope: Envelope::of(0),
            freq: 0,
            mode: Mode::Consecutive,
            enabled: false,
            remaining: 0x10_0000,
            counter: 0,
            phase: 0,
        }
    }

    /// The channel after one master cycle: the length counter runs while the
    /// mode asks for it and switches the channel off at zero; while the
    /// channel is on, the envelope runs and the frequency timer, reloaded
    /// with four times (0x800 - frequency), moves the phase on.
    pub open spec fn ticked(self) -> RectangleWave {
        if self.mode == Mode::Counter && self.remaining == 0 {
            RectangleWave { enabled: false, remaining: 0x10_0000, ..self }
        } else {
            let counted = if self.mode == Mode::Counter {
                RectangleWave { remaining: (self.remaining - 1) as u32, ..self }
            } else {
                self
            };
            if !counted.enabled {
                counted
            } else if counted.counter == 0 {
                RectangleWave {
                    envelope: counted.envelope.ticked(),
                    counter: (4 * (0x800 - counted.freq) - 1) as u16,
                    phase: ((counted.phase + 1) % 8) as u8,
                    ..counted
                }
            } else {
                RectangleWave {
                    envelope: counted.envelope.ticked(),
                    counter: (counted.counter - 1) as u16,
                    ..counted
                }
            }
        }
    }

    /// The digital output of the channel, 0 to 15.
    pub open spec fn output(self) -> u8 {
        if self.enabled && self.phase < self.duty.pulses() {
            self.envelope.volume
        } else {
            0
        }
    }

    /// The channel with its length counter loaded: 64 - `length` steps of
    /// 0x4000 master cycles are left.
    pub open spec fn with_length(self, length: u8) -> RectangleWave {
        RectangleWave { remaining: ((64 - length) * 0x4000) as u32, ..self }
    }

    /// The channel with an envelope stored for the next start; it falls
    /// silent if its running envelope leaves the converter off.
    pub open spec fn with_envelope(self, envelope: Envelope) -> RectangleWave {
        RectangleWave {
            start_envelope: envelope,
            enabled: self.enabled && self.envelope.is_enabled(),
            ..self
        }
    }

    /// The channel restarted with the stored envelope.
    pub open spec fn started(self) -> RectangleWave {
        RectangleWave {
            envelope: self.start_envelope,
            enabled: self.start_envelope.is_enabled(),
            ..self
        }
    }

    pub fn new() -> (channel: Self)
        ensures
            channel == Self::initial(),
            channel.wf(),
    {
        Self {
            duty: Duty::from_u8(0),
            envelope: Envelope::new(0),
            start_envelope: Envelope::new(0),
            freq: 0,
            mode: Mode::Consecutive,
            enabled: false,
            remaining: 0x10_0000,
            counter: 0,
            phase: 0,
        }
    }

    pub fn tick(&mut self)
        requires
            old(self).wf(),
        ensures
            *final(self) == old(self).ticked(),
            final(self).wf(),
    {
        if self.mode == Mode::Counter {
            if self.remaining == 0 {
                self.enabled = false;
                self.remaining = 0x10_0000;
                return ;
            }
            self.remaining -= 1;
        }
        if !self.enabled {
            return ;
        }
        self.envelope.tick();
        if self.counter == 0 {
            self.counter = 4 * (0x800 - self.freq);
            self.phase = (self.phase + 1) % 8;
        }
        self.counter -= 1;
    }

    pub fn sample(&self) -> (sample: u8)
        requires
            self.wf(),
        ensures
            sample == self.output(),
            sample <= 15,
    {
        if !self.enabled {
            return 0;
        }
        if self.phase < self.duty.pulses_per_8() {
            self.envelope.volume
        } else {
            0
        }
    }

    /// Loads the length counter: the channel has 64 - `length` steps of
    /// 0x4000 master cycles left.
    pub fn set_length(&mut self, length: u8)
        requires
            length < 64,
        ensures
            *final(self) == old(self).with_length(length),
    {
        self.remaining = (64 - (length as u32)) * 0x4000;
    }

    /// Stores the envelope for the next start; the channel falls silent if
    /// its running envelope leaves the converter off.
    pub fn set_envelope(&mut self, envelope: Envelope)
        ensures
            *final(self) == old(self).with_envelope(envelope),
    {
        self.start_envelope = envelope;
        if !self.envelope.enabled() {
            self.enabled = false;
        }
    }

    /// Restarts the channel with the stored envelope.
    pub fn start(&mut self)
        ensures
            *final(self) == old(self).started(),
    {
        self.envelope = self.start_envelope;
        self.enabled = self.envelope.enabled();
    }

    pub fn is_dac_enabled(&self) -> (on: bool)
        ensures
            on == self.envelope.is_enabled(),
    {
        self.envelope.enabled()
    }
}

} // verus!
