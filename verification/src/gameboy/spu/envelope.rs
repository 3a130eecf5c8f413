//! The volume envelope of a channel.
use vstd::prelude::*;

verus! {

/// The loudest volume of a channel.
pub const MAX_VOLUME: u8 = 15;

#[derive(Clone, Copy, PartialEq, Eq, Structural, Debug)]
pub enum EnvelopeDirection {
    Decrease,
    Increase,
}

/// A volume that moves one step up or down every `step_duration` master
/// cycles; a duration of zero holds it still.
#[derive(Clone, Copy, Debug)]
pub struct Envelope {
    pub volume: u8,
    pub direction: EnvelopeDirection,
    pub step_duration: u32,
    pub counter: u32,
}

impl Envelope {
    pub open spec fn wf(self) -> bool {
        &&& self.volume <= 15
        &&& self.step_duration % 0x10000 == 0
        &&& self.step_duration <= 7 * 0x10000
        &&& self.counter <= self.step_duration
    }

    /// The envelope that a register value describes: the start volume in the
    /// high nibble, the direction in bit 3, the step length in the low three
    /// bits.
    pub open spec fn of(val: u8) -> Envelope {
        Envelope {
            volume: val / 16,
            direction: if val / 8 % 2 == 1 {
                EnvelopeDirection::Increase
            } else {
                EnvelopeDirection::Decrease
            },
            step_duration: (val % 8 * 0x10000) as u32,
            counter: 0,
        }
    }

    /// The envelope one step up, at most at full volume.
    pub open spec fn louder(self) -> Envelope {
        if self.volume < 15 {
            Envelope { volume: (self.volume + 1) as u8, ..self }
        } else {
            self
        }
    }

    /// The envelope one step down, at least at silence.
    pub open spec fn quieter(self) -> Envelope {
        if self.volume > 0 {
            Envelope { volume: (self.volume - 1) as u8, ..self }
        } else {
            self
        }
    }

    /// The envelope after one master cycle.
    pub open spec fn ticked(self) -> Envelope {
        if self.step_duration == 0 {
            self
        } else {
            let counter = ((self.counter + 1) % self.step_duration as int) as u32;
            let counted = Envelope { counter, ..self };
            if counter != 0 {
                counted
            } else if self.direction == EnvelopeDirection::Decrease {
                counted.quieter()
            } else {
                counted.louder()
            }
        }
    }

    /// The register value that describes the envelope.
    pub open spec fn as_register(self) -> int {
        self.volume * 16 + (if self.direction == EnvelopeDirection::Increase {
            8int
        } else {
            0int
        }) + self.step_duration / 0x10000
    }

    /// Whether the envelope keeps the digital-to-analog converter of its
    /// channel switched on: anything but a silent start that only falls.
    pub open spec fn is_enabled(self) -> bool {
        self.direction != EnvelopeDirection::Decrease || self.volume != 0
    }

    pub fn new(val: u8) -> (envelope: Self)
        ensures
            envelope == Self::of(val),
            envelope.wf(),
    {
        let direction = if val / 8 % 2 == 1 {
            EnvelopeDirection::Increase
        } else {
            EnvelopeDirection::Decrease
        };
        Self {
            volume: val / 16,
            direction,
            step_duration: (val % 8) as u32 * 0x10000,
            counter: 0,
        }
    }

    pub fn tick(&mut self)
        requires
            old(self).wf(),
        ensures
            *final(self) == old(self).ticked(),
            final(self).wf(),
    {
        if self.step_duration == 0 {
            return ;
        }
        self.counter += 1;
        self.counter %= self.step_duration;
        if self.counter == 0 {
            match self.direction {
                EnvelopeDirection::Decrease => self.dec_volume(),
                EnvelopeDirection::Increase => self.inc_volume(),
            }
        }
    }

    pub fn inc_volume(&mut self)
        ensures
            *final(self) == old(self).louder(),
    {
        if self.volume < MAX_VOLUME {
            self.volume += 1;
        }
    }

    pub fn dec_volume(&mut self)
        ensures
            *final(self) == old(self).quieter(),
    {
        if self.volume > 0 {
            self.volume -= 1;
        }
    }

    pub fn into_u8(&self) -> (val: u8)
        requires
            self.wf(),
        ensures
            val == self.as_register(),
    {
        let length = (self.step_duration / 0x10000) as u8;
        let direction: u8 = match self.direction {
            EnvelopeDirection::Increase => 8,
            EnvelopeDirection::Decrease => 0,
        };
        self.volume * 16 + direction + length
    }

    pub fn enabled(&self) -> (enabled: bool)
        ensures
            enabled == self.is_enabled(),
    {
        match self.direction {
            EnvelopeDirection::Decrease => self.volume != 0,
            EnvelopeDirection::Increase => true,
        }
    }
}

/// Reading an envelope back gives the register value it was made from.
pub proof fn lemma_envelope_round_trip(val: u8)
    ensures
        Envelope::of(val).as_register() == val,
        Envelope::of(val).wf(),
{
}

} // verus!
