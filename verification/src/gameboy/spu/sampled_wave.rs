//! The wave channel: 32 four-bit samples played in a loop.
use vstd::prelude::*;

use crate::gameboy::spu::Mode;

verus! {

pub struct SampledWave {
    /// Whether the converter of the channel is switched on.
    pub enabled: bool,
    /// Whether the channel is playing.
    pub running: bool,
    /// Master cycles until the length counter runs out.
    pub remaining: u32,
    /// 0 mutes the channel, 1 plays the samples as they are, 2 halves and 3
    /// quarters them.
    pub output_level: u8,
    pub frequency: u16,
    /// Master cycles until the next sample.
    pub cycle: u16,
    pub mode: Mode,
    /// The 32 samples, each 0 to 15.
    pub samples: Vec<u8>,
    pub sample_index: usize,
}

/// The mathematical content of a [`SampledWave`].
#[verifier::ext_equal]
pub struct SampledWaveView {
    pub enabled: bool,
    pub running: bool,
    pub remaining: u32,
    pub output_level: u8,
    pub frequency: u16,
    pub cycle: u16,
    pub mode: Mode,
    pub samples: Seq<u8>,
    pub sample_index: usize,
}

impl View for SampledWave {
    type V = SampledWaveView;

    open spec fn view(&self) -> SampledWaveView {
        SampledWaveView {
            enabled: self.enabled,
            running: self.running,
            remaining: self.remaining,
            output_level: self.output_level,
            frequency: self.frequency,
            cycle: self.cycle,
            mode: self.mode,
            samples: self.samples@,
            sample_index: self.sample_index,
        }
    }
}

impl SampledWaveView {
    pub open spec fn wf(self) -> bool {
        &&& self.samples.len() == 32
        &&& forall|i: int| 0 <= i < 32 ==> #[trigger] self.samples[i] < 16
        &&& self.output_level < 4
        &&& self.frequency <= 0x7FF
        &&& self.sample_index < 32
        &&& self.remaining <= 0x40_0000
    }

    /// The channel at power-on, with the given samples.
    pub open spec fn initial(samples: Seq<u8>) -> SampledWaveView {
        SampledWaveView {
            enabled: false,
            running: false,
            remaining: 0x40_0000,
            output_level: 0,
            frequency: 0,
            cycle: 0,
            mode: Mode::Consecutive,
            samples,
            sample_index: 0,
        }
    }

    /// The channel after one master cycle: the length counter runs while the
    /// mode asks for it and switches the converter off at zero; while the
    /// channel plays, the frequency timer, reloaded with twice
    /// (0x800 - frequency), moves on to the next sample.
    pub open spec fn ticked(self) -> SampledWaveView {
        if self.mode == Mode::Counter && self.remaining == 0 {
            SampledWaveView { enabled: false, remaining: 0x40_0000, ..self }
        } else {
            let counted = if self.mode == Mode::Counter {
                SampledWaveView { remaining: (self.remaining - 1) as u32, ..self }
            } else {
                self
            };
            if !counted.running {
                counted
            } else if counted.cycle == 0 {
                SampledWaveView {
                    cycle: (2 * (0x800 - counted.frequency) - 1) as u16,
                    sample_index: ((counted.sample_index + 1) % 32) as usize,
                    ..counted
                }
            } else {
                SampledWaveView { cycle: (counted.cycle - 1) as u16, ..counted }
            }
        }
    }

    /// The channel with its length counter loaded: 0x100 - `length` steps
    /// of 0x4000 master cycles are left.
    pub open spec fn with_length(self, length: u8) -> SampledWaveView {
        SampledWaveView { remaining: ((0x100 - length) * 0x4000) as u32, ..self }
    }

    /// The channel with its converter switched on or off; off also stops it.
    pub open spec fn with_enabled(self, enabled: bool) -> SampledWaveView {
        SampledWaveView { enabled, running: self.running && enabled, ..self }
    }

    /// The channel started, if its converter is on.
    pub open spec fn started(self) -> SampledWaveView {
        SampledWaveView { running: self.enabled, ..self }
    }

    /// The digital output of the channel, 0 to 15.
    pub open spec fn output(self) -> u8 {
        if !self.running || self.output_level == 0 {
            0
        } else if self.output_level == 1 {
            self.samples[self.sample_index as int]
        } else if self.output_level == 2 {
            self.samples[self.sample_index as int] / 2
        } else {
            self.samples[self.sample_index as int] / 4
        }
    }
}

impl SampledWave {
    /// Makes the channel with the given samples, or with silence.
    pub fn new(samples: Option<Vec<u8>>) -> (channel: Self)
        requires
            samples matches Some(s) ==> s.len() == 32 && forall|i: int|
                0 <= i < 32 ==> #[trigger] s@[i] < 16,
        ensures
            channel@ =~= SampledWaveView::initial(
                match samples {
                    Some(s) => s@,
                    None => Seq::new(32, |i: int| 0u8),
                },
            ),
            channel@.wf(),
    {
        let samples = match samples {
            Some(s) => s,
            None => vec![0u8; 32],
        };
        Self {
            enabled: false,
            running: false,
            remaining: 0x40_0000,
            output_level: 0,
            frequency: 0,
            cycle: 0,
            mode: Mode::Consecutive,
            samples,
            sample_index: 0,
        }
    }

    /// Puts the channel back to power-on and keeps its samples.
    pub fn reset(&mut self)
        requires
            old(self)@.wf(),
        ensures
            final(self)@ =~= SampledWaveView::initial(old(self)@.samples),
            final(self)@.wf(),
    {
        self.enabled = false;
        self.running = false;
        self.remaining = 0x40_0000;
        self.output_level = 0;
        self.frequency = 0;
        self.cycle = 0;
        self.mode = Mode::Consecutive;
        self.sample_index = 0;
    }

    pub fn tick(&mut self)
        requires
            old(self)@.wf(),
        ensures
            final(self)@ =~= old(self)@.ticked(),
            final(self)@.wf(),
    {
        if self.mode == Mode::Counter {
            if self.remaining == 0 {
                self.enabled = false;
                self.remaining = 0x40_0000;
                return ;
            }
            self.remaining -= 1;
        }
        if !self.running {
            return ;
        }
        if self.cycle == 0 {
            self.cycle = 2 * (0x800 - self.frequency);
            self.sample_index = (self.sample_index + 1) % 32;
        }
        self.cycle -= 1;
    }

    pub fn sample(&self) -> (sample: u8)
        requires
            self@.wf(),
        ensures
            sample == self@.output(),
            sample <= 15,
    {
        if !self.running {
            return 0;
        }
        let sample = self.samples[self.sample_index];
        if self.output_level == 0 {
            0
        } else if self.output_level == 1 {
            sample
        } else if self.output_level == 2 {
            sample / 2
        } else {
            sample / 4
        }
    }

    /// Loads the length counter: the channel has 0x100 - `length` steps of
    /// 0x4000 master cycles left.
    pub fn set_length(&mut self, length: u8)
        ensures
            final(self)@ =~= old(self)@.with_length(length),
    {
        self.remaining = (0x100 - (length as u32)) * 0x4000;
    }

    /// Switches the converter on or off; off also stops the channel.
    pub fn set_enabled(&mut self, enabled: bool)
        ensures
            final(self)@ =~= old(self)@.with_enabled(enabled),
    {
        self.enabled = enabled;
        if !self.enabled {
            self.running = false;
        }
    }

    /// Starts the channel, if its converter is on.
    pub fn start(&mut self)
        ensures
            final(self)@ =~= old(self)@.started(),
    {
        self.running = self.enabled;
    }

    pub fn is_dac_enabled(&self) -> (on: bool)
        ensures
            on == self.running,
    {
        self.running
    }
}

} // verus!
