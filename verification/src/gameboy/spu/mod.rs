//! The sound unit: four channels, a mixer, and the buffer that collects the
//! mixed output for the host.
//!
//! The unit mixes in whole numbers. Each channel gives a level from 0 to 15;
//! a side of the stereo output is the sum of the channels routed to it,
//! times its master volume plus one, so a level from 0 to `MAX_LEVEL`. The
//! host scales these to whatever its audio device takes.
use vstd::prelude::*;

pub mod envelope;
pub mod rectangle_wave;
pub mod sampled_wave;
pub mod square_wave;
pub mod white_noise_wave;

use crate::gameboy::bits::bit;
use crate::gameboy::bits::has_bit;
use crate::gameboy::spu::envelope::Envelope;
use crate::gameboy::spu::rectangle_wave::RectangleWave;
use crate::gameboy::spu::sampled_wave::SampledWave;
use crate::gameboy::spu::sampled_wave::SampledWaveView;
use crate::gameboy::spu::square_wave::Duty;
use crate::gameboy::spu::square_wave::SquareWave;
use crate::gameboy::spu::square_wave::Sweep;
use crate::gameboy::spu::white_noise_wave::WhiteNoiseGenerator;
use crate::gameboy::spu::white_noise_wave::WhiteNoiseWave;

verus! {

/// The number of levels in one buffer, left and right interleaved.
pub const SAMPLES_PER_BUFFER: usize = 1024;

/// The rate, in samples per second and side, at which the buffer fills.
pub const SAMPLE_RATE: u32 = 48000;

/// The master cycles between two samples.
pub const CLOCKS_PER_SAMPLE: u64 = 87;

/// The highest level of one side: four channels at 15, at master volume 7.
pub const MAX_LEVEL: u16 = 480;

/// Whether a channel plays on and on or stops when its length counter runs
/// out.
#[derive(Clone, Copy, PartialEq, Eq, Structural, Debug)]
pub enum Mode {
    Consecutive,
    Counter,
}

impl Mode {
    /// The mode bit of a channel's control register.
    pub open spec fn index(self) -> u8 {
        match self {
            Mode::Consecutive => 0,
            Mode::Counter => 1,
        }
    }

    /// The mode that a control register value asks for, in its bit 6.
    pub open spec fn of(val: u8) -> Mode {
        if val / 64 % 2 == 1 {
            Mode::Counter
        } else {
            Mode::Consecutive
        }
    }

    pub fn from_register(val: u8) -> (mode: Self)
        ensures
            mode == Self::of(val),
    {
        if val / 64 % 2 == 1 {
            Mode::Counter
        } else {
            Mode::Consecutive
        }
    }

    pub fn into_u8(self) -> (val: u8)
        ensures
            val == self.index(),
    {
        match self {
            Mode::Consecutive => 0,
            Mode::Counter => 1,
        }
    }
}

/// The stereo mixer: which channel goes to which side, and how loud each
/// side is.
#[derive(Clone, Copy, Debug)]
pub struct Mixer {
    /// Bits 0 to 3 route channels 1 to 4 to the right side, bits 4 to 7 to
    /// the left.
    pub channel_output_flags: u8,
    /// Bits 0 to 2 hold the volume of the right side, bits 4 to 6 that of the
    /// left.
    pub channel_vol_flags: u8,
}

impl Mixer {
    /// `level` if routing bit `n` is set, silence otherwise.
    pub open spec fn routed(self, n: u8, level: int) -> int {
        if has_bit(self.channel_output_flags as int, n) {
            level
        } else {
            0
        }
    }

    /// The level of the left side for the given channel levels.
    pub open spec fn left(self, levels: (int, int, int, int)) -> int {
        (self.routed(4, levels.0) + self.routed(5, levels.1) + self.routed(6, levels.2)
            + self.routed(7, levels.3)) * (self.channel_vol_flags / 16 % 8 + 1)
    }

    /// The level of the right side for the given channel levels.
    pub open spec fn right(self, levels: (int, int, int, int)) -> int {
        (self.routed(0, levels.0) + self.routed(1, levels.1) + self.routed(2, levels.2)
            + self.routed(3, levels.3)) * (self.channel_vol_flags % 8 + 1)
    }

    pub fn new() -> (mixer: Self)
        ensures
            mixer == (Mixer { channel_output_flags: 0, channel_vol_flags: 0 }),
    {
        Self { channel_output_flags: 0, channel_vol_flags: 0 }
    }

    pub fn so1_vol(&self) -> (volume: u8)
        ensures
            volume == self.channel_vol_flags % 8,
    {
        self.channel_vol_flags % 8
    }

    pub fn so2_vol(&self) -> (volume: u8)
        ensures
            volume == self.channel_vol_flags / 16 % 8,
    {
        self.channel_vol_flags / 16 % 8
    }

    /// Mixes the four channel levels into the levels of the left and of the
    /// right side.
    pub fn mix(&self, ch1: u8, ch2: u8, ch3: u8, ch4: u8) -> (sides: (u16, u16))
        requires
            ch1 <= 15,
            ch2 <= 15,
            ch3 <= 15,
            ch4 <= 15,
        ensures
            sides.0 == self.left((ch1 as int, ch2 as int, ch3 as int, ch4 as int)),
            sides.1 == self.right((ch1 as int, ch2 as int, ch3 as int, ch4 as int)),
            sides.0 <= MAX_LEVEL,
            sides.1 <= MAX_LEVEL,
    {
        let flags = self.channel_output_flags;
        let mut right: u16 = 0;
        let mut left: u16 = 0;
        if bit(flags, 0) {
            right += ch1 as u16;
        }
        if bit(flags, 1) {
            right += ch2 as u16;
        }
        if bit(flags, 2) {
            right += ch3 as u16;
        }
        if bit(flags, 3) {
            right += ch4 as u16;
        }
        if bit(flags, 4) {
            left += ch1 as u16;
        }
        if bit(flags, 5) {
            left += ch2 as u16;
        }
        if bit(flags, 6) {
            left += ch3 as u16;
        }
        if bit(flags, 7) {
            left += ch4 as u16;
        }
        let right_gain = self.so1_vol() as u16 + 1;
        let left_gain = self.so2_vol() as u16 + 1;
        assert(right * right_gain <= 480) by (nonlinear_arith)
            requires
                right <= 60,
                right_gain <= 8,
        ;
        assert(left * left_gain <= 480) by (nonlinear_arith)
            requires
                left <= 60,
                left_gain <= 8,
        ;
        (left * left_gain, right * right_gain)
    }
}

pub struct Spu {
    /// Master cycles until the next sample.
    pub sample_clock: u64,
    /// The levels collected so far, left and right interleaved.
    pub buffer: Vec<u16>,
    pub buffer_pos: usize,
    /// Set when the buffer has filled up, until the host takes it.
    pub buffer_ready: bool,
    pub enabled: bool,
    pub channel_1: SquareWave,
    pub channel_2: RectangleWave,
    pub channel_3: SampledWave,
    pub channel_4: WhiteNoiseWave,
    pub mixer: Mixer,
}

/// The mathematical content of an [`Spu`].
#[verifier::ext_equal]
pub struct SpuView {
    pub sample_clock: u64,
    pub buffer: Seq<u16>,
    pub buffer_pos: usize,
    pub buffer_ready: bool,
    pub enabled: bool,
    pub channel_1: SquareWave,
    pub channel_2: RectangleWave,
    pub channel_3: SampledWaveView,
    pub channel_4: WhiteNoiseWave,
    pub mixer: Mixer,
}

impl View for Spu {
    type V = SpuView;

    open spec fn view(&self) -> SpuView {
        SpuView {
            sample_clock: self.sample_clock,
            buffer: self.buffer@,
            buffer_pos: self.buffer_pos,
            buffer_ready: self.buffer_ready,
            enabled: self.enabled,
            channel_1: self.channel_1,
            channel_2: self.channel_2,
            channel_3: self.channel_3@,
            channel_4: self.channel_4,
            mixer: self.mixer,
        }
    }
}

/// Whether an address belongs to a sound register or to the wave samples.
pub open spec fn is_sound_register(addr: u16) -> bool {
    ||| 0xFF10 <= addr <= 0xFF14
    ||| 0xFF16 <= addr <= 0xFF1E
    ||| 0xFF20 <= addr <= 0xFF26
    ||| 0xFF30 <= addr <= 0xFF3F
}

impl SpuView {
    pub open spec fn wf(self) -> bool {
        &&& self.sample_clock <= 87
        &&& self.buffer.len() == 1024
        &&& self.buffer_pos < 1024
        &&& self.buffer_pos % 2 == 0
        &&& self.channel_1.wf()
        &&& self.channel_2.wf()
        &&& self.channel_3.wf()
        &&& self.channel_4.wf()
    }

    /// The unit at power-on.
    pub open spec fn initial() -> SpuView {
        SpuView {
            sample_clock: 87,
            buffer: Seq::new(1024, |i: int| 0u16),
            buffer_pos: 0,
            buffer_ready: false,
            enabled: false,
            channel_1: SquareWave::initial(),
            channel_2: RectangleWave::initial(),
            channel_3: SampledWaveView::initial(Seq::new(32, |i: int| 0u8)),
            channel_4: WhiteNoiseWave::initial(),
            mixer: Mixer { channel_output_flags: 0, channel_vol_flags: 0 },
        }
    }

    /// The levels that the four channels put out: their digital output while
    /// their converter is on, silence otherwise.
    pub open spec fn levels(self) -> (int, int, int, int) {
        (
            if self.channel_1.envelope.is_enabled() {
                self.channel_1.output() as int
            } else {
                0
            },
            if self.channel_2.envelope.is_enabled() {
                self.channel_2.output() as int
            } else {
                0
            },
            if self.channel_3.running {
                self.channel_3.output() as int
            } else {
                0
            },
            if self.channel_4.envelope.is_enabled() {
                self.channel_4.output() as int
            } else {
                0
            },
        )
    }

    /// The unit after one sample has been taken: the levels of the left and
    /// of the right side go into the buffer, which is marked ready and
    /// started over when it is full.
    pub open spec fn sampled(self) -> SpuView {
        let buffer = self.buffer.update(
            self.buffer_pos as int,
            self.mixer.left(self.levels()) as u16,
        ).update(self.buffer_pos + 1, self.mixer.right(self.levels()) as u16);
        if self.buffer_pos + 2 == 1024 {
            SpuView { buffer, buffer_pos: 0, buffer_ready: true, ..self }
        } else {
            SpuView { buffer, buffer_pos: (self.buffer_pos + 2) as usize, ..self }
        }
    }

    /// The unit after one master cycle. While the unit is switched off
    /// nothing moves. Otherwise every channel ticks, and every 87th cycle
    /// takes a sample.
    pub open spec fn ticked(self) -> SpuView {
        if !self.enabled {
            self
        } else {
            let moved = SpuView {
                channel_1: self.channel_1.ticked(),
                channel_2: self.channel_2.ticked(),
                channel_3: self.channel_3.ticked(),
                channel_4: self.channel_4.ticked(),
                ..self
            };
            if self.sample_clock == 0 {
                SpuView { sample_clock: 86, ..moved.sampled() }
            } else {
                SpuView { sample_clock: (self.sample_clock - 1) as u64, ..moved }
            }
        }
    }

    /// The unit with all channels and the mixer back at power-on; the wave
    /// samples stay.
    pub open spec fn cleared(self) -> SpuView {
        SpuView {
            channel_1: SquareWave::initial(),
            channel_2: RectangleWave::initial(),
            channel_3: SampledWaveView::initial(self.channel_3.samples),
            channel_4: WhiteNoiseWave::initial(),
            mixer: Mixer { channel_output_flags: 0, channel_vol_flags: 0 },
            ..self
        }
    }

    /// What a read of a sound register gives. Bits that a register does not
    /// have read high, and so do the registers that can only be written.
    pub open spec fn register(self, addr: u16) -> int {
        if addr == 0xFF10 {
            self.channel_1.sweep.as_register()
        } else if addr == 0xFF11 {
            self.channel_1.duty.index() * 64 + 63
        } else if addr == 0xFF12 {
            self.channel_1.start_envelope.as_register()
        } else if addr == 0xFF14 {
            191 + self.channel_1.mode.index() * 64
        } else if addr == 0xFF16 {
            self.channel_2.duty.index() * 64 + 63
        } else if addr == 0xFF17 {
            self.channel_2.start_envelope.as_register()
        } else if addr == 0xFF19 {
            191 + self.channel_2.mode.index() * 64
        } else if addr == 0xFF1A {
            if self.channel_3.enabled {
                255
            } else {
                127
            }
        } else if addr == 0xFF1C {
            159 + self.channel_3.output_level * 32
        } else if addr == 0xFF1E {
            191 + self.channel_3.mode.index() * 64
        } else if addr == 0xFF21 {
            self.channel_4.start_envelope.as_register()
        } else if addr == 0xFF22 {
            self.channel_4.white_noise_generator.val as int
        } else if addr == 0xFF23 {
            191 + self.channel_4.mode.index() * 64
        } else if addr == 0xFF24 {
            self.mixer.channel_vol_flags as int
        } else if addr == 0xFF25 {
            self.mixer.channel_output_flags as int
        } else if addr == 0xFF26 {
            112 + (if self.enabled {
                128int
            } else {
                0int
            }) + (if self.channel_1.enabled {
                1int
            } else {
                0int
            }) + (if self.channel_2.enabled {
                2int
            } else {
                0int
            }) + (if self.channel_3.enabled {
                4int
            } else {
                0int
            }) + (if self.channel_4.enabled {
                8int
            } else {
                0int
            })
        } else if 0xFF30 <= addr <= 0xFF3F {
            self.channel_3.samples[2 * (addr - 0xFF30)] * 16 + self.channel_3.samples[2 * (addr
                - 0xFF30) + 1]
        } else {
            255
        }
    }

    /// The unit after a write to a sound register. The wave samples and the
    /// master switch in bit 7 of 0xFF26 can always be written; switching the
    /// unit off clears all channels and the mixer. Every other register only
    /// takes a write while the unit is on.
    pub open spec fn with_register(self, addr: u16, val: u8) -> SpuView {
        if 0xFF30 <= addr <= 0xFF3F {
            SpuView {
                channel_3: SampledWaveView {
                    samples: self.channel_3.samples.update(
                        2 * (addr - 0xFF30),
                        val / 16,
                    ).update(2 * (addr - 0xFF30) + 1, val % 16),
                    ..self.channel_3
                },
                ..self
            }
        } else if addr == 0xFF26 {
            if val >= 128 {
                SpuView { enabled: true, ..self }
            } else {
                (SpuView { enabled: false, ..self }).cleared()
            }
        } else if !self.enabled {
            self
        } else if addr == 0xFF10 {
            SpuView { channel_1: SquareWave { sweep: Sweep::of(val), ..self.channel_1 }, ..self }
        } else if addr == 0xFF11 {
            SpuView {
                channel_1: (SquareWave {
                    duty: Duty::of(val / 64),
                    ..self.channel_1
                }).with_length(val % 64),
                ..self
            }
        } else if addr == 0xFF12 {
            SpuView { channel_1: self.channel_1.with_envelope(Envelope::of(val)), ..self }
        } else if addr == 0xFF13 {
            SpuView {
                channel_1: SquareWave {
                    freq: (self.channel_1.freq / 256 * 256 + val) as u16,
                    ..self.channel_1
                },
                ..self
            }
        } else if addr == 0xFF14 {
            let tuned = SquareWave {
                freq: (self.channel_1.freq % 256 + val % 8 * 256) as u16,
                mode: Mode::of(val),
                ..self.channel_1
            };
            SpuView {
                channel_1: if val >= 128 {
                    tuned.started()
                } else {
                    tuned
                },
                ..self
            }
        } else if addr == 0xFF16 {
            SpuView {
                channel_2: (RectangleWave {
                    duty: Duty::of(val / 64),
                    ..self.channel_2
                }).with_length(val % 64),
                ..self
            }
        } else if addr == 0xFF17 {
            SpuView { channel_2: self.channel_2.with_envelope(Envelope::of(val)), ..self }
        } else if addr == 0xFF18 {
            SpuView {
                channel_2: RectangleWave {
                    freq: (self.channel_2.freq / 256 * 256 + val) as u16,
                    ..self.channel_2
                },
                ..self
            }
        } else if addr == 0xFF19 {
            let tuned = RectangleWave {
                freq: (self.channel_2.freq % 256 + val % 8 * 256) as u16,
                mode: Mode::of(val),
                ..self.channel_2
            };
            SpuView {
                channel_2: if val >= 128 {
                    tuned.started()
                } else {
                    tuned
                },
                ..self
            }
        } else if addr == 0xFF1A {
            SpuView { channel_3: self.channel_3.with_enabled(val >= 128), ..self }
        } else if addr == 0xFF1B {
            SpuView { channel_3: self.channel_3.with_length(val), ..self }
        } else if addr == 0xFF1C {
            SpuView {
                channel_3: SampledWaveView { output_level: val / 32 % 4, ..self.channel_3 },
                ..self
            }
        } else if addr == 0xFF1D {
            SpuView {
                channel_3: SampledWaveView {
                    frequency: (self.channel_3.frequency / 256 * 256 + val) as u16,
                    ..self.channel_3
                },
                ..self
            }
        } else if addr == 0xFF1E {
            let tuned = SampledWaveView {
                frequency: (self.channel_3.frequency % 256 + val % 8 * 256) as u16,
                mode: Mode::of(val),
                ..self.channel_3
            };
            SpuView {
                channel_3: if val >= 128 {
                    tuned.started()
                } else {
                    tuned
                },
                ..self
            }
        } else if addr == 0xFF20 {
            SpuView { channel_4: self.channel_4.with_length(val % 64), ..self }
        } else if addr == 0xFF21 {
            SpuView { channel_4: self.channel_4.with_envelope(Envelope::of(val)), ..self }
        } else if addr == 0xFF22 {
            SpuView {
                channel_4: WhiteNoiseWave {
                    white_noise_generator: WhiteNoiseGenerator::of(val),
                    ..self.channel_4
                },
                ..self
            }
        } else if addr == 0xFF23 {
            let tuned = WhiteNoiseWave { mode: Mode::of(val), ..self.channel_4 };
            SpuView {
                channel_4: if val >= 128 {
                    tuned.started()
                } else {
                    tuned
                },
                ..self
            }
        } else if addr == 0xFF24 {
            SpuView { mixer: Mixer { channel_vol_flags: val, ..self.mixer }, ..self }
        } else if addr == 0xFF25 {
            SpuView { mixer: Mixer { channel_output_flags: val, ..self.mixer }, ..self }
        } else {
            self
        }
    }
}

impl Spu {
    pub fn new() -> (spu: Self)
        ensures
            spu@ =~= SpuView::initial(),
            spu@.wf(),
    {
        Spu {
            sample_clock: CLOCKS_PER_SAMPLE,
            buffer: vec![0u16; SAMPLES_PER_BUFFER],
            buffer_pos: 0,
            buffer_ready: false,
            enabled: false,
            channel_1: SquareWave::new(),
            channel_2: RectangleWave::new(),
            channel_3: SampledWave::new(None),
            channel_4: WhiteNoiseWave::new(),
            mixer: Mixer::new(),
        }
    }

    /// Advances the unit by one master cycle.
    #[verifier::rlimit(100)]
    pub fn tick(&mut self)
        requires
            old(self)@.wf(),
        ensures
            final(self)@ =~= old(self)@.ticked(),
            final(self)@.wf(),
    {
        if !self.enabled {
            return ;
        }
        self.channel_1.tick();
        self.channel_2.tick();
        self.channel_3.tick();
        self.channel_4.tick();
        if self.sample_clock == 0 {
            self.sample_clock = CLOCKS_PER_SAMPLE;
            self.sample();
        }
        self.sample_clock -= 1;
    }

    /// Mixes the channels and puts the levels of both sides into the buffer.
    #[verifier::rlimit(100)]
    pub fn sample(&mut self)
        requires
            old(self)@.wf(),
        ensures
            final(self)@ =~= old(self)@.sampled(),
            final(self)@.wf(),
    {
        let (left_sample, right_sample) = self.sample_and_mix();
        self.buffer.set(self.buffer_pos, left_sample);
        self.buffer_pos += 1;
        self.buffer.set(self.buffer_pos, right_sample);
        self.buffer_pos += 1;
        if self.buffer_pos == self.buffer.len() {
            self.send_sample();
            self.buffer_pos = 0;
        }
    }

    /// The levels of the left and of the right side right now.
    pub fn sample_and_mix(&self) -> (sides: (u16, u16))
        requires
            self@.wf(),
        ensures
            sides.0 == self@.mixer.left(self@.levels()),
            sides.1 == self@.mixer.right(self@.levels()),
            sides.0 <= MAX_LEVEL,
            sides.1 <= MAX_LEVEL,
    {
        let ch1 = if self.channel_1.is_dac_enabled() {
            self.channel_1.sample()
        } else {
            0
        };
        let ch2 = if self.channel_2.is_dac_enabled() {
            self.channel_2.sample()
        } else {
            0
        };
        let ch3 = if self.channel_3.is_dac_enabled() {
            self.channel_3.sample()
        } else {
            0
        };
        let ch4 = if self.channel_4.is_dac_enabled() {
            self.channel_4.sample()
        } else {
            0
        };
        self.mixer.mix(ch1, ch2, ch3, ch4)
    }

    /// Marks the full buffer as ready for the host.
    pub fn send_sample(&mut self)
        ensures
            final(self)@ =~= (SpuView { buffer_ready: true, ..old(self)@ }),
    {
        self.buffer_ready = true;
    }

    /// Hands the full buffer to the host, once for each time it fills up.
    /// The host has until the next sample, 87 master cycles later, to ask.
    pub fn take_samples(&mut self) -> (samples: Option<Vec<u16>>)
        ensures
            final(self)@ =~= (SpuView { buffer_ready: false, ..old(self)@ }),
            match samples {
                Some(levels) => old(self).buffer_ready && levels@ == old(self).buffer@,
                None => !old(self).buffer_ready,
            },
    {
        if self.buffer_ready {
            self.buffer_ready = false;
            Some(self.buffer.clone())
        } else {
            None
        }
    }

    fn reset(&mut self)
        requires
            old(self)@.wf(),
        ensures
            final(self)@ =~= old(self)@.cleared(),
            final(self)@.wf(),
    {
        self.channel_1 = SquareWave::new();
        self.channel_2 = RectangleWave::new();
        self.channel_3.reset();
        self.channel_4 = WhiteNoiseWave::new();
        self.mixer = Mixer::new();
    }

    pub fn get_nr50(&self) -> (val: u8)
        requires
            self@.wf(),
        ensures
            val == self@.register(0xFF24),
    {
        self.mixer.channel_vol_flags
    }

    pub fn set_nr50(&mut self, val: u8)
        requires
            old(self)@.wf(),
        ensures
            final(self)@ =~= old(self)@.with_register(0xFF24, val),
            final(self)@.wf(),
    {
        if !self.enabled {
            return ;
        }
        self.mixer.channel_vol_flags = val;
    }

    pub fn get_nr51(&self) -> (val: u8)
        requires
            self@.wf(),
        ensures
            val == self@.register(0xFF25),
    {
        self.mixer.channel_output_flags
    }

    pub fn set_nr51(&mut self, val: u8)
        requires
            old(self)@.wf(),
        ensures
            final(self)@ =~= old(self)@.with_register(0xFF25, val),
            final(self)@.wf(),
    {
        if !self.enabled {
            return ;
        }
        self.mixer.channel_output_flags = val;
    }

    pub fn get_nr52(&self) -> (val: u8)
        requires
            self@.wf(),
        ensures
            val == self@.register(0xFF26),
    {
        let enabled: u8 = if self.enabled { 128 } else { 0 };
        let first: u8 = if self.channel_1.enabled { 1 } else { 0 };
        let second: u8 = if self.channel_2.enabled { 2 } else { 0 };
        let third: u8 = if self.channel_3.enabled { 4 } else { 0 };
        let fourth: u8 = if self.channel_4.enabled { 8 } else { 0 };
        112 + enabled + first + second + third + fourth
    }

    /// The master switch. Switching the unit off clears every channel and
    /// the mixer.
    pub fn set_nr52(&mut self, val: u8)
        requires
            old(self)@.wf(),
        ensures
            final(self)@ =~= old(self)@.with_register(0xFF26, val),
            final(self)@.wf(),
    {
        self.enabled = val >= 128;
        if !self.enabled {
            self.reset();
        }
    }

    pub fn get_nr10(&self) -> (val: u8)
        requires
            self@.wf(),
        ensures
            val == self@.register(0xFF10),
    {
        self.channel_1.sweep.into_u8()
    }

    pub fn set_nr10(&mut self, val: u8)
        requires
            old(self)@.wf(),
        ensures
            final(self)@ =~= old(self)@.with_register(0xFF10, val),
            final(self)@.wf(),
    {
        if !self.enabled {
            return ;
        }
        self.channel_1.sweep = Sweep::new(val);
    }

    pub fn get_nr11(&self) -> (val: u8)
        requires
            self@.wf(),
        ensures
            val == self@.register(0xFF11),
    {
        self.channel_1.duty.into_u8() * 64 + 63
    }

    pub fn set_nr11(&mut self, val: u8)
        requires
            old(self)@.wf(),
        ensures
            final(self)@ =~= old(self)@.with_register(0xFF11, val),
            final(self)@.wf(),
    {
        if !self.enabled {
            return ;
        }
        self.channel_1.duty = Duty::from_u8(val / 64);
        self.channel_1.set_length(val % 64);
    }

    pub fn get_nr12(&self) -> (val: u8)
        requires
            self@.wf(),
        ensures
            val == self@.register(0xFF12),
    {
        self.channel_1.start_envelope.into_u8()
    }

    pub fn set_nr12(&mut self, val: u8)
        requires
            old(self)@.wf(),
        ensures
            final(self)@ =~= old(self)@.with_register(0xFF12, val),
            final(self)@.wf(),
    {
        if !self.enabled {
            return ;
        }
        self.channel_1.set_envelope(Envelope::new(val));
    }

    pub fn get_nr13(&self) -> (val: u8)
        requires
            self@.wf(),
        ensures
            val == self@.register(0xFF13),
    {
        0xFF
    }

    pub fn set_nr13(&mut self, val: u8)
        requires
            old(self)@.wf(),
        ensures
            final(self)@ =~= old(self)@.with_register(0xFF13, val),
            final(self)@.wf(),
    {
        if !self.enabled {
            return ;
        }
        self.channel_1.freq = self.channel_1.freq / 256 * 256 + val as u16;
    }

    pub fn get_nr14(&self) -> (val: u8)
        requires
            self@.wf(),
        ensures
            val == self@.register(0xFF14),
    {
        191 + self.channel_1.mode.into_u8() * 64
    }

    pub fn set_nr14(&mut self, val: u8)
        requires
            old(self)@.wf(),
        ensures
            final(self)@ =~= old(self)@.with_register(0xFF14, val),
            final(self)@.wf(),
    {
        if !self.enabled {
            return ;
        }
        self.channel_1.freq = self.channel_1.freq % 256 + (val % 8) as u16 * 256;
        self.channel_1.mode = Mode::from_register(val);
        if val >= 128 {
            self.channel_1.start();
        }
    }

    pub fn get_nr21(&self) -> (val: u8)
        requires
            self@.wf(),
        ensures
            val == self@.register(0xFF16),
    {
        self.channel_2.duty.into_u8() * 64 + 63
    }

    pub fn set_nr21(&mut self, val: u8)
        requires
            old(self)@.wf(),
        ensures
            final(self)@ =~= old(self)@.with_register(0xFF16, val),
            final(self)@.wf(),
    {
        if !self.enabled {
            return ;
        }
        self.channel_2.duty = Duty::from_u8(val / 64);
        self.channel_2.set_length(val % 64);
    }

    pub fn get_nr22(&self) -> (val: u8)
        requires
            self@.wf(),
        ensures
            val == self@.register(0xFF17),
    {
        self.channel_2.start_envelope.into_u8()
    }

    pub fn set_nr22(&mut self, val: u8)
        requires
            old(self)@.wf(),
        ensures
            final(self)@ =~= old(self)@.with_register(0xFF17, val),
            final(self)@.wf(),
    {
        if !self.enabled {
            return ;
        }
        self.channel_2.set_envelope(Envelope::new(val));
    }

    pub fn get_nr23(&self) -> (val: u8)
        requires
            self@.wf(),
        ensures
            val == self@.register(0xFF18),
    {
        0xFF
    }

    pub fn set_nr23(&mut self, val: u8)
        requires
            old(self)@.wf(),
        ensures
            final(self)@ =~= old(self)@.with_register(0xFF18, val),
            final(self)@.wf(),
    {
        if !self.enabled {
            return ;
        }
        self.channel_2.freq = self.channel_2.freq / 256 * 256 + val as u16;
    }

    pub fn get_nr24(&self) -> (val: u8)
        requires
            self@.wf(),
        ensures
            val == self@.register(0xFF19),
    {
        191 + self.channel_2.mode.into_u8() * 64
    }

    pub fn set_nr24(&mut self, val: u8)
        requires
            old(self)@.wf(),
        ensures
            final(self)@ =~= old(self)@.with_register(0xFF19, val),
            final(self)@.wf(),
    {
        if !self.enabled {
            return ;
        }
        self.channel_2.freq = self.channel_2.freq % 256 + (val % 8) as u16 * 256;
        self.channel_2.mode = Mode::from_register(val);
        if val >= 128 {
            self.channel_2.start();
        }
    }

    pub fn get_nr30(&self) -> (val: u8)
        requires
            self@.wf(),
        ensures
            val == self@.register(0xFF1A),
    {
        if self.channel_3.enabled {
            255
        } else {
            127
        }
    }

    pub fn set_nr30(&mut self, val: u8)
        requires
            old(self)@.wf(),
        ensures
            final(self)@ =~= old(self)@.with_register(0xFF1A, val),
            final(self)@.wf(),
    {
        if !self.enabled {
            return ;
        }
        self.channel_3.set_enabled(val >= 128);
    }

    pub fn get_nr31(&self) -> (val: u8)
        requires
            self@.wf(),
        ensures
            val == self@.register(0xFF1B),
    {
        0xFF
    }

    pub fn set_nr31(&mut self, val: u8)
        requires
            old(self)@.wf(),
        ensures
            final(self)@ =~= old(self)@.with_register(0xFF1B, val),
            final(self)@.wf(),
    {
        if !self.enabled {
            return ;
        }
        self.channel_3.set_length(val);
    }

    pub fn get_nr32(&self) -> (val: u8)
        requires
            self@.wf(),
        ensures
            val == self@.register(0xFF1C),
    {
        159 + self.channel_3.output_level * 32
    }

    pub fn set_nr32(&mut self, val: u8)
        requires
            old(self)@.wf(),
        ensures
            final(self)@ =~= old(self)@.with_register(0xFF1C, val),
            final(self)@.wf(),
    {
        if !self.enabled {
            return ;
        }
        self.channel_3.output_level = val / 32 % 4;
    }

    pub fn get_nr33(&self) -> (val: u8)
        requires
            self@.wf(),
        ensures
            val == self@.register(0xFF1D),
    {
        0xFF
    }

    pub fn set_nr33(&mut self, val: u8)
        requires
            old(self)@.wf(),
        ensures
            final(self)@ =~= old(self)@.with_register(0xFF1D, val),
            final(self)@.wf(),
    {
        if !self.enabled {
            return ;
        }
        self.channel_3.frequency = self.channel_3.frequency / 256 * 256 + val as u16;
    }

    pub fn get_nr34(&self) -> (val: u8)
        requires
            self@.wf(),
        ensures
            val == self@.register(0xFF1E),
    {
        191 + self.channel_3.mode.into_u8() * 64
    }

    pub fn set_nr34(&mut self, val: u8)
        requires
            old(self)@.wf(),
        ensures
            final(self)@ =~= old(self)@.with_register(0xFF1E, val),
            final(self)@.wf(),
    {
        if !self.enabled {
            return ;
        }
        self.channel_3.frequency = self.channel_3.frequency % 256 + (val % 8) as u16 * 256;
        self.channel_3.mode = Mode::from_register(val);
        if val >= 128 {
            self.channel_3.start();
        }
    }

    /// Reads a byte of wave memory: two samples, the earlier one in the high
    /// nibble.
    pub fn get_sample(&self, index: u8) -> (val: u8)
        requires
            self@.wf(),
            index < 16,
        ensures
            val == self@.register((0xFF30 + index) as u16),
    {
        let index = (index * 2) as usize;
        let sample_high = self.channel_3.samples[index];
        let sample_low = self.channel_3.samples[index + 1];
        sample_high * 16 + sample_low
    }

    /// Writes a byte of wave memory, whether the unit is on or off.
    pub fn set_sample(&mut self, index: u8, sample: u8)
        requires
            old(self)@.wf(),
            index < 16,
        ensures
            final(self)@ =~= old(self)@.with_register((0xFF30 + index) as u16, sample),
            final(self)@.wf(),
    {
        let index = (index * 2) as usize;
        self.channel_3.samples.set(index, sample / 16);
        self.channel_3.samples.set(index + 1, sample % 16);
    }

    pub fn get_nr41(&self) -> (val: u8)
        requires
            self@.wf(),
        ensures
            val == self@.register(0xFF20),
    {
        0xFF
    }

    pub fn set_nr41(&mut self, val: u8)
        requires
            old(self)@.wf(),
        ensures
            final(self)@ =~= old(self)@.with_register(0xFF20, val),
            final(self)@.wf(),
    {
        if !self.enabled {
            return ;
        }
        self.channel_4.set_length(val % 64);
    }

    pub fn get_nr42(&self) -> (val: u8)
        requires
            self@.wf(),
        ensures
            val == self@.register(0xFF21),
    {
        self.channel_4.start_envelope.into_u8()
    }

    pub fn set_nr42(&mut self, val: u8)
        requires
            old(self)@.wf(),
        ensures
            final(self)@ =~= old(self)@.with_register(0xFF21, val),
            final(self)@.wf(),
    {
        if !self.enabled {
            return ;
        }
        self.channel_4.set_envelope(Envelope::new(val));
    }

    pub fn get_nr43(&self) -> (val: u8)
        requires
            self@.wf(),
        ensures
            val == self@.register(0xFF22),
    {
        self.channel_4.white_noise_generator.val
    }

    pub fn set_nr43(&mut self, val: u8)
        requires
            old(self)@.wf(),
        ensures
            final(self)@ =~= old(self)@.with_register(0xFF22, val),
            final(self)@.wf(),
    {
        if !self.enabled {
            return ;
        }
        self.channel_4.white_noise_generator = WhiteNoiseGenerator::new(val);
    }

    pub fn get_nr44(&self) -> (val: u8)
        requires
            self@.wf(),
        ensures
            val == self@.register(0xFF23),
    {
        191 + self.channel_4.mode.into_u8() * 64
    }

    pub fn set_nr44(&mut self, val: u8)
        requires
            old(self)@.wf(),
        ensures
            final(self)@ =~= old(self)@.with_register(0xFF23, val),
            final(self)@.wf(),
    {
        if !self.enabled {
            return ;
        }
        self.channel_4.mode = Mode::from_register(val);
        if val >= 128 {
            self.channel_4.start();
        }
    }

    /// Reads the sound register or the byte of wave memory at `addr`.
    #[verifier::rlimit(100)]
    pub fn read_register(&self, addr: u16) -> (val: u8)
        requires
            self@.wf(),
            is_sound_register(addr),
        ensures
            val == self@.register(addr),
    {
        if addr == 0xFF10 {
            self.get_nr10()
        } else if addr == 0xFF11 {
            self.get_nr11()
        } else if addr == 0xFF12 {
            self.get_nr12()
        } else if addr == 0xFF13 {
            self.get_nr13()
        } else if addr == 0xFF14 {
            self.get_nr14()
        } else if addr == 0xFF16 {
            self.get_nr21()
        } else if addr == 0xFF17 {
            self.get_nr22()
        } else if addr == 0xFF18 {
            self.get_nr23()
        } else if addr == 0xFF19 {
            self.get_nr24()
        } else if addr == 0xFF1A {
            self.get_nr30()
        } else if addr == 0xFF1B {
            self.get_nr31()
        } else if addr == 0xFF1C {
            self.get_nr32()
        } else if addr == 0xFF1D {
            self.get_nr33()
        } else if addr == 0xFF1E {
            self.get_nr34()
        } else if addr == 0xFF20 {
            self.get_nr41()
        } else if addr == 0xFF21 {
            self.get_nr42()
        } else if addr == 0xFF22 {
            self.get_nr43()
        } else if addr == 0xFF23 {
            self.get_nr44()
        } else if addr == 0xFF24 {
            self.get_nr50()
        } else if addr == 0xFF25 {
            self.get_nr51()
        } else if addr == 0xFF26 {
            self.get_nr52()
        } else {
            self.get_sample((addr - 0xFF30) as u8)
        }
    }

    /// Writes the sound register or the byte of wave memory at `addr`.
    #[verifier::rlimit(100)]
    pub fn write_register(&mut self, addr: u16, val: u8)
        requires
            old(self)@.wf(),
            is_sound_register(addr),
        ensures
            final(self)@ =~= old(self)@.with_register(addr, val),
            final(self)@.wf(),
    {
        if addr == 0xFF10 {
            self.set_nr10(val);
        } else if addr == 0xFF11 {
            self.set_nr11(val);
        } else if addr == 0xFF12 {
            self.set_nr12(val);
        } else if addr == 0xFF13 {
            self.set_nr13(val);
        } else if addr == 0xFF14 {
            self.set_nr14(val);
        } else if addr == 0xFF16 {
            self.set_nr21(val);
        } else if addr == 0xFF17 {
            self.set_nr22(val);
        } else if addr == 0xFF18 {
            self.set_nr23(val);
        } else if addr == 0xFF19 {
            self.set_nr24(val);
        } else if addr == 0xFF1A {
            self.set_nr30(val);
        } else if addr == 0xFF1B {
            self.set_nr31(val);
        } else if addr == 0xFF1C {
            self.set_nr32(val);
        } else if addr == 0xFF1D {
            self.set_nr33(val);
        } else if addr == 0xFF1E {
            self.set_nr34(val);
        } else if addr == 0xFF20 {
            self.set_nr41(val);
        } else if addr == 0xFF21 {
            self.set_nr42(val);
        } else if addr == 0xFF22 {
            self.set_nr43(val);
        } else if addr == 0xFF23 {
            self.set_nr44(val);
        } else if addr == 0xFF24 {
            self.set_nr50(val);
        } else if addr == 0xFF25 {
            self.set_nr51(val);
        } else if addr == 0xFF26 {
            self.set_nr52(val);
        } else {
            self.set_sample((addr - 0xFF30) as u8, val);
        }
    }
}

} // verus!
