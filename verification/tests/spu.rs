use gameboy_rs::gameboy::spu::envelope::Envelope;
use gameboy_rs::gameboy::spu::envelope::EnvelopeDirection;
use gameboy_rs::gameboy::spu::rectangle_wave::RectangleWave;
use gameboy_rs::gameboy::spu::sampled_wave::SampledWave;
use gameboy_rs::gameboy::spu::square_wave::Duty;
use gameboy_rs::gameboy::spu::square_wave::SquareWave;
use gameboy_rs::gameboy::spu::square_wave::Sweep;
use gameboy_rs::gameboy::spu::white_noise_wave::WhiteNoiseGenerator;
use gameboy_rs::gameboy::spu::white_noise_wave::WhiteNoiseWave;
use gameboy_rs::gameboy::spu::Mixer;
use gameboy_rs::gameboy::spu::Mode;
use gameboy_rs::gameboy::spu::Spu;
use gameboy_rs::gameboy::spu::CLOCKS_PER_SAMPLE;
use gameboy_rs::gameboy::spu::MAX_LEVEL;
use gameboy_rs::gameboy::spu::SAMPLES_PER_BUFFER;
use gameboy_rs::gameboy::spu::SAMPLE_RATE;

#[test]
fn constants() {
    assert_eq!(SAMPLES_PER_BUFFER, 1024);
    assert_eq!(SAMPLE_RATE, 48000);
    assert_eq!(CLOCKS_PER_SAMPLE, 87);
    assert_eq!(MAX_LEVEL, 480);
}

#[test]
fn envelope_from_register() {
    let envelope = Envelope::new(0xF3);
    assert_eq!(envelope.volume, 15);
    assert_eq!(envelope.direction, EnvelopeDirection::Decrease);
    assert_eq!(envelope.step_duration, 3 * 0x10000);
    assert_eq!(envelope.into_u8(), 0xF3);
    assert!(envelope.enabled());
    let envelope = Envelope::new(0x08);
    assert_eq!(envelope.direction, EnvelopeDirection::Increase);
    assert!(envelope.enabled());
    assert_eq!(envelope.into_u8(), 0x08);
    assert!(!Envelope::new(0x07).enabled());
    for value in 0..=255u8 {
        assert_eq!(Envelope::new(value).into_u8(), value);
    }
}

#[test]
fn envelope_steps_every_64k_cycles_per_unit() {
    let mut envelope = Envelope::new(0x21);
    for _ in 0..0xFFFF {
        envelope.tick();
    }
    assert_eq!(envelope.volume, 2);
    envelope.tick();
    assert_eq!(envelope.volume, 1);
    for _ in 0..0x20000 {
        envelope.tick();
    }
    assert_eq!(envelope.volume, 0);
    let mut envelope = Envelope::new(0xE9);
    for _ in 0..0x30000 {
        envelope.tick();
    }
    assert_eq!(envelope.volume, 15);
    let mut envelope = Envelope::new(0x50);
    for _ in 0..0x10000 {
        envelope.tick();
    }
    assert_eq!(envelope.volume, 5);
    envelope.inc_volume();
    assert_eq!(envelope.volume, 6);
    envelope.dec_volume();
    envelope.dec_volume();
    assert_eq!(envelope.volume, 4);
}

#[test]
fn duty_cycles() {
    assert_eq!(Duty::from_u8(0).pulses_per_8(), 1);
    assert_eq!(Duty::from_u8(1).pulses_per_8(), 2);
    assert_eq!(Duty::from_u8(2).pulses_per_8(), 4);
    assert_eq!(Duty::from_u8(3).pulses_per_8(), 6);
    assert_eq!(Duty::D75.into_u8(), 3);
}

#[test]
fn sweep_from_register() {
    let sweep = Sweep::new(0x2B);
    assert_eq!(sweep.duration, 2 * 0x8000);
    assert_eq!(sweep.sweep_shift, 3);
    assert_eq!(sweep.into_u8(), 0xAB);
    assert_eq!(Sweep::new(0x00).into_u8(), 0x80);
    for value in 0..128u8 {
        assert_eq!(Sweep::new(value).into_u8(), value | 0x80);
    }
}

#[test]
fn sweep_moves_the_frequency() {
    let mut sweep = Sweep::new(0x00);
    assert_eq!(sweep.tick(0x123), Some(0x123));
    let mut sweep = Sweep::new(0x11);
    for _ in 0..0x7FFF {
        assert_eq!(sweep.tick(0x400), Some(0x400));
    }
    assert_eq!(sweep.tick(0x400), Some(0x600));
    for _ in 0..0x7FFF {
        assert_eq!(sweep.tick(0x600), Some(0x600));
    }
    // 0x600 + 0x300 leaves the eleven bits of a frequency.
    assert_eq!(sweep.tick(0x600), None);
    let mut sweep = Sweep::new(0x1A);
    for _ in 0..0x7FFF {
        sweep.tick(0x400);
    }
    assert_eq!(sweep.tick(0x400), Some(0x300));
    let mut sweep = Sweep::new(0x18);
    for _ in 0..0x7FFF {
        sweep.tick(0x400);
    }
    assert_eq!(sweep.tick(0x400), Some(0x400));
}

#[test]
fn square_wave_runs_through_its_phases() {
    let mut channel = SquareWave::new();
    assert_eq!(channel.sample(), 0);
    channel.duty = Duty::D25;
    channel.freq = 0x7FF;
    channel.set_envelope(Envelope::new(0xA0));
    channel.start();
    assert!(channel.enabled);
    assert!(channel.is_dac_enabled());
    // The first tick loads the timer and moves on to phase 1.
    let mut levels = Vec::new();
    for _ in 0..8 {
        for _ in 0..4 {
            channel.tick();
        }
        levels.push(channel.sample());
    }
    assert_eq!(levels, vec![10, 0, 0, 0, 0, 0, 0, 10]);
    channel.set_length(63);
    assert_eq!(channel.remaining, 0x4000);
    channel.mode = Mode::Counter;
    for _ in 0..0x4000 {
        channel.tick();
    }
    assert!(channel.enabled);
    channel.tick();
    assert!(!channel.enabled);
    assert_eq!(channel.sample(), 0);
    assert_eq!(channel.remaining, 0x10_0000);
}

#[test]
fn square_wave_with_low_frequency_changes_phase_slowly() {
    let mut channel = SquareWave::new();
    channel.set_envelope(Envelope::new(0xF0));
    channel.start();
    channel.tick();
    assert_eq!(channel.phase, 1);
    assert_eq!(channel.counter, 4 * 0x800 - 1);
    for _ in 0..(4 * 0x800 - 1) {
        channel.tick();
    }
    assert_eq!(channel.phase, 1);
    channel.tick();
    assert_eq!(channel.phase, 2);
}

#[test]
fn square_wave_is_silenced_by_sweep_overflow() {
    let mut channel = SquareWave::new();
    channel.set_envelope(Envelope::new(0xF0));
    channel.sweep = Sweep::new(0x11);
    channel.freq = 0x700;
    channel.start();
    for _ in 0..0x7FFF {
        channel.tick();
    }
    assert!(channel.enabled);
    channel.tick();
    assert!(!channel.enabled);
}

#[test]
fn rectangle_wave_has_no_sweep() {
    let mut channel = RectangleWave::new();
    channel.duty = Duty::D50;
    channel.freq = 0x7FF;
    channel.set_envelope(Envelope::new(0x70));
    assert!(!channel.enabled);
    channel.start();
    let mut levels = Vec::new();
    for _ in 0..8 {
        for _ in 0..4 {
            channel.tick();
        }
        levels.push(channel.sample());
    }
    assert_eq!(levels, vec![7, 7, 7, 0, 0, 0, 0, 7]);
    channel.set_length(0);
    assert_eq!(channel.remaining, 64 * 0x4000);
    // An envelope that leaves the converter off silences the channel.
    channel.set_envelope(Envelope::new(0x00));
    assert!(channel.enabled);
    channel.start();
    assert!(!channel.enabled);
    assert!(!channel.is_dac_enabled());
}

#[test]
fn wave_channel_plays_its_samples() {
    let mut samples = vec![0u8; 32];
    for (i, sample) in samples.iter_mut().enumerate() {
        *sample = (i % 16) as u8;
    }
    let mut channel = SampledWave::new(Some(samples));
    channel.frequency = 0x7FF;
    channel.output_level = 1;
    channel.start();
    assert_eq!(channel.sample(), 0);
    channel.set_enabled(true);
    channel.start();
    assert!(channel.is_dac_enabled());
    let mut levels = Vec::new();
    for _ in 0..5 {
        channel.tick();
        channel.tick();
        levels.push(channel.sample());
    }
    assert_eq!(levels, vec![1, 2, 3, 4, 5]);
    channel.sample_index = 15;
    channel.output_level = 2;
    assert_eq!(channel.sample(), 7);
    channel.output_level = 3;
    assert_eq!(channel.sample(), 3);
    channel.output_level = 0;
    assert_eq!(channel.sample(), 0);
    channel.set_length(0xFF);
    assert_eq!(channel.remaining, 0x4000);
    channel.set_enabled(false);
    assert!(!channel.is_dac_enabled());
    channel.reset();
    assert_eq!(channel.samples[5], 5);
    assert_eq!(channel.sample_index, 0);
    assert_eq!(SampledWave::new(None).samples, vec![0u8; 32]);
}

#[test]
fn noise_generator_shifts_its_register() {
    let mut generator = WhiteNoiseGenerator::new(0x00);
    assert_eq!(generator.noise, 0x7FFF);
    assert!(!generator.is_output_high());
    for _ in 0..7 {
        generator.tick();
        assert_eq!(generator.noise, 0x7FFF);
    }
    generator.tick();
    assert_eq!(generator.noise, 0x3FFF);
    for _ in 0..8 * 13 {
        generator.tick();
    }
    assert_eq!(generator.noise, 0x0001);
    for _ in 0..8 {
        generator.tick();
    }
    assert_eq!(generator.noise, 0x4000);
    assert!(generator.is_output_high());

    let mut generator = WhiteNoiseGenerator::new(0x1B);
    assert_eq!(generator.noise, 0x7F);
    assert_eq!(generator.val, 0x1B);
    // A divisor of 8 x 3, shifted left twice.
    for _ in 0..95 {
        generator.tick();
    }
    assert_eq!(generator.noise, 0x7F);
    generator.tick();
    assert_eq!(generator.noise, 0x3F);
}

#[test]
fn noise_channel_follows_generator_and_envelope() {
    let mut channel = WhiteNoiseWave::new();
    channel.set_envelope(Envelope::new(0xC0));
    channel.start();
    assert!(channel.enabled);
    assert_eq!(channel.sample(), 0);
    channel.white_noise_generator.noise = 0x4000;
    assert_eq!(channel.sample(), 12);
    channel.set_length(60);
    assert_eq!(channel.remaining, 4 * 0x4000);
    assert!(channel.is_dac_enabled());
}

#[test]
fn mixer_routes_and_scales() {
    let mut mixer = Mixer::new();
    assert_eq!(mixer.mix(15, 15, 15, 15), (0, 0));
    mixer.channel_output_flags = 0xFF;
    assert_eq!(mixer.mix(15, 15, 15, 15), (60, 60));
    mixer.channel_vol_flags = 0x77;
    assert_eq!(mixer.mix(15, 15, 15, 15), (480, 480));
    assert_eq!(mixer.so1_vol(), 7);
    assert_eq!(mixer.so2_vol(), 7);
    // Channel 1 to the right only, channel 3 to the left only.
    mixer.channel_output_flags = 0x41;
    mixer.channel_vol_flags = 0x31;
    assert_eq!(mixer.so1_vol(), 1);
    assert_eq!(mixer.so2_vol(), 3);
    assert_eq!(mixer.mix(5, 9, 7, 11), (28, 10));
}

#[test]
fn registers_take_writes_only_while_the_unit_is_on() {
    let mut spu = Spu::new();
    assert_eq!(spu.get_nr52(), 0x70);
    spu.set_nr50(0x77);
    spu.set_nr51(0xFF);
    spu.set_nr12(0xF3);
    spu.set_nr10(0x2B);
    assert_eq!(spu.get_nr50(), 0x00);
    assert_eq!(spu.get_nr51(), 0x00);
    assert_eq!(spu.get_nr12(), 0x00);
    assert_eq!(spu.get_nr10(), 0x80);
    spu.set_nr52(0x80);
    assert_eq!(spu.get_nr52(), 0xF0);
    spu.set_nr50(0x77);
    spu.set_nr51(0xFF);
    spu.set_nr10(0x2B);
    spu.set_nr11(0x80);
    spu.set_nr12(0xF3);
    spu.set_nr13(0x34);
    spu.set_nr14(0x42);
    assert_eq!(spu.get_nr50(), 0x77);
    assert_eq!(spu.get_nr51(), 0xFF);
    assert_eq!(spu.get_nr10(), 0xAB);
    assert_eq!(spu.get_nr11(), 0xBF);
    assert_eq!(spu.get_nr12(), 0xF3);
    assert_eq!(spu.get_nr13(), 0xFF);
    assert_eq!(spu.get_nr14(), 0xFF);
    assert_eq!(spu.channel_1.freq, 0x234);
    assert_eq!(spu.channel_1.mode, Mode::Counter);
    assert!(!spu.channel_1.enabled);
    spu.set_nr14(0x87);
    assert_eq!(spu.channel_1.freq, 0x734);
    assert_eq!(spu.get_nr14(), 0xBF);
    assert!(spu.channel_1.enabled);
    assert_eq!(spu.get_nr52(), 0xF1);
}

#[test]
fn registers_of_the_other_channels() {
    let mut spu = Spu::new();
    spu.set_nr52(0x80);
    spu.set_nr21(0xC5);
    spu.set_nr22(0x80);
    spu.set_nr23(0xFF);
    spu.set_nr24(0x87);
    assert_eq!(spu.get_nr21(), 0xFF);
    assert_eq!(spu.get_nr22(), 0x80);
    assert_eq!(spu.get_nr23(), 0xFF);
    assert_eq!(spu.get_nr24(), 0xBF);
    assert_eq!(spu.channel_2.freq, 0x7FF);
    assert_eq!(spu.channel_2.remaining, (64 - 5) * 0x4000);
    spu.set_nr30(0x80);
    spu.set_nr31(0x10);
    spu.set_nr32(0x40);
    spu.set_nr33(0x21);
    spu.set_nr34(0xC3);
    assert_eq!(spu.get_nr30(), 0xFF);
    assert_eq!(spu.get_nr31(), 0xFF);
    assert_eq!(spu.get_nr32(), 0xDF);
    assert_eq!(spu.get_nr33(), 0xFF);
    assert_eq!(spu.get_nr34(), 0xFF);
    assert_eq!(spu.channel_3.frequency, 0x321);
    assert_eq!(spu.channel_3.remaining, 0xF0 * 0x4000);
    assert!(spu.channel_3.running);
    spu.set_nr41(0xFF);
    spu.set_nr42(0x91);
    spu.set_nr43(0x5A);
    spu.set_nr44(0x80);
    assert_eq!(spu.get_nr41(), 0xFF);
    assert_eq!(spu.get_nr42(), 0x91);
    assert_eq!(spu.get_nr43(), 0x5A);
    assert_eq!(spu.get_nr44(), 0xBF);
    assert_eq!(spu.channel_4.remaining, 0x4000);
    assert_eq!(spu.get_nr52(), 0xFE);
    assert_eq!(spu.read_register(0xFF26), 0xFE);
    assert_eq!(spu.read_register(0xFF1C), 0xDF);
    spu.write_register(0xFF25, 0x12);
    assert_eq!(spu.get_nr51(), 0x12);
    spu.set_nr30(0x00);
    assert_eq!(spu.get_nr30(), 0x7F);
    assert!(!spu.channel_3.running);
}

#[test]
fn wave_memory_is_always_writable_and_survives_power_off() {
    let mut spu = Spu::new();
    spu.set_sample(0, 0xAB);
    spu.set_sample(15, 0x12);
    assert_eq!(spu.get_sample(0), 0xAB);
    assert_eq!(spu.get_sample(15), 0x12);
    assert_eq!(spu.channel_3.samples[0], 0x0A);
    assert_eq!(spu.channel_3.samples[1], 0x0B);
    spu.set_nr52(0x80);
    spu.set_nr50(0x77);
    spu.set_nr22(0xF0);
    spu.set_nr24(0x80);
    assert_eq!(spu.get_nr52(), 0xF2);
    spu.set_nr52(0x00);
    assert_eq!(spu.get_nr52(), 0x70);
    assert_eq!(spu.get_nr50(), 0x00);
    assert_eq!(spu.get_nr22(), 0x00);
    assert_eq!(spu.get_sample(0), 0xAB);
    assert_eq!(spu.read_register(0xFF3F), 0x12);
}

#[test]
fn mixed_levels_of_a_running_channel() {
    let mut spu = Spu::new();
    spu.set_nr52(0x80);
    spu.set_nr50(0x73);
    spu.set_nr51(0x22);
    spu.set_nr21(0x80);
    spu.set_nr22(0xF0);
    spu.set_nr24(0x87);
    assert_eq!(spu.sample_and_mix(), (120, 60));
    spu.set_nr51(0x20);
    assert_eq!(spu.sample_and_mix(), (120, 0));
    spu.set_nr51(0x11);
    assert_eq!(spu.sample_and_mix(), (0, 0));
}

#[test]
fn buffer_fills_every_512_samples() {
    let mut spu = Spu::new();
    // A unit that is switched off does not move.
    for _ in 0..1000 {
        spu.tick();
    }
    assert_eq!(spu.sample_clock, 87);
    spu.set_nr52(0x80);
    spu.set_nr50(0x77);
    spu.set_nr51(0xFF);
    spu.set_nr21(0x80);
    spu.set_nr22(0xF0);
    spu.set_nr23(0x00);
    spu.set_nr24(0x80);
    for _ in 0..87 {
        spu.tick();
    }
    assert_eq!(spu.buffer_pos, 0);
    spu.tick();
    assert_eq!(spu.buffer_pos, 2);
    assert_eq!(spu.buffer[0], 120);
    assert_eq!(spu.buffer[1], 120);
    assert_eq!(spu.take_samples(), None);
    for _ in 0..(511 * 87 - 1) {
        spu.tick();
    }
    assert!(!spu.buffer_ready);
    spu.tick();
    assert!(spu.buffer_ready);
    assert_eq!(spu.buffer_pos, 0);
    let samples = spu.take_samples().unwrap();
    assert_eq!(samples.len(), 1024);
    assert!(samples.iter().all(|level| *level == 0 || *level == 120));
    assert!(samples.iter().any(|level| *level == 0));
    assert_eq!(spu.take_samples(), None);
}
