use rustation_ng::psx::spu::adpcm::{saturate_to_i16, AdpcmHeader};
use rustation_ng::psx::spu::envelope::{AdsrConfig, EnvelopeMode, EnvelopeParams};
use rustation_ng::psx::spu::{
    apply_soft_compression, to_ram_index, Adsr, AdsrState, AudioBufferConfig, AudioRecoveryMode,
    AudioRingBuffer, Volume, VolumeConfig, Voice,
};

#[test]
fn test_ring_buffer_basic() {
    let mut buffer = AudioRingBuffer::new(16);

    assert!(buffer.push_stereo(100, 200));
    assert!(buffer.push_stereo(300, 400));

    let samples = buffer.pop_stereo(2);
    assert_eq!(samples, vec![100, 200, 300, 400]);
    assert_eq!(buffer.current_fill, 0);
}

#[test]
fn test_ring_buffer_overflow_drop_oldest() {
    let mut buffer = AudioRingBuffer::new(8);
    buffer.set_recovery_mode(AudioRecoveryMode::DropOldest);

    for i in 0..4 {
        assert!(buffer.push_stereo(i * 10, i * 10 + 1));
    }
    assert_eq!(buffer.current_fill, 8);

    assert!(!buffer.push_stereo(100, 101));
    assert_eq!(buffer.total_dropped, 2);

    assert!(buffer.push_stereo(100, 101));
}

#[test]
fn test_ring_buffer_overflow_drop_newest() {
    let mut buffer = AudioRingBuffer::new(8);
    buffer.set_recovery_mode(AudioRecoveryMode::DropNewest);

    for i in 0..4 {
        assert!(buffer.push_stereo(i * 10, i * 10 + 1));
    }

    assert!(!buffer.push_stereo(100, 101));
    assert_eq!(buffer.total_dropped, 2);

    let samples = buffer.pop_stereo(4);
    assert_eq!(samples[0], 0);
    assert_eq!(samples[1], 1);
}

#[test]
fn test_ring_buffer_overflow_halve() {
    let mut buffer = AudioRingBuffer::new(8);
    buffer.set_recovery_mode(AudioRecoveryMode::HalveBuffer);

    for i in 0..4 {
        assert!(buffer.push_stereo(i * 10, i * 10 + 1));
    }

    assert!(!buffer.push_stereo(100, 101));
    assert_eq!(buffer.current_fill, 4);
    assert_eq!(buffer.total_dropped, 4);
}

#[test]
fn test_ring_buffer_overflow_reset() {
    let mut buffer = AudioRingBuffer::new(8);
    buffer.set_recovery_mode(AudioRecoveryMode::Reset);

    for i in 0..4 {
        assert!(buffer.push_stereo(i * 10, i * 10 + 1));
    }

    assert!(!buffer.push_stereo(100, 101));
    assert_eq!(buffer.current_fill, 0);
    assert_eq!(buffer.total_dropped, 8);

    assert!(buffer.push_stereo(200, 201));
    assert_eq!(buffer.current_fill, 2);
}

#[test]
fn test_power_of_two_rounding() {
    let buffer = AudioRingBuffer::new(10);
    assert_eq!(buffer.size, 16);

    let buffer = AudioRingBuffer::new(32);
    assert_eq!(buffer.size, 32);

    let buffer = AudioRingBuffer::new(100);
    assert_eq!(buffer.size, 128);
}

#[test]
fn ring_buffer_is_first_in_first_out_across_wraparound() {
    let mut buffer = AudioRingBuffer::new(8);
    for round in 0..10i16 {
        assert!(buffer.push_stereo(round, -round));
        assert!(buffer.push_stereo(round + 100, -round - 100));
        assert_eq!(buffer.pop_stereo(1), vec![round, -round]);
        assert_eq!(buffer.pop_stereo(1), vec![round + 100, -round - 100]);
    }
    assert_eq!(buffer.total_written, 40);
    assert_eq!(buffer.current_fill, 0);
}

#[test]
fn pop_gives_at_most_what_is_queued() {
    let mut buffer = AudioRingBuffer::new(16);
    assert!(buffer.push_stereo(1, 2));
    assert_eq!(buffer.pop_stereo(5), vec![1, 2]);
    assert_eq!(buffer.pop_stereo(5), Vec::<i16>::new());
}

#[test]
fn drop_oldest_keeps_the_newest_samples() {
    let mut buffer = AudioRingBuffer::new(4);
    assert!(buffer.push_stereo(1, 2));
    assert!(buffer.push_stereo(3, 4));
    assert!(!buffer.push_stereo(5, 6));
    assert_eq!(buffer.pop_stereo(4), vec![3, 4]);
}

#[test]
fn small_requests_round_up_to_one() {
    assert_eq!(AudioRingBuffer::new(0).size, 1);
    assert_eq!(AudioRingBuffer::new(1).size, 1);
    assert_eq!(AudioRingBuffer::new(3).size, 4);
}

#[test]
fn target_latency_is_capped_at_half_the_capacity() {
    let mut buffer = AudioRingBuffer::new(64);
    assert_eq!(buffer.target_latency, 16);
    buffer.set_target_latency(16);
    assert_eq!(buffer.target_latency, 16);
    buffer.set_target_latency(1000);
    assert_eq!(buffer.target_latency, 32);
}

#[test]
fn reset_stats_clears_the_counters() {
    let mut buffer = AudioRingBuffer::new(32);
    for _ in 0..5 {
        buffer.push_stereo(0, 0);
    }
    assert_eq!(buffer.total_written, 10);
    assert_eq!(buffer.current_fill, 10);
    assert_eq!(buffer.available_space(), 22);
    buffer.reset_stats();
    assert_eq!(buffer.total_written, 0);
    assert_eq!(buffer.total_dropped, 0);
    assert_eq!(buffer.max_fill_level, 10);
}

#[test]
fn default_audio_buffer_config() {
    let c = AudioBufferConfig::default();
    assert_eq!(c.buffer_size, 8192);
    assert_eq!(c.target_latency, 2048);
    assert_eq!(c.recovery_mode, AudioRecoveryMode::DropOldest);
    assert!(!c.enable_debug);
}

#[test]
fn volume_configuration_and_scaling() {
    let mut v = Volume::new();
    v.set_config(0x2000);
    assert_eq!(v.config, VolumeConfig::Fixed(0x4000));
    v.set_config(0x8000);
    assert_eq!(v.config, VolumeConfig::Sweep(EnvelopeParams::new()));
    v.set_level(0x4000);
    assert_eq!(v.get_level(), 0x4000);
    assert_eq!(v.apply_level(1000), 500);
    assert_eq!(v.apply_level(-1), -1);
}

#[test]
fn adsr_level_is_clamped_at_zero() {
    let mut a = Adsr::new();
    assert_eq!(a.state, AdsrState::Attack);
    a.set_level(-5);
    assert_eq!(a.level, 0);
    a.set_level(0x7fff);
    assert_eq!(a.level, 0x7fff);
}

#[test]
fn voice_loops_to_a_block_aligned_start() {
    let mut v = Voice::new();
    assert!(!v.is_running());
    v.loop_index = 0x1235;
    v.cur_index = 0x2000;
    v.block_header = AdpcmHeader(0x0000);
    assert!(!v.maybe_loop());
    assert_eq!(v.cur_index, 0x2000);
    v.block_header = AdpcmHeader(0x0100);
    assert!(v.maybe_loop());
    assert_eq!(v.cur_index, 0x1230);
}

#[test]
fn test_attack_phase() {
    // Attack rate 10 (bits 8 to 14 of the configuration), then key on.
    let mut envelope = Adsr::new();
    envelope.set_conf_lo(10 << 8);
    envelope.attack();

    let initial = envelope.level;
    for _ in 0..10 {
        envelope.run_cycle();
    }

    assert!(envelope.level > initial, "Attack phase should increase level");
    assert_eq!(envelope.get_state(), AdsrState::Attack);
}

#[test]
fn test_decay_phase_transition() {
    // Fastest attack, decay rate 10 (bits 4 to 7), sustain level 0x3fff (the nearest
    // the 4-bit field gives to 0x4000), then key on.
    let mut envelope = Adsr::new();
    envelope.set_conf_lo((10 << 4) | 7);
    envelope.attack();
    let mut cycles = 0;
    while envelope.get_state() == AdsrState::Attack && cycles < 10 {
        envelope.run_cycle();
        cycles += 1;
    }
    assert_eq!(envelope.get_state(), AdsrState::Decay);
    assert_eq!(envelope.level, 0x7fff, "Should reach max before decay");
}

#[test]
fn test_sustain_phase() {
    // Sustain level 0x3fff, slowest sustain rate, in the sustain phase at that level.
    let mut envelope = Adsr::new();
    envelope.set_conf_lo(7);
    envelope.set_conf_hi(0x1f00);
    let sustain_level = envelope.sustain_level;
    envelope.state = AdsrState::Sustain;
    envelope.set_level(sustain_level);
    for _ in 0..100 {
        envelope.run_cycle();
    }
    assert_eq!(envelope.level, sustain_level, "Sustain phase should maintain constant level");
}

#[test]
fn test_release_phase() {
    // Release rate 10 (bits 16 to 20 of the configuration), level 0x4000, then key off.
    let mut envelope = Adsr::new();
    envelope.set_conf_hi(10);
    envelope.set_level(0x4000);
    envelope.release();

    let initial = envelope.level;
    for _ in 0..10 {
        envelope.run_cycle();
    }

    assert!(envelope.level < initial, "Release phase should decrease level");
    assert_eq!(envelope.get_state(), AdsrState::Release);
}

#[test]
fn new_envelope_follows_a_cleared_configuration() {
    let a = Adsr::new();
    assert_eq!(a.sustain_level, 0x07ff);
    assert_eq!(a.params[0], EnvelopeParams { divider_step: 0x8000, level_step: 7 << 11, mode: EnvelopeMode::Linear });
    assert_eq!(a.params[1], EnvelopeParams { divider_step: 0x8000, level_step: -8 << 11, mode: EnvelopeMode::Exponential });
    assert_eq!(a.params[3], EnvelopeParams { divider_step: 0x8000, level_step: -8 << 11, mode: EnvelopeMode::Linear });
}

#[test]
fn attack_peaks_then_decays_to_sustain_then_holds() {
    let mut a = Adsr::new();
    // Fastest linear attack, decay shift 0, sustain level 0x3fff (field 7), sustain rate
    // field 31 in the high half: divider step 1, so sustain barely moves.
    a.set_conf_lo(0x0007);
    a.set_conf_hi(0x1f00);
    assert_eq!(a.sustain_level, 0x3fff);
    a.attack();
    let mut cycles = 0;
    while a.get_state() == AdsrState::Attack {
        a.run_cycle();
        cycles += 1;
    }
    assert_eq!(a.level, 0x7fff);
    assert_eq!(a.get_state(), AdsrState::Decay);
    assert_eq!(a.divider, 0);
    assert_eq!(cycles, 3);
    while a.get_state() == AdsrState::Decay {
        a.run_cycle();
    }
    assert!(a.level <= 0x3fff);
    let held = a.level;
    a.run_cycle();
    assert_eq!(a.get_state(), AdsrState::Sustain);
    assert!(a.level >= held);
}

#[test]
fn release_reaches_zero_and_stays_there() {
    let mut a = Adsr::new();
    a.set_level(0x100);
    a.release();
    for _ in 0..100 {
        let before = a.level;
        a.run_cycle();
        assert!(a.level <= before);
        assert_eq!(a.get_state(), AdsrState::Release);
    }
    assert!(a.is_completed());
}

#[test]
fn slow_rates_scale_the_divider() {
    assert_eq!(EnvelopeParams::steps(0, 7), (0x8000, 7 << 11));
    assert_eq!(EnvelopeParams::steps(10, -8), (0x8000, -16));
    assert_eq!(EnvelopeParams::steps(11, 5), (0x8000, 5));
    assert_eq!(EnvelopeParams::steps(13, 5), (0x2000, 5));
    assert_eq!(EnvelopeParams::steps(26, -8), (1, -8));
    assert_eq!(EnvelopeParams::steps(31, 4), (1, 4));
    assert_eq!(EnvelopeParams::smooth_mode(7, 0x8000, 0x3800), EnvelopeMode::SmoothUp(0x8000, 0x0e00));
    assert_eq!(EnvelopeParams::smooth_mode(12, 2, 100), EnvelopeMode::SmoothUp(1, 100));
}

#[test]
fn exponential_steps_scale_with_the_level() {
    let p = EnvelopeParams { divider_step: 0x8000, level_step: -0x4000, mode: EnvelopeMode::Exponential };
    assert_eq!(p.compute_level_step(0x4000), -0x2000);
    assert_eq!(p.compute_level_step(-5), 0);
    let s = EnvelopeParams { divider_step: 0x8000, level_step: 100, mode: EnvelopeMode::SmoothUp(0x2000, 25) };
    assert_eq!(s.compute_level_step(0x5fff), 100);
    assert_eq!(s.compute_level_step(0x6000), 25);
    assert_eq!(s.compute_divider_step(0x6000), 0x2000);
    assert_eq!(s.compute_divider_step(0), 0x8000);
}

#[test]
fn configuration_halves_are_written_separately() {
    let mut c = AdsrConfig::new();
    c.set_lo(0x1234);
    c.set_hi(0xabcd);
    assert_eq!(c.0, 0xabcd_1234);
    c.set_lo(0xffff);
    assert_eq!(c.0, 0xabcd_ffff);
    assert_eq!(AdsrConfig(0xf).sustain_level(), 0x7fff);
    assert_eq!(AdsrConfig(0x0).sustain_level(), 0x07ff);
}

#[test]
fn adpcm_header_fields() {
    let h = AdpcmHeader(0x0734);
    assert!(h.loop_end());
    assert!(!h.loop_release_and_mute());
    assert!(h.loop_start());
    assert_eq!(h.weights(), (98, -55));
    assert_eq!(h.shift(), 4);
    assert_eq!(AdpcmHeader(0x00f0).weights(), (0, 0));
    assert!(AdpcmHeader(0x0100).loop_release_and_mute());
}

#[test]
fn adpcm_decoding_extrapolates_from_history() {
    let mut v = Voice::new();
    // Filter 0, shift 0: samples are the nibbles in the top bits.
    v.block_header = AdpcmHeader(0x0000);
    assert_eq!(v.decode(0x8421), [0x1000, 0x2000, 0x4000, -0x8000]);
    assert_eq!(v.last_samples, [-0x8000, 0x4000]);
    // Filter 1 (60/64 of the last sample), shift 12: nibble value plus extrapolation.
    let mut v = Voice::new();
    v.block_header = AdpcmHeader(0x001c);
    v.last_samples = [640, 0];
    assert_eq!(v.decode(0x0001), [1 + 600, 563, 527, 494]);
    // Shifts above 12 keep only the sign bits.
    let mut v = Voice::new();
    v.block_header = AdpcmHeader(0x000d);
    assert_eq!(v.decode(0x7f0f), [-128, 0, -128, 0]);
}

#[test]
fn voice_bookkeeping() {
    let mut v = Voice::new();
    v.set_start_index(0x1235);
    assert_eq!(v.start_index, 0x1230);
    v.cur_index = 0x3ffff;
    v.next_index();
    assert_eq!(v.cur_index, 0);
    v.set_block_header(0x0400);
    assert_eq!(v.loop_index, 0);
    v.cur_index = 0x40;
    v.set_block_header(0x0400);
    assert_eq!(v.loop_index, 0x40);
    v.set_loop_index(0x80);
    v.cur_index = 0x90;
    v.set_block_header(0x0400);
    assert_eq!(v.loop_index, 0x80);
    v.set_level(-3);
    assert_eq!(v.level(), 0);
    v.set_level(0x4000);
    assert_eq!(v.apply_enveloppe(0x1000), 0x800);
    v.phase = 0xf00;
    assert_eq!(v.consume_samples(0x1200), 2);
    assert_eq!(v.phase, 0x100);
    v.restart();
    assert_eq!(v.cur_index, 0x1230);
    assert_eq!(v.start_delay, 4);
    assert_eq!(v.level(), 0);
    assert!(!v.loop_index_force);
    v.block_header = AdpcmHeader(0x0100);
    v.set_level(0x100);
    v.maybe_release();
    assert_eq!(v.level(), 0);
    assert_eq!(v.adsr.get_state(), AdsrState::Release);
}

#[test]
fn volumes_and_sample_helpers() {
    let mut v = Voice::new();
    v.volume_left.set_config(0x1000);
    v.volume_right.set_config(0x3fff);
    v.run_sweep_cycle();
    assert_eq!(v.volume_left.level(), 0x2000);
    assert_eq!(v.volume_right.level(), 0x7ffe);
    assert_eq!(v.apply_stereo(0x100), (0x40, 0xff));
    assert_eq!(saturate_to_i16(40000), 32767);
    assert_eq!(saturate_to_i16(-40000), -32768);
    assert_eq!(saturate_to_i16(-5), -5);
    assert_eq!(apply_soft_compression(1000), 1000);
    assert_eq!(apply_soft_compression(24576), 24576);
    assert_eq!(apply_soft_compression(32767), 28671);
    assert_eq!(apply_soft_compression(-32768), -28672);
    assert_eq!(to_ram_index(0x1000), 0x4000);
    assert_eq!(to_ram_index(0xffff), 0x3fffc);
}
