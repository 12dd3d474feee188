use rustation_ng::psx::spu::{AudioBufferConfig, AudioRecoveryMode};
use rustation_ng::psx::spu::processor::{
    apply_enhanced_reverb_coeff, apply_soft_compression, iir_mul, Spu, Volume, VolumeSetting,
};

const CONTROL_OFF: u32 = 0xd5 * 2;
const IRQ_ADDRESS_OFF: u32 = 0xd2 * 2;
const TRANSFER_START_OFF: u32 = 0xd3 * 2;
const TRANSFER_FIFO_OFF: u32 = 0xd4 * 2;

#[test]
fn new_spu_is_cleared() {
    let spu = Spu::new();
    assert_eq!(spu.regs.len(), 320);
    assert_eq!(spu.ram.len(), 256 * 1024);
    assert_eq!(spu.voices.len(), 24);
    assert!(spu.regs.iter().all(|&r| r == 0));
    assert_eq!(spu.audio_ring_buffer.size, 8192);
    assert!(spu.reverb_enhanced_mode);
    assert!(!spu.irq);
}

#[test]
fn voice_registers_configure_their_voice() {
    let mut spu = Spu::new();
    // Voice 2, step length.
    spu.store16((2 * 8 + 2) * 2, 0x1000);
    assert_eq!(spu.voices[2].step_length, 0x1000);
    assert_eq!(spu.regs[2 * 8 + 2], 0x1000);
    assert_eq!(spu.voices[1].step_length, 0);
    // Voice 3, start position: eight-byte units, aligned to eight samples.
    spu.store16((3 * 8 + 3) * 2, 0x1001);
    assert_eq!(spu.voices[3].start_index, 0x4000);
    // Voice 0, fixed left volume.
    spu.store16(0, 0x1234);
    assert_eq!(spu.voices[0].volume_left.config, VolumeSetting::Fixed(0x2468));
    // Voice 4, loop position read back in eight-byte units.
    spu.store16((4 * 8 + 7) * 2, 0x0123);
    assert_eq!(spu.voices[4].loop_index, 0x48c);
    assert!(spu.voices[4].loop_index_force);
    assert_eq!(spu.load16((4 * 8 + 7) * 2), 0x123);
    // Voice 5, envelope level (negative values are held at 0).
    spu.store16((5 * 8 + 6) * 2, 0x8000);
    assert_eq!(spu.load16((5 * 8 + 6) * 2), 0);
    spu.store16((5 * 8 + 6) * 2, 0x1234);
    assert_eq!(spu.load16((5 * 8 + 6) * 2), 0x1234);
    // Current voice volume, right channel of voice 1.
    spu.store16(0x103 * 2, 0x0777);
    assert_eq!(spu.voices[1].volume_right.level, 0x0777);
    assert_eq!(spu.load16(0x103 * 2), 0x0777);
}

#[test]
fn global_registers_set_bitfields() {
    let mut spu = Spu::new();
    spu.store16(0xc4 * 2, 0xffff);
    spu.store16(0xc5 * 2, 0x00ff);
    assert_eq!(spu.voice_start, 0x00ff_ffff);
    // Voice 0 cannot be frequency-modulated.
    spu.store16(0xc8 * 2, 0x0003);
    assert_eq!(spu.voice_frequency_modulated, 0x2);
    spu.store16(0xcf * 2, 0x00aa);
    assert_eq!(spu.load16(0xcf * 2), 0x00aa);
    spu.store16(0xd1 * 2, 0x0100);
    assert_eq!(spu.reverb_start, 0x400);
    assert_eq!(spu.reverb_index, 0x400);
    spu.store16(0xde * 2, 0x5555);
    assert_eq!(spu.load16(0xde * 2), 0);
    // Past the register file nothing happens.
    spu.store16(320 * 2, 0x1234);
    assert!(spu.regs.iter().all(|&r| r != 0x1234));
}

#[test]
fn transfers_fill_ram_and_raise_the_interrupt() {
    let mut spu = Spu::new();
    spu.store16(TRANSFER_START_OFF, 0x10);
    assert_eq!(spu.ram_index, 0x40);
    spu.store16(TRANSFER_FIFO_OFF, 0xbeef);
    assert_eq!(spu.ram[0x40], 0xbeef);
    assert_eq!(spu.ram_index, 0x41);
    assert!(!spu.irq);
    spu.store16(IRQ_ADDRESS_OFF, 0x10);
    assert_eq!(spu.irq_addr, 0x40);
    spu.store16(CONTROL_OFF, 0x0040);
    spu.store16(TRANSFER_START_OFF, 0x10);
    assert!(spu.irq);
    spu.update_status();
    assert_eq!(spu.regs[0xd7], 0x0040);
    spu.store16(CONTROL_OFF, 0x0000);
    assert!(!spu.irq);
}

#[test]
fn dma_words_go_through_the_transfer_position() {
    let mut spu = Spu::new();
    spu.store16(TRANSFER_START_OFF, 0x20);
    spu.dma_store(0x1234_5678);
    assert_eq!(spu.ram[0x80], 0x5678);
    assert_eq!(spu.ram[0x81], 0x1234);
    assert_eq!(spu.ram_index, 0x82);
    spu.store16(TRANSFER_START_OFF, 0x20);
    assert_eq!(spu.dma_load(), 0x1234_5678);
    assert_eq!(spu.ram_index, 0x82);
    spu.ram_index = 0x3_ffff;
    spu.dma_store(0xaaaa_bbbb);
    assert_eq!(spu.ram[0x3_ffff], 0xbbbb);
    assert_eq!(spu.ram[0], 0xaaaa);
    assert_eq!(spu.ram_index, 1);
}

#[test]
fn noise_generator_steps() {
    let mut spu = Spu::new();
    // Fastest rate: every cycle restarts the first counter and the second reaches 8.
    spu.store16(CONTROL_OFF, 0x3c00);
    spu.run_noise_cycle();
    assert_eq!((spu.noise_counter1, spu.noise_counter2, spu.noise_lfsr), (0, 0, 1));
    spu.run_noise_cycle();
    assert_eq!(spu.noise_lfsr, 3);
    // Slowest rate: the first counter moves by 2.
    let mut slow = Spu::new();
    slow.run_noise_cycle();
    assert_eq!((slow.noise_counter1, slow.noise_counter2, slow.noise_lfsr), (2, 0, 0));
}

#[test]
fn reverb_arithmetic() {
    assert_eq!(iir_mul(0, 0x4000), 32768);
    assert_eq!(iir_mul(-32768, 100), 200);
    assert_eq!(iir_mul(-32768, -32768), 0);
    assert_eq!(iir_mul(16384, -3), -3);
    assert_eq!(iir_mul(32767, -1), -1);
    assert_eq!(apply_enhanced_reverb_coeff(32767, 32767, true), 38883);
    assert_eq!(apply_enhanced_reverb_coeff(-32768, 32767, true), -38884);
    assert_eq!(apply_enhanced_reverb_coeff(1000, 16384, true), 1000);
    assert_eq!(apply_enhanced_reverb_coeff(1000, 16384, false), 500);
    assert_eq!(apply_enhanced_reverb_coeff(-1, 1, false), -1);
}

#[test]
fn reverb_samples_wrap_through_the_work_area() {
    let mut spu = Spu::new();
    spu.reverb_start = 0x1000;
    spu.reverb_index = 0x3_fff0;
    assert_eq!(spu.reverb_sample_index(0x10, 0), 0x1030);
    assert_eq!(spu.reverb_sample_index(0x2, 1), 0x3_fff7);
    spu.store_reverb_sample(0x10, -2);
    assert_eq!(spu.ram[0x1030], 0xfffe);
    assert_eq!(spu.load_reverb_sample(0x10), -2);
    spu.ram[0x3_fff7] = 7;
    assert_eq!(spu.load_reverb_sample_before(0x2), 7);
}

#[test]
fn reverb_step_runs_one_side_per_cycle() {
    let mut spu = Spu::new();
    spu.reverb_index = 0x100;
    // Reverb off: nothing runs, but the sides still alternate.
    assert_eq!(spu.reverb_step(1000), None);
    assert!(spu.reverb_run_right);
    assert_eq!(spu.reverb_step(1000), None);
    assert!(!spu.reverb_run_right);
    assert_eq!(spu.reverb_index, 0x101);
    spu.reverb_index = 0x100;
    spu.store16(CONTROL_OFF, 0x0080);
    spu.reverb_enable_override = true;
    spu.store16(0xfe * 2, 0x4000); // input volume, left
    spu.store16(0xe2 * 2, 0x4000); // reflection IIR volume
    spu.store16(0xe3 * 2, 0x4000); // first comb volume
    assert_eq!(spu.reverb_step(1000), Some(62));
    assert_eq!(spu.ram[0x100], 0);
    assert!(spu.reverb_run_right);
    assert_eq!(spu.reverb_index, 0x100);
    assert_eq!(spu.reverb_step(0), Some(0));
    assert_eq!(spu.reverb_index, 0x101);
}

#[test]
fn output_compression_and_volume_levels() {
    assert_eq!(apply_soft_compression(1000), 1000);
    assert_eq!(apply_soft_compression(24576), 24576);
    assert_eq!(apply_soft_compression(32767), 28671);
    assert_eq!(apply_soft_compression(-32768), -28672);
    let mut v = Volume::new();
    v.set_config(0x2000);
    assert_eq!(v.level, 0);
    v.run_sweep_cycle();
    assert_eq!(v.level, 0x4000);
    assert_eq!(v.apply_level(1000), 500);
    assert_eq!(v.apply_level(-1), -1);
}

#[test]
fn output_buffer_is_drained_and_reconfigured() {
    let mut spu = Spu::new();
    assert!(spu.audio_ring_buffer.push_stereo(1, 2));
    assert!(spu.audio_ring_buffer.push_stereo(3, 4));
    assert_eq!(spu.get_samples(), vec![1, 2, 3, 4]);
    assert!(spu.get_samples().is_empty());
    spu.clear_samples();
    assert_eq!(spu.audio_ring_buffer.total_written, 0);
    let config = AudioBufferConfig {
        buffer_size: 100,
        target_latency: 10,
        recovery_mode: AudioRecoveryMode::DropOldest,
        enable_debug: false,
    };
    spu.configure_audio_buffer(config);
    assert_eq!(spu.audio_ring_buffer.size, 128);
    assert_eq!(spu.audio_ring_buffer.target_latency, 10);
    assert_eq!(spu.audio_buffer_config, config);
}

#[test]
fn mixing_cycle_sums_voices_cd_and_reverb() {
    let mut spu = Spu::new();
    spu.store16(CONTROL_OFF, 0xc001);
    spu.store16(0xc0 * 2, 0x3fff); // main volume left, fixed
    spu.store16(0xd8 * 2, 0x4000); // CD volume left
    spu.store16(0xcc * 2, 0x0002); // voice 1 feeds the reverb
    let mut voices = vec![(0i32, 0i32); 24];
    voices[0] = (1000, -1000);
    voices[1] = (2000, 0);
    // The main volume takes its level at the end of the first cycle.
    assert_eq!(spu.mix_cycle(&voices, (4000, 0), (0, 0)), ((0, 0), (2000, 0)));
    assert_eq!(spu.ram[0], 4000);
    assert_eq!(spu.capture_index, 1);
    assert_eq!(spu.main_volume_left.level, 0x7ffe);
    assert_eq!(spu.mix_cycle(&voices, (4000, 0), (0, 0)), ((4999, 0), (2000, 0)));
    assert_eq!(spu.ram[1], 4000);
    assert_eq!(spu.get_samples(), vec![0, 0, 4999, 0]);
    // Muted: only the CD remains, and nothing goes to the reverb.
    spu.store16(CONTROL_OFF, 0x8001);
    assert_eq!(spu.mix_cycle(&voices, (4000, 0), (0, 0)), ((1999, 0), (0, 0)));
    assert_eq!(spu.voice_start, 0);
}

#[test]
fn audio_settings_and_debug_snapshot() {
    let mut spu = Spu::new();
    spu.set_audio_recovery_mode(AudioRecoveryMode::DropNewest);
    assert_eq!(spu.audio_ring_buffer.recovery_mode, AudioRecoveryMode::DropNewest);
    assert_eq!(spu.audio_buffer_config.recovery_mode, AudioRecoveryMode::DropNewest);
    spu.set_target_latency(100_000);
    assert_eq!(spu.audio_ring_buffer.target_latency, 4096);
    assert_eq!(spu.audio_buffer_config.target_latency, 100_000);
    spu.voices[3].adsr.level = 0x100;
    spu.voices[3].volume_left.level = 7;
    spu.voices[5].start_delay = 2;
    spu.cd_volume_left = 9;
    let snap = spu.debug_snapshot();
    assert_eq!(snap.active_voices, 2);
    assert!(snap.voice_activity[3] && snap.voice_activity[5] && !snap.voice_activity[0]);
    assert_eq!(snap.voice_levels[3], (7, 0));
    assert_eq!(snap.voice_levels[0], (0, 0));
    assert!(snap.reverb_active);
    assert_eq!(snap.cd_audio, (9, 0));
    assert!(spu.voices[3].is_running());
}
