use rustation_ng::cd_stub::{Msf, Toc, Track, TrackType};
use rustation_ng::psx_complete::timers::Timer;
use rustation_ng::psx_complete::Psx;
use rustation_ng::templates::critical_fixes::{
    calculate_burst_timing, calculate_transfer_cycles, get_pixel_clock_rate, handle_cdc_opcode,
    handle_getlocl_command, handle_pregap, handle_rx_enable_edge_cases, handle_spu_byte_store, handle_timer_read,
    handle_timer_write, handle_tx_without_selection, handle_unimplemented_gracefully, handle_volume_sweep,
    is_linked_list_end, read_transfer_fifo, safe_memory_read, AccessType, CdController, ClockSource, DmaChannel,
    Microcontroller, PadMemcardState, RecoverableError, SpuRegisters, SubQPosition, SweepConfig, SweepDirection,
    SweepMode, VideoMode, VolumeConfig,
};

fn sweep(step: i16, direction: SweepDirection, target: Option<i16>) -> VolumeConfig {
    VolumeConfig::Sweep(SweepConfig { step, direction, mode: SweepMode::Linear, target })
}

#[test]
fn volume_sweep_fixed_and_linear() {
    assert_eq!(handle_volume_sweep(&VolumeConfig::Fixed(0x1234), 0, 100), 0x1234);
    // 128 * 4 / 64 = 8
    assert_eq!(handle_volume_sweep(&sweep(128, SweepDirection::Increase, None), 1000, 4), 1008);
    assert_eq!(handle_volume_sweep(&sweep(128, SweepDirection::Decrease, None), 1000, 4), 992);
    // held at the target
    assert_eq!(handle_volume_sweep(&sweep(640, SweepDirection::Increase, Some(1005)), 1000, 1), 1005);
    assert_eq!(handle_volume_sweep(&sweep(640, SweepDirection::Decrease, None), 5, 1), 0);
    // saturating at the top
    assert_eq!(handle_volume_sweep(&sweep(6400, SweepDirection::Increase, None), 0x7ff0, 1), 0x7fff);
}

#[test]
fn volume_sweep_negative_step_rounds_toward_zero() {
    // -10 * 10 = -100; -100 / 64 is -1 in integer division
    assert_eq!(handle_volume_sweep(&sweep(-10, SweepDirection::Increase, None), 1000, 10), 999);
    assert_eq!(handle_volume_sweep(&sweep(-10, SweepDirection::Decrease, None), 1000, 10), 1001);
}

#[test]
fn timer_register_access() {
    let mut t = Timer::new();
    t.set_counter(0x10);
    t.set_target(0x20);
    assert_eq!(handle_timer_read(&t, 0x0), 0x10);
    assert_eq!(handle_timer_read(&t, 0x8), 0x20);
    assert_eq!(handle_timer_read(&t, 0xc), 0);
    assert_eq!(handle_timer_read(&t, 0x10), 0xffff);
    let mut psx = Psx::new().unwrap();
    handle_timer_write(&mut psx, 1, 0x8, 0x1234);
    assert_eq!(psx.timers.timer(1).target(), 0x1234);
    handle_timer_write(&mut psx, 1, 0x0, 0x55);
    assert_eq!(psx.timers.timer(1).counter(), 0x55);
    handle_timer_write(&mut psx, 1, 0xc, 0x99);
    assert_eq!(psx.timers.timer(1).counter(), 0x55);
}

#[test]
fn pixel_clock_rates() {
    assert_eq!(get_pixel_clock_rate(VideoMode::Ntsc, ClockSource::Pixel), 53_693_175);
    assert_eq!(get_pixel_clock_rate(VideoMode::Pal, ClockSource::PixelDiv8), 53_203_425 / 8);
    assert_eq!(get_pixel_clock_rate(VideoMode::Pal, ClockSource::System), 53_203_425);
}

#[test]
fn pad_transfer_edge_cases() {
    let mut s = PadMemcardState { rx_enabled: false, tx_buffer: vec![], rx_buffer: vec![] };
    assert_eq!(handle_tx_without_selection(&mut s, 0x01), 0xff);
    handle_rx_enable_edge_cases(&mut s, true);
    assert_eq!(s.rx_buffer, vec![0xff]);
    assert!(s.rx_enabled);
    handle_rx_enable_edge_cases(&mut s, false);
    assert!(s.rx_buffer.is_empty());
    assert!(!s.rx_enabled);
    // 33868800 / (0x88 * 2) = 124517 bits per second; 2 bytes are 22 bits
    assert_eq!(calculate_transfer_cycles(0x88, 2), (33_868_800u32 * 22) / 124_517);
}

#[test]
fn dma_linked_list_and_bursts() {
    assert!(is_linked_list_end(0x1000, 0x00ff_ffff));
    assert!(is_linked_list_end(0x1000, 0));
    assert!(is_linked_list_end(0x1000, 0x0100_1000));
    assert!(!is_linked_list_end(0x1000, 0x0000_2000));
    assert_eq!(calculate_burst_timing(32, DmaChannel::GPU), 2 * (16 + 10));
    assert_eq!(calculate_burst_timing(17, DmaChannel::SPU), 2 * (64 + 10));
    assert_eq!(calculate_burst_timing(1, DmaChannel::CDROM), 640 + 10);
    assert_eq!(calculate_burst_timing(0, DmaChannel::OTC), 0);
}

#[test]
fn unimplemented_feature_error() {
    match handle_unimplemented_gracefully("GPU", "mask bit") {
        Err(RecoverableError::UnimplementedFeature { component, feature, details }) => {
            assert_eq!(component, "GPU");
            assert_eq!(feature, "mask bit");
            assert_eq!(details, "Feature not yet implemented, using fallback");
        }
        _ => panic!("expected an unimplemented-feature error"),
    }
}

fn spu() -> SpuRegisters {
    SpuRegisters { regs: vec![0; 320], ram: vec![0; 0x40000], ram_index: 0, irq_enabled: false, irq_address: 0, irq: false }
}

#[test]
fn spu_byte_stores_merge_halves() {
    let mut s = spu();
    s.regs[0x10] = 0x1234;
    handle_spu_byte_store(&mut s, 0x20, 0xab, 0);
    assert_eq!(s.regs[0x10], 0x12ab);
    handle_spu_byte_store(&mut s, 0x21, 0xcd, 0);
    assert_eq!(s.regs[0x10], 0xcdab);
}

#[test]
fn transfer_fifo_reads_advance_and_wrap() {
    let mut s = spu();
    s.ram[0x3ffff] = 0xbeef;
    s.ram[0] = 0x1111;
    s.ram_index = 0x3ffff;
    s.irq_enabled = true;
    s.irq_address = 0;
    assert_eq!(read_transfer_fifo(&mut s), 0xbeef);
    assert_eq!(s.ram_index, 0);
    assert!(!s.irq);
    assert_eq!(read_transfer_fifo(&mut s), 0x1111);
    assert!(s.irq);
}

#[test]
fn safe_read_reports_out_of_bounds() {
    let mut psx = Psx::new().unwrap();
    assert!(psx.store32(0x100, 0xdeadbeef).is_ok());
    assert_eq!(safe_memory_read(&mut psx, 0x100), Ok(0xdeadbeef));
    match safe_memory_read(&mut psx, 0x001f_fffe) {
        Err(RecoverableError::MemoryAccessViolation { address, access_type, context }) => {
            assert_eq!(address, 0x001f_fffe);
            assert!(matches!(access_type, AccessType::Read));
            assert_eq!(context, "Memory read");
        }
        other => panic!("unexpected {:?}", other),
    }
}

fn uc_with(program: &[u8]) -> Microcontroller {
    let mut rom = vec![0u8; 0x10000];
    rom[..program.len()].copy_from_slice(program);
    Microcontroller::new(rom)
}

#[test]
fn cdc_bit_branches() {
    // BRSET bit 3 of [0x40], offset +0x10
    let mut uc = uc_with(&[3, 0x10, 0x40]);
    uc.ram[0x40] = 0x08;
    handle_cdc_opcode(&mut uc, 0x1a);
    assert_eq!(uc.pc, 3 + 0x10);
    // BRCLR on the same set bit falls through
    let mut uc = uc_with(&[3, 0x10, 0x40]);
    uc.ram[0x40] = 0x08;
    handle_cdc_opcode(&mut uc, 0x1b);
    assert_eq!(uc.pc, 3);
    // BRCLR on a clear bit branches backwards
    let mut uc = uc_with(&[2, 0xfd, 0x40]);
    handle_cdc_opcode(&mut uc, 0x1b);
    assert_eq!(uc.pc, 0);
}

#[test]
fn cdc_mul_and_unknown_opcodes() {
    let mut uc = uc_with(&[]);
    uc.acc = 0x80;
    uc.x = 0x03;
    uc.carry = true;
    handle_cdc_opcode(&mut uc, 0x2f);
    assert_eq!((uc.x, uc.acc), (0x01, 0x80));
    assert!(!uc.carry && !uc.zero && uc.negative);
    let mut uc = uc_with(&[]);
    uc.acc = 0;
    uc.x = 9;
    handle_cdc_opcode(&mut uc, 0x2f);
    assert!(uc.zero && !uc.negative);
    let pc = uc.pc;
    handle_cdc_opcode(&mut uc, 0x9d);
    assert_eq!(uc.pc, pc);
}

fn cd() -> CdController {
    let toc = Toc {
        tracks: vec![
            Track { number: 1, start: Msf::new(0, 2, 0), track_type: TrackType::Data },
            Track { number: 2, start: Msf::new(10, 0, 0), track_type: TrackType::Audio },
        ],
    };
    CdController {
        current_position: SubQPosition {
            track: 0x02,
            index: 0x01,
            relative_min: 0x00,
            relative_sec: 0x05,
            relative_frame: 0x10,
            absolute_min: 0x10,
            absolute_sec: 0x07,
            absolute_frame: 0x10,
        },
        pregap_counter: 0,
        audio_buffer: vec![5; 8],
        toc,
    }
}

#[test]
fn getlocl_reports_position() {
    let mut c = cd();
    assert_eq!(handle_getlocl_command(&mut c), [0x02, 0x01, 0x00, 0x05, 0x10, 0x10, 0x07, 0x10]);
}

#[test]
fn pregap_lasts_150_frames_on_audio_tracks() {
    let mut c = cd();
    assert!(!handle_pregap(&mut c, 1));
    assert_eq!(c.audio_buffer, vec![5; 8]);
    for i in 0..150 {
        assert!(handle_pregap(&mut c, 2));
        assert_eq!(c.pregap_counter, i + 1);
    }
    assert_eq!(c.audio_buffer, vec![0; 8]);
    assert!(!handle_pregap(&mut c, 2));
    assert_eq!(c.pregap_counter, 0);
}

#[test]
fn test_volume_sweep_clipping() {
    let config = VolumeConfig::Sweep(SweepConfig {
        step: 10000,
        direction: SweepDirection::Increase,
        mode: SweepMode::Linear,
        target: Some(0x7fff),
    });
    let result = handle_volume_sweep(&config, 0x7000, 100);
    assert_eq!(result, 0x7fff, "Volume should be clamped to target");
}

#[test]
fn test_linear_volume_sweep_increase() {
    let config = VolumeConfig::Sweep(SweepConfig {
        step: 100,
        direction: SweepDirection::Increase,
        mode: SweepMode::Linear,
        target: Some(0x7fff),
    });
    let initial: i16 = 0x1000;
    let cycles = 64;
    let result = handle_volume_sweep(&config, initial, cycles);
    assert!(result > initial, "Volume should increase");
    assert!(result <= 0x7fff, "Volume should not exceed target");
    assert_eq!(result, 0x1000 + 100);
}

#[test]
fn volume_sweep_large_decrease_stops_at_floor() {
    let config = sweep(-30000, SweepDirection::Increase, None);
    assert_eq!(handle_volume_sweep(&config, 0, 1000), -32768);
    let config = sweep(20000, SweepDirection::Decrease, Some(-100));
    assert_eq!(handle_volume_sweep(&config, 500, 1_000_000), -100);
}

#[test]
fn unimplemented_feature_message() {
    let e = handle_unimplemented_gracefully("SPU", "reverb").unwrap_err();
    assert_eq!(e.message(), "Unimplemented SPU: reverb (Feature not yet implemented, using fallback)");
}

#[test]
fn recoverable_error_messages() {
    let e = RecoverableError::MemoryAccessViolation { address: 0x1f80_1234, access_type: AccessType::Write, context: "DMA" };
    assert_eq!(e.message(), "Memory access violation at 0x1f801234 (Write) in DMA");
    let e = RecoverableError::InvalidRegister { component: "GPU", register: 0x1a, value: 0xff };
    assert_eq!(e.message(), "Invalid GPU register 0x1a write: 0x000000ff");
    let e = RecoverableError::InvalidRegister { component: "SPU", register: 0, value: 0xdead_beef };
    assert_eq!(e.message(), "Invalid SPU register 0x0 write: 0xdeadbeef");
    let e = RecoverableError::HardwareLimitation { component: "MDEC", limitation: String::from("no 24-bit output") };
    assert_eq!(e.message(), "Hardware limitation in MDEC: no 24-bit output");
    let e = RecoverableError::InvalidState {
        component: "CDROM",
        expected: String::from("Idle"),
        actual: String::from("Reading"),
    };
    assert_eq!(e.message(), "Invalid state in CDROM: expected Idle, got Reading");
}
