//! Fixes for edge cases in several components: volume sweeps, timer register access,
//! pad transfers, DMA linked lists and burst timing, and non-fatal errors for missing
//! features.

use vstd::prelude::*;
use vstd::string::StringExecFns;
use crate::psx_complete::timers::Timer;
use crate::psx_complete::Psx;
use crate::psx_complete::word_access_in_bounds;
use crate::psx_complete::{store32_post, word_in_bounds};
use crate::cd_stub::{Toc, TrackType};
use crate::text::{append_hex_digits, append_hex_short, hex_digits, hex_len};

verus! {

/// Kind of memory access.
#[derive(Debug, Clone, Copy, PartialEq, Eq, Structural)]
pub enum AccessType {
    Read,
    Write,
    Execute,
}

/// Direction of a volume sweep.
#[derive(Debug, Clone, Copy, PartialEq, Eq, Structural)]
pub enum SweepDirection {
    Increase,
    Decrease,
}

/// Shape of a volume sweep.
#[derive(Debug, Clone, Copy, PartialEq, Eq, Structural)]
pub enum SweepMode {
    Linear,
    Exponential,
}

/// Parameters of a volume sweep.
#[derive(Debug, Clone, Copy, PartialEq, Eq, Structural)]
pub struct SweepConfig {
    pub step: i16,
    pub direction: SweepDirection,
    pub mode: SweepMode,
    /// Where the sweep stops; 0x7fff up or 0 down when unset.
    pub target: Option<i16>,
}

/// A volume: fixed, or sweeping.
#[derive(Debug, Clone, Copy, PartialEq, Eq, Structural)]
pub enum VolumeConfig {
    Fixed(i16),
    Sweep(SweepConfig),
}

/// Steps of a linear sweep are divided by this.
pub const SWEEP_DIVIDER: i16 = 64;

/// `v` clamped to the range of `i16`.
pub open spec fn sat16(v: int) -> i16 {
    if v < -32768 { -32768i16 } else if v > 32767 { 32767i16 } else { v as i16 }
}

/// `current` moved by `delta` in `direction` (saturating) and held at the target.
pub open spec fn swept(current: i16, delta: i16, direction: SweepDirection, target: Option<i16>) -> i16 {
    match direction {
        SweepDirection::Increase => {
            let r = sat16(current + delta);
            let t = match target { Some(t) => t, None => 0x7fffi16 };
            if r < t { r } else { t }
        },
        SweepDirection::Decrease => {
            let r = sat16(current - delta);
            let t = match target { Some(t) => t, None => 0i16 };
            if r > t { r } else { t }
        },
    }
}

/// Move `current` by `delta` in the sweep's direction and hold it at the target.
pub fn apply_sweep(current: i16, delta: i16, direction: SweepDirection, target: Option<i16>) -> (r: i16)
    ensures
        r == swept(current, delta, direction, target),
{
    match direction {
        SweepDirection::Increase => {
            let v: i32 = current as i32 + delta as i32;
            let r: i16 = if v < -32768 { -32768 } else if v > 32767 { 32767 } else { v as i16 };
            let t = match target { Some(t) => t, None => 0x7fff };
            if r < t { r } else { t }
        },
        SweepDirection::Decrease => {
            let v: i32 = current as i32 - delta as i32;
            let r: i16 = if v < -32768 { -32768 } else if v > 32767 { 32767 } else { v as i16 };
            let t = match target { Some(t) => t, None => 0 };
            if r > t { r } else { t }
        },
    }
}

/// `p / 64` rounded toward zero, as integer division does.
pub open spec fn div64_toward_zero(p: int) -> int {
    if p >= 0 { p / 64 } else { -((-p) / 64) }
}

/// The volume after `cycles` of a fixed or linear sweep. A linear sweep moves by
/// step x cycles / 64 (the quotient rounded toward zero and held to the range of
/// `i16`), so a large step runs into the target rather than wrapping; exponential
/// sweeps are computed with floating point by the host.
pub fn handle_volume_sweep(config: &VolumeConfig, current: i16, cycles: u32) -> (r: i16)
    requires
        config matches VolumeConfig::Sweep(s) ==> s.mode == SweepMode::Linear,
    ensures
        match *config {
            VolumeConfig::Fixed(level) => r == level,
            VolumeConfig::Sweep(s) => r == swept(current, sat16(div64_toward_zero(s.step * cycles)), s.direction, s.target),
        },
{
    match config {
        VolumeConfig::Fixed(level) => *level,
        VolumeConfig::Sweep(sweep) => {
            let step: i64 = sweep.step as i64;
            let n: i64 = cycles as i64;
            assert(-32768 * 0x1_0000_0000 <= step * n <= 32767 * 0x1_0000_0000) by (nonlinear_arith)
                requires -32768 <= step <= 32767, 0 <= n < 0x1_0000_0000;
            let p: i64 = step * n;
            let q: i64 = if p >= 0 { p / (SWEEP_DIVIDER as i64) } else { -((-p) / 64) };
            let delta: i16 = if q < -32768 { -32768 } else if q > 32767 { 32767 } else { q as i16 };
            apply_sweep(current, delta, sweep.direction, sweep.target)
        },
    }
}

/// A timer register read: counter, mode, target; 0 at the unused offset 0xc and all
/// ones elsewhere.
pub fn handle_timer_read(timer: &Timer, offset: u32) -> (r: u16)
    ensures
        r == (if offset == 0x0 {
            timer.counter
        } else if offset == 0x4 {
            timer.mode
        } else if offset == 0x8 {
            timer.target
        } else if offset == 0xc {
            0
        } else {
            0xffff
        }),
{
    if offset == 0x0 {
        timer.counter()
    } else if offset == 0x4 {
        timer.mode()
    } else if offset == 0x8 {
        timer.target()
    } else if offset == 0xc {
        0
    } else {
        0xffff
    }
}

/// A timer register write: counter, mode (which also resets the count) or target of
/// timer `which`; other offsets are ignored.
pub fn handle_timer_write(psx: &mut Psx, which: usize, offset: u32, val: u16)
    requires
        which < 3,
    ensures
        offset == 0x0 ==> final(psx).timers.timers@ == old(psx).timers.timers@.update(which as int, Timer { counter: val, ..old(psx).timers.timers@[which as int] }),
        offset == 0x4 ==> final(psx).timers.timers@ == old(psx).timers.timers@.update(which as int, Timer { mode: val, counter: 0, ..old(psx).timers.timers@[which as int] }),
        offset == 0x8 ==> final(psx).timers.timers@ == old(psx).timers.timers@.update(which as int, Timer { target: val, ..old(psx).timers.timers@[which as int] }),
        offset != 0x0 && offset != 0x4 && offset != 0x8 ==> final(psx).timers == old(psx).timers,
        *final(psx) == (Psx { timers: final(psx).timers, ..*old(psx) }),
{
    if offset == 0x0 {
        psx.timers.timer_mut(which).set_counter(val);
    } else if offset == 0x4 {
        psx.timers.timer_mut(which).set_mode(val);
    } else if offset == 0x8 {
        psx.timers.timer_mut(which).set_target(val);
    }
}

/// Video standard of the pixel clock.
#[derive(Debug, Clone, Copy, PartialEq, Eq, Structural)]
pub enum VideoMode {
    Ntsc,
    Pal,
}

/// Timer clock sources.
#[derive(Debug, Clone, Copy, PartialEq, Eq, Structural)]
pub enum ClockSource {
    Pixel,
    PixelDiv8,
    System,
    SystemDiv8,
}

/// The pixel clock rate a timer sees: the video mode's dot clock, divided by 8 for the
/// divided source.
pub fn get_pixel_clock_rate(video_mode: VideoMode, clock_source: ClockSource) -> (r: u32)
    ensures
        r == (if clock_source == ClockSource::PixelDiv8 {
            (if video_mode == VideoMode::Ntsc { 53_693_175u32 } else { 53_203_425u32 }) / 8
        } else {
            if video_mode == VideoMode::Ntsc { 53_693_175u32 } else { 53_203_425u32 }
        }),
{
    let base_clock: u32 = match video_mode {
        VideoMode::Ntsc => 53_693_175,
        VideoMode::Pal => 53_203_425,
    };
    match clock_source {
        ClockSource::PixelDiv8 => base_clock / 8,
        _ => base_clock,
    }
}

/// The pad and memory card port's transfer state.
pub struct PadMemcardState {
    pub rx_enabled: bool,
    pub tx_buffer: Vec<u8>,
    pub rx_buffer: Vec<u8>,
}

/// A byte sent with no device selected: nothing answers, so the port reads 0xFF.
pub fn handle_tx_without_selection(state: &mut PadMemcardState, val: u8) -> (r: u8)
    ensures
        r == 0xff,
        final(state).rx_enabled == old(state).rx_enabled,
        final(state).tx_buffer@ == old(state).tx_buffer@,
        final(state).rx_buffer@ == old(state).rx_buffer@,
{
    0xff
}

/// Switch reception on or off: switching on with nothing sent queues a "no device"
/// 0xFF; switching off drops unread bytes.
pub fn handle_rx_enable_edge_cases(state: &mut PadMemcardState, enable: bool)
    ensures
        final(state).rx_enabled == enable,
        final(state).tx_buffer@ == old(state).tx_buffer@,
        final(state).rx_buffer@ == (if enable && !old(state).rx_enabled && old(state).tx_buffer@.len() == 0 {
            old(state).rx_buffer@.push(0xff)
        } else if !enable && old(state).rx_enabled {
            Seq::<u8>::empty()
        } else {
            old(state).rx_buffer@
        }),
{
    if enable && !state.rx_enabled {
        if state.tx_buffer.len() == 0 {
            state.rx_buffer.push(0xff);
        }
    } else if !enable && state.rx_enabled {
        if state.rx_buffer.len() != 0 {
            state.rx_buffer.clear();
        }
    }
    state.rx_enabled = enable;
}

/// CPU cycles to move `bytes` bytes at the baud divisor `baud_rate`: 11 bits per byte
/// (data, start, stop, acknowledge) at the bit rate the divisor gives.
pub fn calculate_transfer_cycles(baud_rate: u16, bytes: usize) -> (r: u32)
    requires
        baud_rate > 0,
        33_868_800 * (bytes * 11) <= u32::MAX,
    ensures
        r == (33_868_800int * (bytes * 11)) / (33_868_800int / (baud_rate as int * 2)),
{
    let base_clock: u32 = 33_868_800;
    let actual_baud: u32 = base_clock / (baud_rate as u32 * 2);
    let total_bits = bytes * 11;
    proof {
        let d: int = baud_rate as int * 2;
        assert(33_868_800int / d >= 258) by (nonlinear_arith)
            requires 2 <= d <= 131070;
    }
    (base_clock * total_bits as u32) / actual_baud
}

/// The address of entry `i` of an ordering table whose first entry is at `base`: each
/// entry one word below the one before, wrapping at the bottom of the address space.
pub open spec fn otc_addr(base: u32, i: nat) -> u32
    decreases i,
{
    if i == 0 {
        base
    } else {
        let a = otc_addr(base, (i - 1) as nat);
        if a >= 4 { (a - 4) as u32 } else { (a + 0x1_0000_0000 - 4) as u32 }
    }
}

/// What entry `i` of a `count`-entry ordering table holds: the address of the next
/// entry down, or the end marker 0x00ffffff for the last one.
pub open spec fn otc_link(base: u32, i: nat, count: nat) -> u32 {
    if i + 1 == count { 0x00ff_ffff } else { otc_addr(base, i + 1) }
}

/// The number of entries an ordering-table transfer writes: the block size in the low
/// half of the block control register.
pub open spec fn otc_count(c: crate::psx_complete::dma::DmaChannel) -> nat {
    (c.block_control & 0xffff) as nat
}

/// `new` is `old` after writing entry `i`: the word store, then the four-cycle DMA
/// penalty.
pub open spec fn otc_entry_post(old: Psx, new: Psx, base: u32, i: nat, count: nat) -> bool {
    exists|s: Psx|
        #[trigger] store32_post(old, s, otc_addr(base, i), otc_link(base, i, count))
            && new == (Psx { cycle_counter: s.cycle_counter.wrapping_add(4), ..s })
}

/// `new` is `old` after writing the first `k` entries of the table, in order.
pub open spec fn otc_written(old: Psx, new: Psx, base: u32, k: int, count: nat) -> bool
    decreases k,
{
    if k <= 0 {
        new == old
    } else {
        exists|mid: Psx| otc_written(old, mid, base, k - 1, count) && #[trigger] otc_entry_post(mid, new, base, (k - 1) as nat, count)
    }
}

proof fn lemma_otc_step(old: Psx, mid: Psx, new: Psx, base: u32, k: nat, count: nat)
    requires
        otc_written(old, mid, base, k as int, count),
        otc_entry_post(mid, new, base, k, count),
    ensures
        otc_written(old, new, base, (k + 1) as int, count),
{
    assert(((k + 1) - 1) as nat == k);
}

/// An ordering-table (OTC) DMA: builds the GPU's ordering table from the channel's base
/// address downward, each entry linking to the next one down and the last holding the
/// end marker, with a four-cycle penalty per entry; then the channel is done (its busy
/// bit cleared).
pub fn handle_otc_dma(psx: &mut Psx, channel: &mut crate::psx_complete::dma::DmaChannel)
    requires
        old(psx).wf(),
        forall|i: nat| i < otc_count(*old(channel)) ==> word_in_bounds(#[trigger] otc_addr(old(channel).base, i)),
    ensures
        final(psx).wf(),
        otc_written(*old(psx), *final(psx), old(channel).base, otc_count(*old(channel)) as int, otc_count(*old(channel))),
        *final(channel) == (crate::psx_complete::dma::DmaChannel { control: old(channel).control & !0x0100_0000u32, ..*old(channel) }),
{
    let ghost start = *psx;
    let base = channel.base;
    let count: u32 = channel.block_control & 0xffff;
    let mut addr: u32 = base;
    let mut i: u32 = 0;
    assert(otc_written(start, *psx, base, 0, count as nat));
    while i < count
        invariant
            psx.wf(),
            i <= count,
            count as nat == otc_count(*old(channel)),
            base == old(channel).base,
            addr == otc_addr(base, i as nat),
            forall|j: nat| j < count ==> word_in_bounds(#[trigger] otc_addr(base, j)),
            otc_written(start, *psx, base, i as int, count as nat),
        decreases count - i,
    {
        let link: u32 = if i == count - 1 { 0x00ff_ffff } else { addr.wrapping_sub(4) };
        let ghost before = *psx;
        assert(word_in_bounds(otc_addr(base, i as nat)));
        assert(otc_addr(base, (i + 1) as nat) == addr.wrapping_sub(4));
        let _stored = psx.store32(addr, link);
        let ghost stored = *psx;
        psx.tick(4);
        addr = addr.wrapping_sub(4);
        i = i + 1;
        proof {
            assert(store32_post(before, stored, otc_addr(base, (i - 1) as nat), otc_link(base, (i - 1) as nat, count as nat)));
            assert(otc_entry_post(before, *psx, base, (i - 1) as nat, count as nat));
            assert(otc_written(start, before, base, i - 1, count as nat));
            lemma_otc_step(start, before, *psx, base, (i - 1) as nat, count as nat);
        }
    }
    channel.control = channel.control & !0x0100_0000u32;
}

/// Whether a linked-list DMA stops at a node at `addr` holding `value`: the end marker,
/// a zero word, or a link back to the node itself.
pub fn is_linked_list_end(addr: u32, value: u32) -> (r: bool)
    ensures
        r == (value & 0x00ff_ffff == 0x00ff_ffff || value == 0 || value & 0x00ff_ffff == addr & 0x00ff_ffff),
{
    if value & 0x00ff_ffff == 0x00ff_ffff {
        return true;
    }
    if value == 0 {
        return true;
    }
    if (value & 0x00ff_ffff) == (addr & 0x00ff_ffff) {
        return true;
    }
    false
}

/// DMA channels.
#[derive(Debug, Clone, Copy, PartialEq, Eq, Structural)]
pub enum DmaChannel {
    GPU,
    SPU,
    CDROM,
    MdecIn,
    MdecOut,
    PIO,
    OTC,
}

/// The cycles each word of a channel costs in a burst.
pub open spec fn burst_penalty(c: DmaChannel) -> u32 {
    match c {
        DmaChannel::SPU => 4,
        DmaChannel::CDROM => 40,
        _ => 1,
    }
}

/// The cycles a burst-mode transfer of `words` words takes: bursts of 16 words, each
/// costing the channel's per-word penalty plus 10 cycles of setup.
pub fn calculate_burst_timing(words: u32, channel: DmaChannel) -> (r: u32)
    requires
        words + 15 <= u32::MAX,
        ((words + 15) / 16) * (16 * burst_penalty(channel) + 10) <= u32::MAX,
    ensures
        r == ((words + 15) / 16) * (16 * burst_penalty(channel) + 10),
{
    let base_penalty: u32 = match channel {
        DmaChannel::GPU => 1,
        DmaChannel::SPU => 4,
        DmaChannel::CDROM => 40,
        DmaChannel::MdecIn => 1,
        DmaChannel::MdecOut => 1,
        DmaChannel::PIO => 1,
        DmaChannel::OTC => 1,
    };
    let burst_size: u32 = 16;
    let bursts = (words + 15) / burst_size;
    let overhead: u32 = 10;
    bursts * (burst_size * base_penalty + overhead)
}

/// Non-fatal emulator errors.
#[derive(Debug, Clone, PartialEq, Eq)]
pub enum RecoverableError {
    MemoryAccessViolation { address: u32, access_type: AccessType, context: &'static str },
    InvalidRegister { component: &'static str, register: u32, value: u32 },
    UnimplementedFeature { component: &'static str, feature: &'static str, details: String },
    HardwareLimitation { component: &'static str, limitation: String },
    InvalidState { component: &'static str, expected: String, actual: String },
}

/// The name of an access type.
pub open spec fn access_type_name(t: AccessType) -> Seq<char> {
    match t {
        AccessType::Read => "Read"@,
        AccessType::Write => "Write"@,
        AccessType::Execute => "Execute"@,
    }
}

/// The message of a recoverable error.
pub open spec fn recoverable_error_text(e: RecoverableError) -> Seq<char> {
    match e {
        RecoverableError::MemoryAccessViolation { address, access_type, context } =>
            "Memory access violation at 0x"@ + hex_digits(address, 8) + " ("@ + access_type_name(access_type) + ") in "@ + context@,
        RecoverableError::InvalidRegister { component, register, value } =>
            "Invalid "@ + component@ + " register 0x"@ + hex_digits(register, hex_len(register)) + " write: 0x"@ + hex_digits(value, 8),
        RecoverableError::UnimplementedFeature { component, feature, details } =>
            "Unimplemented "@ + component@ + ": "@ + feature@ + " ("@ + details@ + ")"@,
        RecoverableError::HardwareLimitation { component, limitation } =>
            "Hardware limitation in "@ + component@ + ": "@ + limitation@,
        RecoverableError::InvalidState { component, expected, actual } =>
            "Invalid state in "@ + component@ + ": expected "@ + expected@ + ", got "@ + actual@,
    }
}

impl RecoverableError {
    /// The error's message.
    pub fn message(&self) -> (r: String)
        ensures
            r@ == recoverable_error_text(*self),
    {
        let mut s = String::new();
        match self {
            RecoverableError::MemoryAccessViolation { address, access_type, context } => {
                s.append("Memory access violation at 0x");
                append_hex_digits(&mut s, *address, 8);
                s.append(" (");
                match access_type {
                    AccessType::Read => s.append("Read"),
                    AccessType::Write => s.append("Write"),
                    AccessType::Execute => s.append("Execute"),
                }
                s.append(") in ");
                s.append(context);
                proof {
                    reveal_strlit("Memory access violation at 0x");
                    reveal_strlit(" (");
                    reveal_strlit("Read");
                    reveal_strlit("Write");
                    reveal_strlit("Execute");
                    reveal_strlit(") in ");
                }
            },
            RecoverableError::InvalidRegister { component, register, value } => {
                s.append("Invalid ");
                s.append(component);
                s.append(" register 0x");
                append_hex_short(&mut s, *register);
                s.append(" write: 0x");
                append_hex_digits(&mut s, *value, 8);
                proof {
                    reveal_strlit("Invalid ");
                    reveal_strlit(" register 0x");
                    reveal_strlit(" write: 0x");
                }
            },
            RecoverableError::UnimplementedFeature { component, feature, details } => {
                s.append("Unimplemented ");
                s.append(component);
                s.append(": ");
                s.append(feature);
                s.append(" (");
                s.append(details.as_str());
                s.append(")");
                proof {
                    reveal_strlit("Unimplemented ");
                    reveal_strlit(": ");
                    reveal_strlit(" (");
                    reveal_strlit(")");
                }
            },
            RecoverableError::HardwareLimitation { component, limitation } => {
                s.append("Hardware limitation in ");
                s.append(component);
                s.append(": ");
                s.append(limitation.as_str());
                proof {
                    reveal_strlit("Hardware limitation in ");
                    reveal_strlit(": ");
                }
            },
            RecoverableError::InvalidState { component, expected, actual } => {
                s.append("Invalid state in ");
                s.append(component);
                s.append(": expected ");
                s.append(expected.as_str());
                s.append(", got ");
                s.append(actual.as_str());
                proof {
                    reveal_strlit("Invalid state in ");
                    reveal_strlit(": expected ");
                    reveal_strlit(", got ");
                }
            },
        }
        assert(s@ =~= recoverable_error_text(*self));
        s
    }
}

/// Report a missing feature as a non-fatal error, so callers can fall back.
pub fn handle_unimplemented_gracefully(component: &'static str, feature: &'static str) -> (r: Result<(), RecoverableError>)
    ensures
        r matches Err(RecoverableError::UnimplementedFeature { component: c, feature: f, details: d })
            && c == component && f == feature && d@ == "Feature not yet implemented, using fallback"@,
        r matches Err(e) && recoverable_error_text(e)
            == "Unimplemented "@ + component@ + ": "@ + feature@ + " (Feature not yet implemented, using fallback)"@,
{
    proof {
        reveal_strlit("Feature not yet implemented, using fallback");
        reveal_strlit(" (Feature not yet implemented, using fallback)");
        reveal_strlit(" (");
        reveal_strlit(")");
        assert(" ("@ + "Feature not yet implemented, using fallback"@ + ")"@ =~= " (Feature not yet implemented, using fallback)"@);
    }
    Err(RecoverableError::UnimplementedFeature {
        component,
        feature,
        details: String::from_str("Feature not yet implemented, using fallback"),
    })
}

/// The SPU state the register and transfer fixes touch: the 16-bit registers, the
/// sound RAM with its transfer address, and the interrupt on RAM access.
pub struct SpuRegisters {
    /// The 320 halfword registers.
    pub regs: Vec<u16>,
    /// Sound RAM, 256K halfwords.
    pub ram: Vec<u16>,
    pub ram_index: u32,
    pub irq_enabled: bool,
    pub irq_address: u32,
    pub irq: bool,
}

impl SpuRegisters {
    pub open spec fn wf(&self) -> bool {
        &&& self.regs@.len() == 320
        &&& self.ram@.len() == 0x40000
        &&& self.ram_index < 0x40000
    }
}

/// The register a byte store to `addr` lands in.
pub open spec fn spu_byte_reg(addr: u32) -> int {
    (((addr & 0x3fe) as usize) >> 1usize) as int
}

/// `current` with the byte `val` written into its high half (odd address) or low half.
pub open spec fn merge_byte(current: u16, val: u8, high: bool) -> u16 {
    if high { (current & 0x00ff) | ((val as u16) << 8u16) } else { (current & 0xff00) | (val as u16) }
}

/// A byte store to an SPU register: the registers are 16 bits wide, so the byte
/// replaces the half of the register that its address selects.
pub fn handle_spu_byte_store(spu: &mut SpuRegisters, addr: u32, val: u8, offset: usize)
    requires
        old(spu).wf(),
        spu_byte_reg(addr) < 320,
    ensures
        final(spu).wf(),
        final(spu).regs@ == old(spu).regs@.update(
            spu_byte_reg(addr),
            merge_byte(old(spu).regs@[spu_byte_reg(addr)], val, addr & 1 != 0),
        ),
        final(spu).ram@ == old(spu).ram@,
        final(spu).ram_index == old(spu).ram_index,
        final(spu).irq == old(spu).irq,
{
    let reg_offset = (addr & 0x3fe) as usize;
    let is_high_byte = (addr & 1) != 0;
    let idx = reg_offset >> 1;
    let mut current = spu.regs[idx];
    if is_high_byte {
        current = (current & 0x00ff) | ((val as u16) << 8u16);
    } else {
        current = (current & 0xff00) | (val as u16);
    }
    spu.regs.set(idx, current);
}

/// A read of the transfer FIFO: the RAM halfword at the transfer address, which then
/// advances (wrapping in the 256K RAM); reading the interrupt address raises the
/// interrupt when it is enabled.
pub fn read_transfer_fifo(spu: &mut SpuRegisters) -> (r: u16)
    requires
        old(spu).wf(),
    ensures
        final(spu).wf(),
        r == old(spu).ram@[old(spu).ram_index as int],
        final(spu).ram_index == ((old(spu).ram_index + 1) as u32) & 0x3_ffff,
        final(spu).irq == (old(spu).irq || (old(spu).irq_enabled && old(spu).ram_index == old(spu).irq_address)),
        final(spu).regs@ == old(spu).regs@,
        final(spu).ram@ == old(spu).ram@,
        final(spu).irq_enabled == old(spu).irq_enabled,
        final(spu).irq_address == old(spu).irq_address,
{
    let addr = spu.ram_index;
    let data = spu.ram[addr as usize];
    spu.ram_index = (addr + 1) & 0x3_ffff;
    proof { crate::bits::lemma_and_le((addr + 1) as u32, 0x3_ffff); }
    if spu.irq_enabled && addr == spu.irq_address {
        spu.irq = true;
    }
    data
}

/// A word read that reports an address outside the memory it targets as a non-fatal
/// error instead of failing.
pub fn safe_memory_read(psx: &mut Psx, addr: u32) -> (r: Result<u32, RecoverableError>)
    requires
        old(psx).wf(),
    ensures
        crate::psx_complete::word_in_bounds(addr) ==> r == Ok::<u32, RecoverableError>(old(psx).load32_value(addr))
            && *final(psx) == old(psx).after_access(addr),
        !crate::psx_complete::word_in_bounds(addr) ==> r == Err::<u32, RecoverableError>(
            RecoverableError::MemoryAccessViolation { address: addr, access_type: AccessType::Read, context: "Memory read" },
        ) && *final(psx) == *old(psx),
{
    if !word_access_in_bounds(addr) {
        return Err(
            RecoverableError::MemoryAccessViolation { address: addr, access_type: AccessType::Read, context: "Memory read" },
        );
    }
    match psx.load32(addr) {
        Ok(v) => Ok(v),
        Err(_) => Err(
            RecoverableError::MemoryAccessViolation { address: addr, access_type: AccessType::Read, context: "Memory read" },
        ),
    }
}

/// Flags of the CD controller's microcontroller.
#[derive(Debug, Clone, Copy, PartialEq, Eq, Structural)]
pub enum Flag {
    C,
    Z,
    N,
}

/// The CD controller's microcontroller: program counter, accumulator, index register,
/// flags, its 64K program ROM and its 256-byte data page.
pub struct Microcontroller {
    pub pc: u16,
    pub acc: u8,
    pub x: u8,
    pub carry: bool,
    pub zero: bool,
    pub negative: bool,
    pub rom: Vec<u8>,
    pub ram: Vec<u8>,
}

impl Microcontroller {
    pub open spec fn wf(&self) -> bool {
        self.rom@.len() == 0x10000 && self.ram@.len() == 0x100
    }

    /// The program byte `n` places after the program counter.
    pub open spec fn rom_ahead(&self, n: int) -> u8 {
        self.rom@[(self.pc + n) % 0x10000]
    }

    /// Reset, running the given program from address 0 with a cleared data page.
    pub fn new(rom: Vec<u8>) -> (r: Self)
        requires
            rom@.len() == 0x10000,
        ensures
            r.wf(),
            r.rom@ == rom@,
            r.pc == 0 && r.acc == 0 && r.x == 0 && !r.carry && !r.zero && !r.negative,
            forall|i: int| 0 <= i < 0x100 ==> r.ram@[i] == 0,
    {
        Microcontroller { pc: 0, acc: 0, x: 0, carry: false, zero: false, negative: false, rom, ram: vec![0u8; 0x100] }
    }

    /// The program byte at the program counter, which then advances.
    pub fn fetch_byte(&mut self) -> (r: u8)
        requires
            old(self).wf(),
        ensures
            r == old(self).rom_ahead(0),
            *final(self) == (Microcontroller { pc: old(self).pc.wrapping_add(1), ..*old(self) }),
    {
        let b = self.rom[self.pc as usize];
        self.pc = self.pc.wrapping_add(1);
        b
    }

    /// A byte of the data page.
    pub fn read_memory(&self, addr: u8) -> (r: u8)
        requires
            self.wf(),
        ensures
            r == self.ram@[addr as int],
    {
        self.ram[addr as usize]
    }

    pub fn set_flag(&mut self, flag: Flag, value: bool)
        ensures
            *final(self) == (match flag {
                Flag::C => Microcontroller { carry: value, ..*old(self) },
                Flag::Z => Microcontroller { zero: value, ..*old(self) },
                Flag::N => Microcontroller { negative: value, ..*old(self) },
            }),
    {
        match flag {
            Flag::C => self.carry = value,
            Flag::Z => self.zero = value,
            Flag::N => self.negative = value,
        }
    }

    /// Zero and negative from a result.
    pub fn update_nz_flags(&mut self, v: u8)
        ensures
            *final(self) == (Microcontroller { zero: v == 0, negative: v & 0x80 != 0, ..*old(self) }),
    {
        self.zero = v == 0;
        self.negative = v & 0x80 != 0;
    }
}

/// The 16-bit product of MUL.
pub open spec fn mul_product(a: u8, x: u8) -> u16 {
    ((a as u16) * (x as u16)) as u16
}

/// Where a relative branch from `next` by the signed byte `offset` lands.
pub open spec fn branch_target(next: u16, offset: u8) -> u16 {
    ((next as i16) + ((offset as i8) as i16)) as u16
}

/// Whether that branch stays within the signed 16-bit range the sum is taken in.
pub open spec fn branch_in_range(next: u16, offset: u8) -> bool {
    i16::MIN <= (next as i16) + ((offset as i8) as i16) <= i16::MAX
}

/// Whether the bit-test branch of `opcode` (BRSET 0x1a, BRCLR 0x1b) is taken.
pub open spec fn bit_branch_taken(uc: Microcontroller, opcode: u8) -> bool {
    let bit = uc.rom_ahead(0);
    let value = uc.ram@[uc.rom_ahead(2) as int];
    if opcode == 0x1a { value & (1u8 << bit) != 0 } else { value & (1u8 << bit) == 0 }
}

/// Run one firmware opcode whose handling the controller lacked: BRSET (0x1a) and
/// BRCLR (0x1b), which take a bit number, a signed offset and a data-page address and
/// branch when the bit is set or clear, and MUL (0x2f), which multiplies the
/// accumulator by X into X:A, clears carry and sets zero and negative from A. Other
/// opcodes do nothing.
pub fn handle_cdc_opcode(uc: &mut Microcontroller, opcode: u8)
    requires
        old(uc).wf(),
        opcode == 0x1a || opcode == 0x1b ==> old(uc).rom_ahead(0) < 8,
        (opcode == 0x1a || opcode == 0x1b) && bit_branch_taken(*old(uc), opcode) ==> branch_in_range(
            old(uc).pc.wrapping_add(3),
            old(uc).rom_ahead(1),
        ),
    ensures
        final(uc).wf(),
        opcode == 0x1a || opcode == 0x1b ==> *final(uc) == (Microcontroller {
            pc: if bit_branch_taken(*old(uc), opcode) {
                branch_target(old(uc).pc.wrapping_add(3), old(uc).rom_ahead(1))
            } else {
                old(uc).pc.wrapping_add(3)
            },
            ..*old(uc)
        }),
        opcode == 0x2f ==> *final(uc) == (Microcontroller {
            x: (mul_product(old(uc).acc, old(uc).x) >> 8u16) as u8,
            acc: mul_product(old(uc).acc, old(uc).x) as u8,
            carry: false,
            zero: mul_product(old(uc).acc, old(uc).x) as u8 == 0,
            negative: mul_product(old(uc).acc, old(uc).x) as u8 & 0x80 != 0,
            ..*old(uc)
        }),
        opcode != 0x1a && opcode != 0x1b && opcode != 0x2f ==> *final(uc) == *old(uc),
{
    if opcode == 0x1a || opcode == 0x1b {
        let ghost u0 = *uc;
        let bit = uc.fetch_byte();
        let offset = uc.fetch_byte() as i8;
        let addr = uc.fetch_byte();
        assert(uc.pc == u0.pc.wrapping_add(3));
        assert(addr == u0.rom_ahead(2)) by {
            assert(u0.pc.wrapping_add(1).wrapping_add(1) as int == (u0.pc + 2) % 0x10000);
        }
        assert(offset == u0.rom_ahead(1) as i8) by {
            assert(u0.pc.wrapping_add(1) as int == (u0.pc + 1) % 0x10000);
        }
        let value = uc.read_memory(addr);
        let taken = if opcode == 0x1a { value & (1u8 << bit) != 0 } else { value & (1u8 << bit) == 0 };
        if taken {
            let target: i16 = (uc.pc as i16) + (offset as i16);
            uc.pc = target as u16;
        }
    } else if opcode == 0x2f {
        let a0 = uc.acc;
        let x0 = uc.x;
        assert((a0 as u16) * (x0 as u16) <= 65025) by (nonlinear_arith)
            requires
                a0 <= 255,
                x0 <= 255;
        let result: u16 = a0 as u16 * x0 as u16;
        uc.x = (result >> 8u16) as u8;
        uc.acc = result as u8;
        uc.set_flag(Flag::C, false);
        let a = uc.acc;
        uc.update_nz_flags(a);
    }
}

/// A position on the disc as the subchannel Q reports it, every field in BCD.
#[derive(Debug, Clone, Copy, PartialEq, Eq, Structural)]
pub struct SubQPosition {
    pub track: u8,
    pub index: u8,
    pub relative_min: u8,
    pub relative_sec: u8,
    pub relative_frame: u8,
    pub absolute_min: u8,
    pub absolute_sec: u8,
    pub absolute_frame: u8,
}

/// The CD controller state the location and pregap fixes use.
pub struct CdController {
    pub current_position: SubQPosition,
    /// Frames of pregap played so far.
    pub pregap_counter: u32,
    /// The audio output buffer.
    pub audio_buffer: Vec<i16>,
    /// The disc's table of contents.
    pub toc: Toc,
}

/// Audio tracks begin with a two-second pregap.
pub const PREGAP_FRAMES: u32 = 150;

impl CdController {
    /// Whether the table of contents lists `track` as an audio track.
    pub open spec fn audio_track(&self, track: u8) -> bool {
        exists|i: int|
            0 <= i < self.toc.tracks@.len() && #[trigger] self.toc.tracks@[i].number == track
                && self.toc.tracks@[i].track_type == TrackType::Audio
    }

    /// Whether `track` is an audio track.
    pub fn is_audio_track(&self, track: u8) -> (r: bool)
        ensures
            r == self.audio_track(track),
    {
        let mut i: usize = 0;
        while i < self.toc.tracks.len()
            invariant
                i <= self.toc.tracks@.len(),
                forall|j: int|
                    0 <= j < i ==> !(#[trigger] self.toc.tracks@[j].number == track && self.toc.tracks@[j].track_type
                        == TrackType::Audio),
            decreases self.toc.tracks@.len() - i,
        {
            let t = self.toc.tracks[i];
            if t.number == track && t.track_type == TrackType::Audio {
                return true;
            }
            i = i + 1;
        }
        false
    }
}

/// The GetlocL reply: track, index, the position in the track and on the disc.
pub fn handle_getlocl_command(cdc: &mut CdController) -> (r: [u8; 8])
    ensures
        r@ == seq![
            old(cdc).current_position.track,
            old(cdc).current_position.index,
            old(cdc).current_position.relative_min,
            old(cdc).current_position.relative_sec,
            old(cdc).current_position.relative_frame,
            old(cdc).current_position.absolute_min,
            old(cdc).current_position.absolute_sec,
            old(cdc).current_position.absolute_frame,
        ],
        *final(cdc) == *old(cdc),
{
    let p = cdc.current_position;
    let r = [
        p.track,
        p.index,
        p.relative_min,
        p.relative_sec,
        p.relative_frame,
        p.absolute_min,
        p.absolute_sec,
        p.absolute_frame,
    ];
    assert(r@ =~= seq![p.track, p.index, p.relative_min, p.relative_sec, p.relative_frame, p.absolute_min, p.absolute_sec, p.absolute_frame]);
    r
}

/// One pregap frame of an audio track from count `c`: (still in the pregap, next count).
pub open spec fn pregap_step(c: u32) -> (bool, u32) {
    if c < PREGAP_FRAMES { (true, (c + 1) as u32) } else { (false, 0) }
}

/// The answers of `k` successive pregap frames of an audio track from count `c`.
pub open spec fn pregap_answers(c: u32, k: nat) -> Seq<bool>
    decreases k,
{
    if k == 0 {
        Seq::empty()
    } else {
        seq![pregap_step(c).0] + pregap_answers(pregap_step(c).1, (k - 1) as nat)
    }
}

/// From a count `c` of frames already played, an audio track stays in its pregap for the
/// frames that make up the 150, and the frame after that ends it.
pub proof fn lemma_pregap_lasts(c: u32, k: nat)
    requires
        c <= PREGAP_FRAMES,
        k <= PREGAP_FRAMES + 1 - c,
    ensures
        pregap_answers(c, k).len() == k,
        forall|i: int| 0 <= i < k ==> pregap_answers(c, k)[i] == (c + i < PREGAP_FRAMES),
    decreases k,
{
    if k > 0 {
        if c < PREGAP_FRAMES {
            lemma_pregap_lasts((c + 1) as u32, (k - 1) as nat);
            let rest = pregap_answers((c + 1) as u32, (k - 1) as nat);
            assert forall|i: int| 0 <= i < k implies pregap_answers(c, k)[i] == (c + i < PREGAP_FRAMES) by {
                if i > 0 {
                    assert(pregap_answers(c, k)[i] == rest[i - 1]);
                }
            }
        } else {
            assert(k == 1);
            assert(pregap_answers(pregap_step(c).1, 0).len() == 0);
            assert(pregap_answers(c, 1) =~= seq![false]);
        }
    }
}

/// Play one frame of an audio track's pregap: while fewer than 150 pregap frames have
/// played, count one more and output silence, answering true; otherwise (or for a
/// data track) reset the count and answer false.
pub fn handle_pregap(cdc: &mut CdController, track: u8) -> (r: bool)
    ensures
        r == (old(cdc).audio_track(track) && old(cdc).pregap_counter < PREGAP_FRAMES),
        r ==> final(cdc).pregap_counter == old(cdc).pregap_counter + 1
            && final(cdc).audio_buffer@.len() == old(cdc).audio_buffer@.len()
            && forall|i: int| 0 <= i < final(cdc).audio_buffer@.len() ==> final(cdc).audio_buffer@[i] == 0,
        !r ==> final(cdc).pregap_counter == 0 && final(cdc).audio_buffer@ == old(cdc).audio_buffer@,
        old(cdc).audio_track(track) ==> (r, final(cdc).pregap_counter) == pregap_step(old(cdc).pregap_counter),
        final(cdc).current_position == old(cdc).current_position,
        final(cdc).toc == old(cdc).toc,
{
    if cdc.is_audio_track(track) {
        if cdc.pregap_counter < PREGAP_FRAMES {
            cdc.pregap_counter = cdc.pregap_counter + 1;
            let n = cdc.audio_buffer.len();
            let mut i: usize = 0;
            while i < n
                invariant
                    n == cdc.audio_buffer@.len(),
                    n == old(cdc).audio_buffer@.len(),
                    cdc.pregap_counter == old(cdc).pregap_counter + 1,
                    cdc.current_position == old(cdc).current_position,
                    cdc.toc == old(cdc).toc,
                    i <= n,
                    forall|j: int| 0 <= j < i ==> cdc.audio_buffer@[j] == 0,
                decreases n - i,
            {
                cdc.audio_buffer.set(i, 0);
                i = i + 1;
            }
            return true;
        }
    }
    cdc.pregap_counter = 0;
    false
}

} // verus!
