//! The link cable: the serial port that connects two consoles for multiplayer games.

use vstd::prelude::*;
use std::collections::VecDeque;

verus! {

/// Connection state.
#[derive(Debug, Clone, Copy, PartialEq, Eq, Structural)]
pub enum LinkState {
    Disconnected,
    Connected,
    Transmitting,
    Receiving,
    Error,
}

/// Transfer mode.
#[derive(Debug, Clone, Copy, PartialEq, Eq, Structural)]
pub enum LinkMode {
    Sync8Bit,
    Sync16Bit,
    Async,
}

/// Whether the serial port raises its interrupt line.
#[derive(Debug, Clone, Copy, PartialEq, Eq, Structural)]
pub enum IrqState {
    Idle,
    Active,
}

/// The two byte queues of a link: what this console sends and what it receives. The
/// other end of the cable sees them the other way round.
pub struct LinkBuffer {
    pub tx_buffer: VecDeque<u8>,
    pub rx_buffer: VecDeque<u8>,
}

impl LinkBuffer {
    /// Two empty queues.
    pub fn new() -> (r: Self)
        ensures
            r.tx_buffer@ == Seq::<u8>::empty(),
            r.rx_buffer@ == Seq::<u8>::empty(),
    {
        LinkBuffer { tx_buffer: VecDeque::with_capacity(256), rx_buffer: VecDeque::with_capacity(256) }
    }

    /// The buffer of the other end: its send queue is this receive queue and the other
    /// way round.
    pub fn create_pair(&self) -> (r: Self)
        ensures
            r.tx_buffer@ == self.rx_buffer@,
            r.rx_buffer@ == self.tx_buffer@,
    {
        LinkBuffer { tx_buffer: self.rx_buffer.clone(), rx_buffer: self.tx_buffer.clone() }
    }
}

/// The serial port controller.
pub struct LinkCable {
    pub state: LinkState,
    pub mode: LinkMode,
    pub baud_rate: u16,
    pub control: u16,
    pub status: u16,
    pub data: u16,
    pub tx_fifo: VecDeque<u8>,
    pub rx_fifo: VecDeque<u8>,
    pub clock_source: bool,
    pub rx_interrupt: bool,
    pub tx_interrupt: bool,
    pub dsr: bool,
    pub dtr: bool,
    pub rts: bool,
    pub cts: bool,
    pub link_buffer: Option<LinkBuffer>,
    pub tx_cycles: i32,
    pub rx_cycles: i32,
}

/// The mode selected by bits 4..5 of the control register.
pub open spec fn mode_of_control(value: u16) -> LinkMode {
    let m = (value >> 4u16) & 0x3;
    if m == 0 { LinkMode::Sync8Bit } else if m == 1 { LinkMode::Sync16Bit } else { LinkMode::Async }
}

/// The status register as read: the TX ready/empty bits follow the send FIFO, the RX
/// ready bit the receive FIFO, and DSR and CTS are reported in bits 7 and 8.
pub open spec fn status_view(status: u16, tx_empty: bool, rx_empty: bool, dsr: bool, cts: bool) -> u16 {
    let s1: u16 = if !tx_empty { status & !0x0005u16 } else { status | 0x0005u16 };
    let s2: u16 = if !rx_empty { s1 | 0x0002u16 } else { s1 & !0x0002u16 };
    let s3: u16 = if dsr { s2 | 0x0080u16 } else { s2 };
    if cts { s3 | 0x0100u16 } else { s3 }
}

/// The cycles one transfer takes: the CPU clock over the baud divisor (1 when unset)
/// times the bits per byte (10 asynchronous, 8 synchronous).
pub open spec fn tx_cycles_for(baud_rate: u16, mode: LinkMode) -> i32 {
    let div: int = if baud_rate == 0 { 1 } else { baud_rate as int };
    let bits: int = if mode == LinkMode::Async { 10 } else { 8 };
    (33_868_800int / (div * bits)) as i32
}

/// The bytes that a data write of `value` queues in `mode`.
pub open spec fn data_bytes(value: u16, mode: LinkMode) -> Seq<u8> {
    if mode == LinkMode::Sync16Bit { seq![value as u8, (value >> 8u16) as u8] } else { seq![value as u8] }
}

/// The first byte of `q`, or 0xFF when it is empty.
pub open spec fn front_or_ff(q: Seq<u8>) -> u16 {
    if q.len() > 0 { q[0] as u16 } else { 0xFF }
}

/// `q` without its first byte, if it has one.
pub open spec fn drop_front(q: Seq<u8>) -> Seq<u8> {
    if q.len() > 0 { q.drop_first() } else { q }
}

impl LinkCable {
    /// A disconnected port with empty FIFOs.
    pub fn new() -> (r: Self)
        ensures
            r.state == LinkState::Disconnected,
            r.mode == LinkMode::Sync8Bit,
            r.baud_rate == 0 && r.control == 0 && r.status == 0x0005 && r.data == 0,
            r.tx_fifo@ == Seq::<u8>::empty() && r.rx_fifo@ == Seq::<u8>::empty(),
            !r.clock_source && !r.rx_interrupt && !r.tx_interrupt,
            !r.dsr && !r.dtr && !r.rts && !r.cts,
            r.link_buffer.is_none(),
            r.tx_cycles == 0 && r.rx_cycles == 0,
    {
        LinkCable {
            state: LinkState::Disconnected,
            mode: LinkMode::Sync8Bit,
            baud_rate: 0,
            control: 0,
            status: 0x0005,
            data: 0,
            tx_fifo: VecDeque::with_capacity(64),
            rx_fifo: VecDeque::with_capacity(64),
            clock_source: false,
            rx_interrupt: false,
            tx_interrupt: false,
            dsr: false,
            dtr: false,
            rts: false,
            cts: false,
            link_buffer: None,
            tx_cycles: 0,
            rx_cycles: 0,
        }
    }

    /// Plug the cable into `buffer`; the other console is ready.
    pub fn connect(&mut self, buffer: LinkBuffer)
        ensures
            *final(self) == (LinkCable { link_buffer: Some(buffer), state: LinkState::Connected, cts: true, ..*old(self) }),
    {
        self.link_buffer = Some(buffer);
        self.state = LinkState::Connected;
        self.cts = true;
    }

    /// Unplug the cable.
    pub fn disconnect(&mut self)
        ensures
            *final(self) == (LinkCable { link_buffer: None, state: LinkState::Disconnected, cts: false, ..*old(self) }),
    {
        self.link_buffer = None;
        self.state = LinkState::Disconnected;
        self.cts = false;
    }

    /// Whether the cable is connected.
    pub fn is_connected(&self) -> (r: bool)
        ensures
            r == (self.state != LinkState::Disconnected),
    {
        self.state != LinkState::Disconnected
    }

    /// Write the control register: interrupt enables, DTR, RTS, the mode, the clock
    /// source, and FIFO resets.
    pub fn set_control(&mut self, value: u16)
        ensures
            final(self).control == value,
            final(self).rx_interrupt == (value & 0x0001 != 0),
            final(self).tx_interrupt == (value & 0x0002 != 0),
            final(self).dtr == (value & 0x0004 != 0),
            final(self).rts == (value & 0x0008 != 0),
            final(self).mode == mode_of_control(value),
            final(self).clock_source == (value & 0x0100 != 0),
            final(self).tx_fifo@ == (if value & 0x0040 != 0 { Seq::<u8>::empty() } else { old(self).tx_fifo@ }),
            final(self).rx_fifo@ == (if value & 0x0080 != 0 { Seq::<u8>::empty() } else { old(self).rx_fifo@ }),
            final(self).status == ({
                let s1: u16 = if value & 0x0040 != 0 { old(self).status | 0x0005u16 } else { old(self).status };
                if value & 0x0080 != 0 { s1 & !0x0002u16 } else { s1 }
            }),
            final(self).state == old(self).state,
            final(self).baud_rate == old(self).baud_rate,
            final(self).dsr == old(self).dsr && final(self).cts == old(self).cts,
            final(self).link_buffer == old(self).link_buffer,
            final(self).tx_cycles == old(self).tx_cycles,
    {
        self.control = value;
        self.rx_interrupt = (value & 0x0001) != 0;
        self.tx_interrupt = (value & 0x0002) != 0;
        self.dtr = (value & 0x0004) != 0;
        self.rts = (value & 0x0008) != 0;
        let mode_bits = (value >> 4) & 0x3;
        self.mode = if mode_bits == 0 {
            LinkMode::Sync8Bit
        } else if mode_bits == 1 {
            LinkMode::Sync16Bit
        } else {
            LinkMode::Async
        };
        self.clock_source = (value & 0x0100) != 0;
        if (value & 0x0040) != 0 {
            self.tx_fifo.clear();
            self.status = self.status | 0x0005;
        }
        if (value & 0x0080) != 0 {
            self.rx_fifo.clear();
            self.status = self.status & !0x0002u16;
        }
    }

    /// The control register.
    pub fn control(&self) -> (r: u16)
        ensures
            r == self.control,
    {
        self.control
    }

    /// The status register as the CPU reads it.
    pub fn status(&self) -> (r: u16)
        ensures
            r == status_view(self.status, self.tx_fifo@.len() == 0, self.rx_fifo@.len() == 0, self.dsr, self.cts),
    {
        let s1: u16 = if self.tx_fifo.len() != 0 { self.status & !0x0005u16 } else { self.status | 0x0005u16 };
        let s2: u16 = if self.rx_fifo.len() != 0 { s1 | 0x0002u16 } else { s1 & !0x0002u16 };
        let s3: u16 = if self.dsr { s2 | 0x0080u16 } else { s2 };
        if self.cts { s3 | 0x0100u16 } else { s3 }
    }

    /// Queue `value` for sending: one byte, or two (low first) in 16-bit mode; start
    /// the transfer timer.
    pub fn write_data(&mut self, value: u16)
        ensures
            final(self).tx_fifo@ == old(self).tx_fifo@ + data_bytes(value, old(self).mode),
            final(self).state == LinkState::Transmitting,
            final(self).status == old(self).status & !0x0001u16 & !0x0004u16,
            final(self).tx_cycles == tx_cycles_for(old(self).baud_rate, old(self).mode),
            final(self).rx_fifo@ == old(self).rx_fifo@,
            final(self).mode == old(self).mode,
            final(self).link_buffer == old(self).link_buffer,
            final(self).tx_interrupt == old(self).tx_interrupt,
            final(self).rx_interrupt == old(self).rx_interrupt,
    {
        match self.mode {
            LinkMode::Sync8Bit | LinkMode::Async => {
                self.tx_fifo.push_back(value as u8);
            },
            LinkMode::Sync16Bit => {
                self.tx_fifo.push_back(value as u8);
                self.tx_fifo.push_back((value >> 8) as u8);
            },
        }
        self.state = LinkState::Transmitting;
        self.status = self.status & !0x0001u16;
        self.status = self.status & !0x0004u16;
        self.tx_cycles = self.calculate_tx_cycles();
        assert(self.tx_fifo@ =~= old(self).tx_fifo@ + data_bytes(value, old(self).mode));
    }

    /// Take received data: one byte, or two (low first) in 16-bit mode; an empty FIFO
    /// gives 0xFF per byte.
    pub fn read_data(&mut self) -> (r: u16)
        ensures
            old(self).mode != LinkMode::Sync16Bit ==> r == front_or_ff(old(self).rx_fifo@)
                && final(self).rx_fifo@ == drop_front(old(self).rx_fifo@),
            old(self).mode == LinkMode::Sync16Bit ==> r == (front_or_ff(old(self).rx_fifo@)
                | (front_or_ff(drop_front(old(self).rx_fifo@)) << 8u16))
                && final(self).rx_fifo@ == drop_front(drop_front(old(self).rx_fifo@)),
            *final(self) == (LinkCable { rx_fifo: final(self).rx_fifo, ..*old(self) }),
    {
        match self.mode {
            LinkMode::Sync8Bit | LinkMode::Async => {
                match self.rx_fifo.pop_front() {
                    Some(b) => b as u16,
                    None => 0xFF,
                }
            },
            LinkMode::Sync16Bit => {
                let lo: u16 = match self.rx_fifo.pop_front() {
                    Some(b) => b as u16,
                    None => 0xFF,
                };
                let hi: u16 = match self.rx_fifo.pop_front() {
                    Some(b) => b as u16,
                    None => 0xFF,
                };
                lo | (hi << 8)
            },
        }
    }

    /// The cycles one transfer takes at the current baud rate and mode.
    fn calculate_tx_cycles(&self) -> (r: i32)
        ensures
            r == tx_cycles_for(self.baud_rate, self.mode),
    {
        let cpu_freq: i32 = 33_868_800;
        let baud_divisor: i32 = if self.baud_rate == 0 { 1 } else { self.baud_rate as i32 };
        let bits_per_byte: i32 = match self.mode {
            LinkMode::Async => 10,
            _ => 8,
        };
        proof {
            assert(1 <= baud_divisor * bits_per_byte <= 655350) by (nonlinear_arith)
                requires 1 <= baud_divisor <= 65535, 8 <= bits_per_byte <= 10;
        }
        cpu_freq / (baud_divisor * bits_per_byte)
    }

    /// Advance the port by `cycles`: a finished transfer moves the send FIFO onto the
    /// cable, and bytes waiting on the cable move into the receive FIFO. Raises the
    /// interrupt when an enabled transfer event happened.
    pub fn run(&mut self, cycles: i32) -> (r: IrqState)
        requires
            old(self).state == LinkState::Transmitting ==> i32::MIN <= old(self).tx_cycles - cycles <= i32::MAX,
        ensures
            ({
                let sending = old(self).state == LinkState::Transmitting;
                let done = sending && old(self).tx_cycles - cycles <= 0;
                let connected = old(self).link_buffer.is_some();
                let incoming = if connected { old(self).link_buffer.unwrap().rx_buffer@ } else { Seq::<u8>::empty() };
                &&& final(self).tx_cycles == (if sending { (old(self).tx_cycles - cycles) as i32 } else { old(self).tx_cycles })
                &&& final(self).state == (if done { LinkState::Connected } else { old(self).state })
                &&& final(self).tx_fifo@ == (if done && connected { Seq::<u8>::empty() } else { old(self).tx_fifo@ })
                &&& final(self).rx_fifo@ == old(self).rx_fifo@ + incoming
                &&& connected ==> final(self).link_buffer.is_some()
                    && final(self).link_buffer.unwrap().rx_buffer@ == Seq::<u8>::empty()
                    && final(self).link_buffer.unwrap().tx_buffer@ == old(self).link_buffer.unwrap().tx_buffer@
                        + (if done { old(self).tx_fifo@ } else { Seq::<u8>::empty() })
                &&& !connected ==> final(self).link_buffer.is_none()
                &&& final(self).status == ({
                    let s1: u16 = if done { old(self).status | 0x0005u16 } else { old(self).status };
                    if incoming.len() > 0 { s1 | 0x0002u16 } else { s1 }
                })
                &&& r == (if (done && old(self).tx_interrupt) || (incoming.len() > 0 && old(self).rx_interrupt) {
                    IrqState::Active
                } else {
                    IrqState::Idle
                })
            }),
            final(self).mode == old(self).mode,
            final(self).baud_rate == old(self).baud_rate,
            final(self).control == old(self).control,
            final(self).rx_interrupt == old(self).rx_interrupt,
            final(self).tx_interrupt == old(self).tx_interrupt,
    {
        let mut irq = IrqState::Idle;
        if self.state == LinkState::Transmitting {
            self.tx_cycles = self.tx_cycles - cycles;
            if self.tx_cycles <= 0 {
                match &mut self.link_buffer {
                    Some(buffer) => {
                        buffer.tx_buffer.append(&mut self.tx_fifo);
                    },
                    None => {},
                }
                self.state = LinkState::Connected;
                self.status = self.status | 0x0005u16;
                if self.tx_interrupt {
                    irq = IrqState::Active;
                }
            }
        }
        match &mut self.link_buffer {
            Some(buffer) => {
                if buffer.rx_buffer.len() != 0 {
                    self.rx_fifo.append(&mut buffer.rx_buffer);
                    self.status = self.status | 0x0002u16;
                    if self.rx_interrupt {
                        irq = IrqState::Active;
                    }
                }
            },
            None => {},
        }
        irq
    }

    /// Set the baud rate divisor.
    pub fn set_baud_rate(&mut self, rate: u16)
        ensures
            *final(self) == (LinkCable { baud_rate: rate, ..*old(self) }),
    {
        self.baud_rate = rate;
    }
}

/// Hand each end of a cable what the other end sent: the bytes queued on `a`'s send
/// side go to `b`'s receive side and the other way round.
pub fn exchange(a: &mut LinkCable, b: &mut LinkCable)
    ensures
        ({
            let (oa, ob) = (*old(a), *old(b));
            (oa.link_buffer.is_some() && ob.link_buffer.is_some()) ==> {
                &&& final(a).link_buffer.unwrap().tx_buffer@ == Seq::<u8>::empty()
                &&& final(b).link_buffer.unwrap().tx_buffer@ == Seq::<u8>::empty()
                &&& final(b).link_buffer.unwrap().rx_buffer@ == ob.link_buffer.unwrap().rx_buffer@ + oa.link_buffer.unwrap().tx_buffer@
                &&& final(a).link_buffer.unwrap().rx_buffer@ == oa.link_buffer.unwrap().rx_buffer@ + ob.link_buffer.unwrap().tx_buffer@
            }
        }),
        !(old(a).link_buffer.is_some() && old(b).link_buffer.is_some()) ==> *final(a) == *old(a) && *final(b) == *old(b),
        final(a).link_buffer.is_some() == old(a).link_buffer.is_some(),
        final(b).link_buffer.is_some() == old(b).link_buffer.is_some(),
        *final(a) == (LinkCable { link_buffer: final(a).link_buffer, ..*old(a) }),
        *final(b) == (LinkCable { link_buffer: final(b).link_buffer, ..*old(b) }),
{
    match (&mut a.link_buffer, &mut b.link_buffer) {
        (Some(ba), Some(bb)) => {
            bb.rx_buffer.append(&mut ba.tx_buffer);
            ba.rx_buffer.append(&mut bb.tx_buffer);
        },
        _ => {},
    }
}

/// The register read at `offset`: data, status, mode, control, the unused MISC register
/// and the baud divisor; all ones elsewhere. Reading data takes it from the FIFO.
pub fn load(link: &mut LinkCable, offset: u32) -> (r: u32)
    ensures
        offset == 0x00 ==> {
            let m = old(link).mode;
            let q = old(link).rx_fifo@;
            &&& m != LinkMode::Sync16Bit ==> r == front_or_ff(q) as u32
            &&& m == LinkMode::Sync16Bit ==> r == (front_or_ff(q) | (front_or_ff(drop_front(q)) << 8u16)) as u32
        },
        offset == 0x04 ==> r == status_view(old(link).status, old(link).tx_fifo@.len() == 0, old(link).rx_fifo@.len() == 0, old(link).dsr, old(link).cts) as u32,
        offset == 0x08 ==> r == (match old(link).mode { LinkMode::Sync8Bit => 0u32, LinkMode::Sync16Bit => 1u32, LinkMode::Async => 2u32 }),
        offset == 0x0A ==> r == old(link).control as u32,
        offset == 0x0C ==> r == 0,
        offset == 0x0E ==> r == old(link).baud_rate as u32,
        offset != 0x00 && offset != 0x04 && offset != 0x08 && offset != 0x0A && offset != 0x0C && offset != 0x0E ==> r == 0xFFFFFFFF,
        offset != 0x00 ==> *final(link) == *old(link),
        offset == 0x00 ==> *final(link) == (LinkCable { rx_fifo: final(link).rx_fifo, ..*old(link) }),
{
    if offset == 0x00 {
        link.read_data() as u32
    } else if offset == 0x04 {
        link.status() as u32
    } else if offset == 0x08 {
        match link.mode {
            LinkMode::Sync8Bit => 0,
            LinkMode::Sync16Bit => 1,
            LinkMode::Async => 2,
        }
    } else if offset == 0x0A {
        link.control() as u32
    } else if offset == 0x0C {
        0
    } else if offset == 0x0E {
        link.baud_rate as u32
    } else {
        0xFFFFFFFF
    }
}

/// Write the register at `offset`: data, mode, control or baud divisor; other offsets
/// are ignored.
pub fn store(link: &mut LinkCable, offset: u32, value: u32)
    ensures
        offset == 0x08 ==> *final(link) == (LinkCable {
            mode: if value & 3 == 0 { LinkMode::Sync8Bit } else if value & 3 == 1 { LinkMode::Sync16Bit } else { LinkMode::Async },
            ..*old(link)
        }),
        offset == 0x0E ==> *final(link) == (LinkCable { baud_rate: value as u16, ..*old(link) }),
        offset == 0x00 ==> final(link).tx_fifo@ == old(link).tx_fifo@ + data_bytes(value as u16, old(link).mode)
            && final(link).state == LinkState::Transmitting,
        offset == 0x0A ==> final(link).control == value as u16 && final(link).mode == mode_of_control(value as u16),
        offset != 0x00 && offset != 0x08 && offset != 0x0A && offset != 0x0E ==> *final(link) == *old(link),
{
    if offset == 0x00 {
        link.write_data(value as u16);
    } else if offset == 0x08 {
        link.mode = if value & 3 == 0 {
            LinkMode::Sync8Bit
        } else if value & 3 == 1 {
            LinkMode::Sync16Bit
        } else {
            LinkMode::Async
        };
    } else if offset == 0x0A {
        link.set_control(value as u16);
    } else if offset == 0x0E {
        link.set_baud_rate(value as u16);
    }
}

/// Two ports joined by one cable: each sends into the queue the other receives from.
pub fn create_linked_pair() -> (r: (LinkCable, LinkCable))
    ensures
        r.0.state == LinkState::Connected && r.1.state == LinkState::Connected,
        r.0.cts && r.1.cts,
        r.0.link_buffer.is_some() && r.1.link_buffer.is_some(),
        r.0.link_buffer.unwrap().tx_buffer@ == r.1.link_buffer.unwrap().rx_buffer@,
        r.0.link_buffer.unwrap().rx_buffer@ == r.1.link_buffer.unwrap().tx_buffer@,
        r.0.tx_fifo@.len() == 0 && r.0.rx_fifo@.len() == 0,
        r.1.tx_fifo@.len() == 0 && r.1.rx_fifo@.len() == 0,
{
    let buffer1 = LinkBuffer::new();
    let buffer2 = buffer1.create_pair();
    let mut cable1 = LinkCable::new();
    let mut cable2 = LinkCable::new();
    cable1.connect(buffer1);
    cable2.connect(buffer2);
    (cable1, cable2)
}

} // verus!
