//! GPU: GP0 command decoding and execution, GP1 control, VRAM fills and framebuffer output.

use vstd::prelude::*;

verus! {

/// VRAM size in 16-bit pixels (1024 x 512).
pub const VRAM_SIZE: usize = 524288;

/// GPU DMA direction (GP1(04h)).
#[derive(Debug, Clone, Copy, PartialEq, Eq, Structural)]
pub enum DmaDirection {
    Off,
    Fifo,
    CpuToGp0,
    VramToCpu,
}

/// A decoded GP0 command.
#[derive(Debug, Clone, Copy, PartialEq, Eq, Structural)]
pub enum Gp0Command {
    ClearCache,
    FillRect,
    CopyRect,
    DrawPolygon { vertices: usize, shaded: bool, textured: bool },
    DrawLine { shaded: bool },
    DrawRect { size: u8, textured: bool },
    DrawMode,
    TextureWindow,
    SetDrawArea,
    SetDrawOffset,
    MaskBit,
}

/// The GPU state.
pub struct Gpu {
    pub vram: Vec<u16>,
    pub display_mode: u32,
    pub display_x: u16,
    pub display_y: u16,
    pub display_x1: u16,
    pub display_x2: u16,
    pub display_y1: u16,
    pub display_y2: u16,
    pub draw_x1: u16,
    pub draw_y1: u16,
    pub draw_x2: u16,
    pub draw_y2: u16,
    pub draw_offset_x: i16,
    pub draw_offset_y: i16,
    pub tex_page_x: u8,
    pub tex_page_y: u8,
    pub tex_depth: u8,
    pub tex_window_mask_x: u8,
    pub tex_window_mask_y: u8,
    pub tex_window_offset_x: u8,
    pub tex_window_offset_y: u8,
    pub status: u32,
    pub gpu_read: u32,
    pub gp0_command: Option<Gp0Command>,
    pub gp0_words_remaining: usize,
    pub gp0_buffer: Vec<u32>,
    pub dma_direction: DmaDirection,
}

/// The command a GP0 opcode starts, and how many parameter words it takes.
pub open spec fn gp0_decode(cmd: u8) -> (Gp0Command, usize) {
    if cmd == 0x00 {
        (Gp0Command::ClearCache, 0)
    } else if cmd == 0x02 {
        (Gp0Command::FillRect, 2)
    } else if 0x20 <= cmd <= 0x3f {
        let vertices: usize = if cmd & 0x08 != 0 { 4 } else { 3 };
        let shaded = cmd & 0x10 != 0;
        let textured = cmd & 0x04 != 0;
        let words = (vertices - 1) + (if shaded { vertices } else { 0 }) + (if textured { vertices } else { 0 });
        (Gp0Command::DrawPolygon { vertices, shaded, textured }, words as usize)
    } else if 0x40 <= cmd <= 0x5f {
        let shaded = cmd & 0x10 != 0;
        (Gp0Command::DrawLine { shaded }, if shaded { 3 } else { 1 })
    } else if 0x60 <= cmd <= 0x7f {
        let size = (cmd >> 3u8) & 3;
        let textured = cmd & 0x04 != 0;
        let words: usize = if size == 0 {
            if textured { 2 } else { 1 }
        } else {
            if textured { 1 } else { 0 }
        };
        (Gp0Command::DrawRect { size, textured }, words)
    } else if cmd == 0xa0 {
        (Gp0Command::CopyRect, 3)
    } else if cmd == 0xe1 {
        (Gp0Command::DrawMode, 0)
    } else if cmd == 0xe2 {
        (Gp0Command::TextureWindow, 0)
    } else if 0xe3 <= cmd <= 0xe4 {
        (Gp0Command::SetDrawArea, 0)
    } else if cmd == 0xe5 {
        (Gp0Command::SetDrawOffset, 0)
    } else if cmd == 0xe6 {
        (Gp0Command::MaskBit, 0)
    } else {
        (Gp0Command::ClearCache, 0)
    }
}

/// The 15-bit VRAM color of a 24-bit GP0 color (red in the low byte).
pub open spec fn color16(color: u32) -> u16 {
    let r = ((color >> 0u32) & 0xff) as u16;
    let g = ((color >> 8u32) & 0xff) as u16;
    let b = ((color >> 16u32) & 0xff) as u16;
    (((b >> 3u16) << 10u16) | ((g >> 3u16) << 5u16) | (r >> 3u16)) as u16
}

/// Whether VRAM pixel `i` lies in the rectangle at (x, y) of size w x h, wrapping at the
/// VRAM edges.
pub open spec fn in_fill(i: int, x: int, y: int, w: int, h: int) -> bool {
    let vx = i % 1024;
    let vy = i / 1024;
    &&& (vx - x) % 1024 < (if w < 1024 { w } else { 1024 })
    &&& (vy - y) % 512 < (if h < 512 { h } else { 512 })
}

/// `new` is `old` with the rectangle filled with `c`.
pub open spec fn vram_filled(old: Seq<u16>, new: Seq<u16>, x: u16, y: u16, w: u16, h: u16, c: u16) -> bool {
    &&& new.len() == old.len()
    &&& forall|i: int| 0 <= i < old.len() ==> #[trigger] new[i] == (if in_fill(i, x as int, y as int, w as int, h as int) { c } else { old[i] })
}

/// A rectangle fill stores its 24-bit color as 15 bits: each pixel it covers holds the
/// top five bits of the red byte (bits 0 to 7 of the color) in bits 0 to 4, of the green
/// byte (8 to 15) in bits 5 to 9 and of the blue byte (16 to 23) in bits 10 to 14, with
/// bit 15 clear.
pub proof fn lemma_fill_color_channels(old: Seq<u16>, new: Seq<u16>, x: u16, y: u16, w: u16, h: u16, color: u32, i: int)
    requires
        vram_filled(old, new, x, y, w, h, color16(color)),
        0 <= i < old.len(),
        in_fill(i, x as int, y as int, w as int, h as int),
    ensures
        new[i] & 0x1f == ((color & 0xff) >> 3u32) as u16,
        (new[i] >> 5u16) & 0x1f == (((color >> 8u32) & 0xff) >> 3u32) as u16,
        (new[i] >> 10u16) & 0x1f == (((color >> 16u32) & 0xff) >> 3u32) as u16,
        new[i] < 0x8000,
{
    let c = color16(color);
    assert(new[i] == c);
    assert(c & 0x1f == ((color & 0xff) >> 3u32) as u16
        && (c >> 5u16) & 0x1f == (((color >> 8u32) & 0xff) >> 3u32) as u16
        && (c >> 10u16) & 0x1f == (((color >> 16u32) & 0xff) >> 3u32) as u16
        && c < 0x8000) by (bit_vector)
        requires
            c == color16(color);
}

/// A rectangle fill covers exactly its columns x to x + w - 1 and rows y to y + h - 1,
/// each taken modulo the VRAM's 1024 x 512 pixels (at most the whole VRAM): every such
/// pixel takes the fill color, and every pixel outside them keeps its value.
pub proof fn lemma_fill_covers_rectangle(old: Seq<u16>, new: Seq<u16>, x: u16, y: u16, w: u16, h: u16, c: u16, vx: int, vy: int)
    requires
        vram_filled(old, new, x, y, w, h, c),
        old.len() == VRAM_SIZE,
        0 <= vx < 1024,
        0 <= vy < 512,
    ensures
        ({
            let inside = (exists|dx: int| 0 <= dx < w && dx < 1024 && #[trigger] ((x + dx) % 1024) == vx)
                && (exists|dy: int| 0 <= dy < h && dy < 512 && #[trigger] ((y + dy) % 512) == vy);
            new[vy * 1024 + vx] == (if inside { c } else { old[vy * 1024 + vx] })
        }),
{
    lemma_vram_index(vx, vy);
    let i = vy * 1024 + vx;
    assert(0 <= i < VRAM_SIZE) by (nonlinear_arith)
        requires 0 <= vx < 1024, 0 <= vy < 512, i == vy * 1024 + vx;
    let ddx = (vx - x) % 1024;
    let ddy = (vy - y) % 512;
    assert(((x + ddx) % 1024) == vx) by {
        vstd::arithmetic::div_mod::lemma_add_mod_noop(x as int, vx - x, 1024);
        vstd::arithmetic::div_mod::lemma_add_mod_noop(x as int, ddx, 1024);
        vstd::arithmetic::div_mod::lemma_mod_twice(vx - x, 1024);
        vstd::arithmetic::div_mod::lemma_small_mod(vx as nat, 1024);
    }
    assert(((y + ddy) % 512) == vy) by {
        vstd::arithmetic::div_mod::lemma_add_mod_noop(y as int, vy - y, 512);
        vstd::arithmetic::div_mod::lemma_add_mod_noop(y as int, ddy, 512);
        vstd::arithmetic::div_mod::lemma_mod_twice(vy - y, 512);
        vstd::arithmetic::div_mod::lemma_small_mod(vy as nat, 512);
    }
    vstd::arithmetic::div_mod::lemma_mod_bound(vx - x, 1024);
    vstd::arithmetic::div_mod::lemma_mod_bound(vy - y, 512);
    if exists|dx: int| 0 <= dx < w && dx < 1024 && #[trigger] ((x + dx) % 1024) == vx {
        let dx = choose|dx: int| 0 <= dx < w && dx < 1024 && #[trigger] ((x + dx) % 1024) == vx;
        assert(ddx == dx) by {
            vstd::arithmetic::div_mod::lemma_add_mod_noop(x as int, dx, 1024);
            vstd::arithmetic::div_mod::lemma_sub_mod_noop(vx, x as int, 1024);
            vstd::arithmetic::div_mod::lemma_small_mod(dx as nat, 1024);
            vstd::arithmetic::div_mod::lemma_mod_sub_multiples_vanish(vx - x, 1024);
            assert((x + dx) % 1024 - x == vx - x);
            vstd::arithmetic::div_mod::lemma_sub_mod_noop(x + dx, x as int, 1024);
        }
    }
    if exists|dy: int| 0 <= dy < h && dy < 512 && #[trigger] ((y + dy) % 512) == vy {
        let dy = choose|dy: int| 0 <= dy < h && dy < 512 && #[trigger] ((y + dy) % 512) == vy;
        assert(ddy == dy) by {
            vstd::arithmetic::div_mod::lemma_add_mod_noop(y as int, dy, 512);
            vstd::arithmetic::div_mod::lemma_sub_mod_noop(vy, y as int, 512);
            vstd::arithmetic::div_mod::lemma_small_mod(dy as nat, 512);
            vstd::arithmetic::div_mod::lemma_sub_mod_noop(y + dy, y as int, 512);
        }
    }
    assert(new[i] == (if in_fill(i, x as int, y as int, w as int, h as int) { c } else { old[i] }));
}

/// The VRAM pixel index of column `vx` and row `vy` decomposes back into them.
proof fn lemma_vram_index(vx: int, vy: int)
    requires
        0 <= vx < 1024,
        0 <= vy < 512,
    ensures
        (vy * 1024 + vx) % 1024 == vx,
        (vy * 1024 + vx) / 1024 == vy,
        0 <= vy * 1024 + vx < VRAM_SIZE,
{
    vstd::arithmetic::div_mod::lemma_fundamental_div_mod_converse(vy * 1024 + vx, 1024, vy, vx);
}

/// Wrapping a coordinate to the VRAM size, the offset from the origin is recovered.
proof fn lemma_wrap_offset(a: int, d: int, m: int)
    requires
        0 <= a,
        0 <= d < m,
        m > 0,
    ensures
        ((a + d) % m - a) % m == d,
{
    vstd::arithmetic::div_mod::lemma_add_mod_noop(a + d, -a, m);
    vstd::arithmetic::div_mod::lemma_mod_twice(a + d, m);
    assert(((a + d) % m - a) % m == (((a + d) % m) % m + (-a) % m) % m) by {
        vstd::arithmetic::div_mod::lemma_add_mod_noop((a + d) % m, -a, m);
    }
    assert(((a + d) + (-a)) % m == d) by {
        vstd::arithmetic::div_mod::lemma_small_mod(d as nat, m as nat);
    }
}

/// Two values below `m` with the same offset from `a` modulo `m` are equal.
proof fn lemma_mod_eq_unique(v: int, u: int, a: int, d: int, m: int)
    requires
        m > 0,
        0 <= v < m,
        0 <= u < m,
        0 <= d < m,
        (v - a) % m == d,
        (u - a) % m == d,
    ensures
        v == u,
{
    vstd::arithmetic::div_mod::lemma_fundamental_div_mod(v - a, m);
    vstd::arithmetic::div_mod::lemma_fundamental_div_mod(u - a, m);
    let q1 = (v - a) / m;
    let q2 = (u - a) / m;
    assert(v - u == m * (q1 - q2)) by (nonlinear_arith)
        requires v - a == m * q1 + d, u - a == m * q2 + d;
    if q1 != q2 {
        assert(m * (q1 - q2) >= m || m * (q1 - q2) <= -m) by (nonlinear_arith)
            requires m > 0, q1 != q2;
    }
}

/// The pixels covered after `dy` full rows and `dx` pixels of the next row.
pub open spec fn fill_progress(i: int, x: int, y: int, wmax: int, dy: int, dx: int) -> bool {
    let ox = (i % 1024 - x) % 1024;
    let oy = (i / 1024 - y) % 512;
    (oy < dy && ox < wmax) || (oy == dy && ox < dx)
}

/// The number of parameter words a command takes.
pub open spec fn command_words(c: Gp0Command) -> int {
    match c {
        Gp0Command::FillRect => 2,
        Gp0Command::CopyRect => 3,
        Gp0Command::DrawPolygon { vertices, shaded, textured } => (vertices - 1) + (if shaded { vertices as int } else { 0 }) + (if textured { vertices as int } else { 0 }),
        Gp0Command::DrawLine { shaded } => if shaded { 3 } else { 1 },
        Gp0Command::DrawRect { size, textured } => if size == 0 {
            if textured { 2 } else { 1 }
        } else {
            if textured { 1 } else { 0 }
        },
        _ => 0,
    }
}

/// Saturating subtraction on u16.
pub open spec fn sat_sub16(a: u16, b: u16) -> u16 {
    if a >= b { (a - b) as u16 } else { 0 }
}

/// The effect of executing the buffered GP0 command of `old`, leaving `new`.
pub open spec fn gp0_executed(old: Gpu, new: Gpu) -> bool {
    let buf = old.gp0_buffer@;
    &&& new.gp0_command.is_none()
    &&& new.gp0_buffer == old.gp0_buffer
    &&& new.gp0_words_remaining == old.gp0_words_remaining
    &&& new.status == old.status
    &&& new.display_x == old.display_x
    &&& new.display_y == old.display_y
    &&& new.vram@.len() == old.vram@.len()
    &&& match old.gp0_command {
        Some(Gp0Command::FillRect) => {
            let color = buf[0] & 0xffffff;
            let x = (buf[1] & 0x3ff) as u16;
            let y = ((buf[1] >> 16u32) & 0x1ff) as u16;
            let w = (buf[2] & 0x3ff) as u16;
            let h = ((buf[2] >> 16u32) & 0x1ff) as u16;
            vram_filled(old.vram@, new.vram@, x, y, w, h, color16(color))
        },
        Some(Gp0Command::DrawPolygon { vertices, .. }) => if vertices >= 3 && buf.len() > 1 {
            let color = buf[0] & 0xffffff;
            let x = (buf[1] & 0x7ff) as u16;
            let y = ((buf[1] >> 16u32) & 0x7ff) as u16;
            vram_filled(old.vram@, new.vram@, sat_sub16(x, 5), sat_sub16(y, 5), 10, 10, color16(color))
        } else {
            new.vram@ == old.vram@
        },
        Some(Gp0Command::DrawRect { .. }) => if buf.len() > 0 {
            let color = buf[0] & 0xffffff;
            let xy = if buf.len() > 1 { buf[1] } else { 0 };
            let x = (xy & 0x7ff) as u16;
            let y = ((xy >> 16u32) & 0x7ff) as u16;
            vram_filled(old.vram@, new.vram@, x, y, 16, 16, color16(color))
        } else {
            new.vram@ == old.vram@
        },
        _ => new.vram@ == old.vram@,
    }
    &&& match old.gp0_command {
        Some(Gp0Command::DrawMode) => {
            &&& new.tex_page_x == (buf[0] & 0xf) as u8
            &&& new.tex_page_y == ((buf[0] >> 4u32) & 1) as u8
            &&& new.tex_depth == ((buf[0] >> 7u32) & 3) as u8
            &&& new.draw_offset_x == old.draw_offset_x
            &&& new.draw_offset_y == old.draw_offset_y
        },
        Some(Gp0Command::SetDrawOffset) => {
            &&& new.draw_offset_x == (((buf[0] & 0x7ff) as i16) << 5u32) >> 5u32
            &&& new.draw_offset_y == ((((buf[0] >> 11u32) & 0x7ff) as i16) << 5u32) >> 5u32
            &&& new.tex_page_x == old.tex_page_x
            &&& new.tex_page_y == old.tex_page_y
            &&& new.tex_depth == old.tex_depth
        },
        _ => {
            &&& new.tex_page_x == old.tex_page_x
            &&& new.tex_page_y == old.tex_page_y
            &&& new.tex_depth == old.tex_depth
            &&& new.draw_offset_x == old.draw_offset_x
            &&& new.draw_offset_y == old.draw_offset_y
        },
    }
}

impl Gpu {
    /// The GP0 buffer holds exactly what the pending command still expects.
    pub open spec fn gp0_wf(&self) -> bool {
        &&& self.gp0_words_remaining > 0 ==> {
            &&& self.gp0_command is Some
            &&& self.gp0_buffer@.len() >= 1
            &&& self.gp0_buffer@.len() + self.gp0_words_remaining == 1 + command_words(self.gp0_command->0)
        }
    }

    /// Run the buffered GP0 command.
    fn execute_gp0(&mut self)
        requires
            old(self).wf(),
            old(self).gp0_command is Some ==> old(self).gp0_buffer@.len() == 1 + command_words(old(self).gp0_command->0),
        ensures
            final(self).wf(),
            gp0_executed(*old(self), *final(self)),
    {
        let cmd = self.gp0_command;
        match cmd {
            Some(Gp0Command::FillRect) => {
                let color = self.gp0_buffer[0] & 0xffffff;
                let xy = self.gp0_buffer[1];
                let wh = self.gp0_buffer[2];
                let x = (xy & 0x3ff) as u16;
                let y = ((xy >> 16) & 0x1ff) as u16;
                let w = (wh & 0x3ff) as u16;
                let h = ((wh >> 16) & 0x1ff) as u16;
                proof {
                    crate::bits::lemma_and_le(xy, 0x3ff);
                    crate::bits::lemma_and_le(xy >> 16u32, 0x1ff);
                }
                self.fill_rect(x, y, w, h, color);
            },
            Some(Gp0Command::DrawPolygon { vertices, .. }) => {
                if vertices >= 3 && self.gp0_buffer.len() > 1 {
                    let color = self.gp0_buffer[0] & 0xffffff;
                    let xy = self.gp0_buffer[1];
                    let x = (xy & 0x7ff) as u16;
                    let y = ((xy >> 16) & 0x7ff) as u16;
                    proof {
                        crate::bits::lemma_and_le(xy, 0x7ff);
                        crate::bits::lemma_and_le(xy >> 16u32, 0x7ff);
                    }
                    let xs = if x >= 5 { x - 5 } else { 0 };
                    let ys = if y >= 5 { y - 5 } else { 0 };
                    self.fill_rect(xs, ys, 10, 10, color);
                }
            },
            Some(Gp0Command::DrawRect { .. }) => {
                if self.gp0_buffer.len() > 0 {
                    let color = self.gp0_buffer[0] & 0xffffff;
                    let xy = if self.gp0_buffer.len() > 1 { self.gp0_buffer[1] } else { 0 };
                    let x = (xy & 0x7ff) as u16;
                    let y = ((xy >> 16) & 0x7ff) as u16;
                    proof {
                        crate::bits::lemma_and_le(xy, 0x7ff);
                        crate::bits::lemma_and_le(xy >> 16u32, 0x7ff);
                    }
                    self.fill_rect(x, y, 16, 16, color);
                }
            },
            Some(Gp0Command::DrawMode) => {
                let val = self.gp0_buffer[0];
                self.tex_page_x = (val & 0xf) as u8;
                self.tex_page_y = ((val >> 4) & 1) as u8;
                self.tex_depth = ((val >> 7) & 3) as u8;
            },
            Some(Gp0Command::SetDrawOffset) => {
                let val = self.gp0_buffer[0];
                self.draw_offset_x = ((val & 0x7ff) as i16) << 5 >> 5;
                self.draw_offset_y = (((val >> 11) & 0x7ff) as i16) << 5 >> 5;
            },
            _ => {},
        }
        self.gp0_command = None;
    }
}

/// The DMA direction selected by the low two bits of a GP1(04h) word.
pub open spec fn dma_direction_of(v: u32) -> DmaDirection {
    if v & 3 == 0 {
        DmaDirection::Off
    } else if v & 3 == 1 {
        DmaDirection::Fifo
    } else if v & 3 == 2 {
        DmaDirection::CpuToGp0
    } else {
        DmaDirection::VramToCpu
    }
}

/// The effect of a GP1 control word `val` on `old`, leaving `new`.
pub open spec fn gp1_written(old: Gpu, new: Gpu, val: u32) -> bool {
    let cmd = (val >> 24u32) as u8;
    if cmd == 0x00 {
        &&& new.gp0_buffer@.len() == 0
        &&& new == (Gpu { status: 0x14802000, gp0_command: None, gp0_words_remaining: 0, gp0_buffer: new.gp0_buffer, ..old })
    } else if cmd == 0x01 {
        &&& new.gp0_buffer@.len() == 0
        &&& new == (Gpu { gp0_command: None, gp0_words_remaining: 0, gp0_buffer: new.gp0_buffer, ..old })
    } else if cmd == 0x03 {
        new == (Gpu { status: (old.status & !0x800000u32) | ((val & 1) << 23u32), ..old })
    } else if cmd == 0x04 {
        new == (Gpu { dma_direction: dma_direction_of(val), ..old })
    } else if cmd == 0x05 {
        new == (Gpu { display_x: (val & 0x3ff) as u16, display_y: ((val >> 10u32) & 0x1ff) as u16, ..old })
    } else if cmd == 0x06 {
        new == (Gpu { display_x1: (val & 0xfff) as u16, display_x2: ((val >> 12u32) & 0xfff) as u16, ..old })
    } else if cmd == 0x07 {
        new == (Gpu { display_y1: (val & 0x3ff) as u16, display_y2: ((val >> 10u32) & 0x3ff) as u16, ..old })
    } else if cmd == 0x08 {
        new == (Gpu {
            display_mode: val,
            status: (old.status & !0x7f0000u32) | ((val & 0x3f) << 17u32) | ((val & 0x40) << 10u32),
            ..old
        })
    } else {
        new == old
    }
}

/// The effect of feeding `val` to GP0 in state `old`, leaving `new`.
pub open spec fn gp0_written(old: Gpu, new: Gpu, val: u32) -> bool {
    &&& old.gp0_words_remaining == 0 ==> {
        let c = gp0_decode((val >> 24u32) as u8).0;
        let words = gp0_decode((val >> 24u32) as u8).1;
        let started = (Gpu {
            gp0_buffer: new.gp0_buffer,
            gp0_command: Some(c),
            gp0_words_remaining: words,
            ..old
        });
        &&& new.gp0_buffer@ == seq![val]
        &&& words == 0 ==> gp0_executed(started, new)
        &&& words > 0 ==> new == started
    }
    &&& old.gp0_words_remaining > 0 ==> {
        let fed = (Gpu {
            gp0_buffer: new.gp0_buffer,
            gp0_words_remaining: (old.gp0_words_remaining - 1) as usize,
            ..old
        });
        &&& new.gp0_buffer@ == old.gp0_buffer@.push(val)
        &&& old.gp0_words_remaining == 1 ==> gp0_executed(fed, new)
        &&& old.gp0_words_remaining > 1 ==> new == fed
    }
}

impl Gpu {
    /// Write a GP1 control word: resets, display enable, DMA direction and display area.
    pub fn gp1_write(&mut self, val: u32)
        ensures
            gp1_written(*old(self), *final(self), val),
    {
        let cmd = (val >> 24) as u8;
        if cmd == 0x00 {
            self.status = 0x14802000;
            self.gp0_command = None;
            self.gp0_words_remaining = 0;
            self.gp0_buffer.clear();
        } else if cmd == 0x01 {
            self.gp0_command = None;
            self.gp0_words_remaining = 0;
            self.gp0_buffer.clear();
        } else if cmd == 0x02 {
        } else if cmd == 0x03 {
            self.status = (self.status & !0x800000) | ((val & 1) << 23);
        } else if cmd == 0x04 {
            self.dma_direction = if val & 3 == 0 {
                DmaDirection::Off
            } else if val & 3 == 1 {
                DmaDirection::Fifo
            } else if val & 3 == 2 {
                DmaDirection::CpuToGp0
            } else {
                DmaDirection::VramToCpu
            };
        } else if cmd == 0x05 {
            self.display_x = (val & 0x3ff) as u16;
            self.display_y = ((val >> 10) & 0x1ff) as u16;
        } else if cmd == 0x06 {
            self.display_x1 = (val & 0xfff) as u16;
            self.display_x2 = ((val >> 12) & 0xfff) as u16;
        } else if cmd == 0x07 {
            self.display_y1 = (val & 0x3ff) as u16;
            self.display_y2 = ((val >> 10) & 0x3ff) as u16;
        } else if cmd == 0x08 {
            self.display_mode = val;
            self.status = (self.status & !0x7f0000) | ((val & 0x3f) << 17) | ((val & 0x40) << 10);
        }
    }
}

impl Gpu {
    /// Fill a rectangle of VRAM with a 24-bit color converted to 15 bits, wrapping at the
    /// VRAM edges; at most 1024 x 512 pixels are written.
    pub fn fill_rect(&mut self, x: u16, y: u16, w: u16, h: u16, color: u32)
        requires
            old(self).wf(),
            x <= 2047,
            y <= 2047,
        ensures
            final(self).wf(),
            vram_filled(old(self).vram@, final(self).vram@, x, y, w, h, color16(color)),
            *final(self) == (Gpu { vram: final(self).vram, ..*old(self) }),
    {
        let r = ((color >> 0) & 0xff) as u16;
        let g = ((color >> 8) & 0xff) as u16;
        let b = ((color >> 16) & 0xff) as u16;
        let c16 = ((b >> 3) << 10) | ((g >> 3) << 5) | (r >> 3);
        let hmax: u16 = if h < 512 { h } else { 512 };
        let wmax: u16 = if w < 1024 { w } else { 1024 };
        let ghost old_vram = self.vram@;
        let ghost c = c16;
        let mut dy: u16 = 0;
        while dy < hmax
            invariant
                self.wf(),
                dy <= hmax <= 512,
                wmax <= 1024,
                hmax == (if h < 512 { h } else { 512 }),
                wmax == (if w < 1024 { w } else { 1024 }),
                x <= 2047, y <= 2047,
                c == c16,
                forall|i: int| 0 <= i < VRAM_SIZE ==> #[trigger] self.vram@[i] == (if fill_progress(i, x as int, y as int, wmax as int, dy as int, 0) { c } else { old_vram[i] }),
                *self == (Gpu { vram: self.vram, ..*old(self) }),
            decreases hmax - dy,
        {
            let mut dx: u16 = 0;
            while dx < wmax
                invariant
                    self.wf(),
                    dy < hmax <= 512,
                    dx <= wmax <= 1024,
                    x <= 2047, y <= 2047,
                    c == c16,
                    forall|i: int| 0 <= i < VRAM_SIZE ==> #[trigger] self.vram@[i] == (if fill_progress(i, x as int, y as int, wmax as int, dy as int, dx as int) { c } else { old_vram[i] }),
                    *self == (Gpu { vram: self.vram, ..*old(self) }),
                decreases wmax - dx,
            {
                let xs: u16 = x + dx;
                let ys: u16 = y + dy;
                let vram_x = (xs & 0x3ff) as usize;
                let vram_y = (ys & 0x1ff) as usize;
                proof {
                    assert(xs & 0x3ff == xs % 1024) by (bit_vector);
                    assert(ys & 0x1ff == ys % 512) by (bit_vector);
                    lemma_vram_index(vram_x as int, vram_y as int);
                    lemma_wrap_offset(x as int, dx as int, 1024);
                    lemma_wrap_offset(y as int, dy as int, 512);
                }
                let idx = vram_y * 1024 + vram_x;
                let ghost before = self.vram@;
                assert(idx < self.vram.len());
                if idx < self.vram.len() {
                    self.vram.set(idx, c16);
                }
                assert(self.vram@ == before.update(idx as int, c));
                proof {
                    assert forall|i: int| 0 <= i < VRAM_SIZE implies #[trigger] self.vram@[i] == (if fill_progress(i, x as int, y as int, wmax as int, dy as int, dx + 1) { c } else { old_vram[i] }) by {
                        if i == idx as int {
                            assert((i % 1024 - x) % 1024 == dx as int);
                            assert((i / 1024 - y) % 512 == dy as int);
                            assert(self.vram@[i] == c);
                            assert(fill_progress(i, x as int, y as int, wmax as int, dy as int, dx + 1));
                        } else {
                            assert(self.vram@[i] == before[i]);
                            if 0 <= i {
                                let ox = (i % 1024 - x) % 1024;
                                let oy = (i / 1024 - y) % 512;
                                if oy == dy && ox == dx {
                                    vstd::arithmetic::div_mod::lemma_fundamental_div_mod(i, 1024);
                                    assert(i % 1024 == vram_x as int) by {
                                        vstd::arithmetic::div_mod::lemma_mod_bound(i, 1024);
                                        vstd::arithmetic::div_mod::lemma_sub_mod_noop(i % 1024, x as int, 1024);
                                        lemma_mod_eq_unique(i % 1024, vram_x as int, x as int, dx as int, 1024);
                                    }
                                    assert(i / 1024 == vram_y as int) by {
                                        vstd::arithmetic::div_mod::lemma_div_pos_is_pos(i, 1024);
                                        vstd::arithmetic::div_mod::lemma_div_by_multiple_is_strongly_ordered(i, VRAM_SIZE as int, 512, 1024);
                                        lemma_mod_eq_unique(i / 1024, vram_y as int, y as int, dy as int, 512);
                                    }
                                    assert(false);
                                }
                                assert(fill_progress(i, x as int, y as int, wmax as int, dy as int, dx + 1) == fill_progress(i, x as int, y as int, wmax as int, dy as int, dx as int));
                            }
                        }
                    }
                }
                dx += 1;
            }
            proof {
                assert forall|i: int| 0 <= i < VRAM_SIZE implies #[trigger] self.vram@[i] == (if fill_progress(i, x as int, y as int, wmax as int, dy + 1, 0) { c } else { old_vram[i] }) by {
                    assert(fill_progress(i, x as int, y as int, wmax as int, dy as int, wmax as int) == fill_progress(i, x as int, y as int, wmax as int, dy + 1, 0)) by {
                        vstd::arithmetic::div_mod::lemma_mod_bound(i % 1024 - x, 1024);
                        vstd::arithmetic::div_mod::lemma_mod_bound(i / 1024 - y, 512);
                    }
                }
            }
            dy += 1;
        }
        proof {
            assert forall|i: int| 0 <= i < old_vram.len() implies #[trigger] self.vram@[i] == (if in_fill(i, x as int, y as int, w as int, h as int) { c } else { old_vram[i] }) by {
                vstd::arithmetic::div_mod::lemma_mod_bound(i % 1024 - x, 1024);
                vstd::arithmetic::div_mod::lemma_mod_bound(i / 1024 - y, 512);
            }
            assert(c == color16(color)) by (bit_vector)
                requires c == ((((color >> 16u32) & 0xff) as u16 >> 3u16) << 10u16) | ((((color >> 8u32) & 0xff) as u16 >> 3u16) << 5u16) | (((color >> 0u32) & 0xff) as u16 >> 3u16);
        }
    }

    /// Internal consistency: VRAM holds 1024 x 512 pixels.
    pub open spec fn wf(&self) -> bool {
        self.vram@.len() == VRAM_SIZE
    }

    /// The GPU after reset.
    pub fn new() -> (r: Self)
        ensures
            r.wf(),
            forall|i: int| 0 <= i < VRAM_SIZE ==> #[trigger] r.vram@[i] == 0,
            r.status == 0x14802000,
            r.gp0_command.is_none(),
            r.gp0_words_remaining == 0,
            r.gp0_buffer@.len() == 0,
            r.dma_direction == DmaDirection::Off,
            r.display_x1 == 0x200 && r.display_x2 == 0xc00 && r.display_y1 == 0x010 && r.display_y2 == 0x100,
            r.display_mode == 0 && r.display_x == 0 && r.display_y == 0 && r.gpu_read == 0,
    {
        Gpu {
            vram: vec![0; VRAM_SIZE],
            display_mode: 0,
            display_x: 0,
            display_y: 0,
            display_x1: 0x200,
            display_x2: 0xc00,
            display_y1: 0x010,
            display_y2: 0x100,
            draw_x1: 0,
            draw_y1: 0,
            draw_x2: 0,
            draw_y2: 0,
            draw_offset_x: 0,
            draw_offset_y: 0,
            tex_page_x: 0,
            tex_page_y: 0,
            tex_depth: 0,
            tex_window_mask_x: 0,
            tex_window_mask_y: 0,
            tex_window_offset_x: 0,
            tex_window_offset_y: 0,
            status: 0x14802000,
            gpu_read: 0,
            gp0_command: None,
            gp0_words_remaining: 0,
            gp0_buffer: Vec::new(),
            dma_direction: DmaDirection::Off,
        }
    }

    /// Decode a GP0 opcode into its command and parameter count.
    pub fn decode_gp0(&self, cmd: u8) -> (r: (Gp0Command, usize))
        ensures
            r == gp0_decode(cmd),
    {
        if cmd == 0x00 {
            (Gp0Command::ClearCache, 0)
        } else if cmd == 0x02 {
            (Gp0Command::FillRect, 2)
        } else if 0x20 <= cmd && cmd <= 0x3f {
            let vertices: usize = if cmd & 0x08 != 0 { 4 } else { 3 };
            let shaded = cmd & 0x10 != 0;
            let textured = cmd & 0x04 != 0;
            let words = vertices - 1 + if shaded { vertices } else { 0 } + if textured { vertices } else { 0 };
            (Gp0Command::DrawPolygon { vertices, shaded, textured }, words)
        } else if 0x40 <= cmd && cmd <= 0x5f {
            let shaded = cmd & 0x10 != 0;
            (Gp0Command::DrawLine { shaded }, if shaded { 3 } else { 1 })
        } else if 0x60 <= cmd && cmd <= 0x7f {
            let size = (cmd >> 3) & 3;
            let textured = cmd & 0x04 != 0;
            let words: usize = if size == 0 {
                if textured { 2 } else { 1 }
            } else {
                if textured { 1 } else { 0 }
            };
            (Gp0Command::DrawRect { size, textured }, words)
        } else if cmd == 0xa0 {
            (Gp0Command::CopyRect, 3)
        } else if cmd == 0xe1 {
            (Gp0Command::DrawMode, 0)
        } else if cmd == 0xe2 {
            (Gp0Command::TextureWindow, 0)
        } else if 0xe3 <= cmd && cmd <= 0xe4 {
            (Gp0Command::SetDrawArea, 0)
        } else if cmd == 0xe5 {
            (Gp0Command::SetDrawOffset, 0)
        } else if cmd == 0xe6 {
            (Gp0Command::MaskBit, 0)
        } else {
            (Gp0Command::ClearCache, 0)
        }
    }

    /// Feed a word to GP0: either the opcode of a new command, or the next parameter of the
    /// pending one. A command runs as soon as its last parameter arrives.
    pub fn gp0_write(&mut self, val: u32)
        requires
            old(self).wf(),
            old(self).gp0_wf(),
        ensures
            final(self).wf(),
            final(self).gp0_wf(),
            gp0_written(*old(self), *final(self), val),
    {
        if self.gp0_words_remaining == 0 {
            let cmd = (val >> 24) as u8;
            self.gp0_buffer.clear();
            self.gp0_buffer.push(val);
            let (command, words) = self.decode_gp0(cmd);
            self.gp0_command = Some(command);
            self.gp0_words_remaining = words;
            if words == 0 {
                self.execute_gp0();
            }
        } else {
            self.gp0_buffer.push(val);
            self.gp0_words_remaining = self.gp0_words_remaining - 1;
            if self.gp0_words_remaining == 0 {
                self.execute_gp0();
            }
        }
    }

    /// GPUSTAT as the CPU reads it: always ready to receive commands.
    pub fn get_status(&self) -> (r: u32)
        ensures
            r == self.status | 0x1c000000,
    {
        self.status | 0x1c000000
    }

    /// GPUREAD.
    pub fn get_read(&self) -> (r: u32)
        ensures
            r == self.gpu_read,
    {
        self.gpu_read
    }
}


/// Width of the framebuffer handed to the display, in pixels.
pub const FB_WIDTH: usize = 640;
/// Height of the framebuffer handed to the display, in pixels.
pub const FB_HEIGHT: usize = 480;

/// Whether some VRAM pixel is non-zero.
pub open spec fn vram_has_data(vram: Seq<u16>) -> bool {
    exists|i: int| 0 <= i < vram.len() && #[trigger] vram[i] != 0
}

/// The VRAM pixel shown at framebuffer pixel `p` for a display origin of (`dx`, `dy`).
pub open spec fn shown_pixel(vram: Seq<u16>, dx: u16, dy: u16, p: int) -> u16 {
    let x = p % 640;
    let y = p / 640;
    let vx = (((dx + x) as usize) & 0x3ff) as int;
    let vy = (((dy + y) as usize) & 0x1ff) as int;
    vram[vy * 1024 + vx]
}

/// The RGBA bytes of framebuffer pixel `p`: a gradient test pattern when VRAM is blank,
/// else the 15-bit VRAM colour widened to 8 bits per channel.
pub open spec fn fb_rgba(vram: Seq<u16>, dx: u16, dy: u16, p: int) -> (u8, u8, u8, u8) {
    if !vram_has_data(vram) {
        (((p % 640) * 255 / 640) as u8, ((p / 640) * 255 / 480) as u8, 128, 255)
    } else {
        let px = shown_pixel(vram, dx, dy, p);
        (((px & 0x1f) << 3u16) as u8, (((px >> 5u16) & 0x1f) << 3u16) as u8, (((px >> 10u16) & 0x1f) << 3u16) as u8, 255)
    }
}

/// `buf` holds the RGBA framebuffer for `vram` shown from (`dx`, `dy`).
pub open spec fn framebuffer_of(buf: Seq<u8>, vram: Seq<u16>, dx: u16, dy: u16) -> bool {
    &&& buf.len() == FB_WIDTH * FB_HEIGHT * 4
    &&& forall|p: int| 0 <= p < FB_WIDTH * FB_HEIGHT ==> {
        let c = #[trigger] fb_rgba(vram, dx, dy, p);
        &&& buf[4 * p] == c.0
        &&& buf[4 * p + 1] == c.1
        &&& buf[4 * p + 2] == c.2
        &&& buf[4 * p + 3] == c.3
    }
}

impl Gpu {
    /// Whether VRAM holds any non-zero pixel.
    fn has_vram_data(&self) -> (r: bool)
        ensures
            r == vram_has_data(self.vram@),
    {
        let mut i: usize = 0;
        while i < self.vram.len()
            invariant
                i <= self.vram@.len(),
                forall|j: int| 0 <= j < i ==> self.vram@[j] == 0,
            decreases self.vram@.len() - i,
        {
            if self.vram[i] != 0 {
                return true;
            }
            i = i + 1;
        }
        false
    }

    /// Render the displayed area as 640x480 RGBA bytes into `buffer`.
    pub fn get_framebuffer(&self, buffer: &mut Vec<u8>)
        requires
            self.wf(),
        ensures
            framebuffer_of(final(buffer)@, self.vram@, self.display_x, self.display_y),
    {
        let width: usize = FB_WIDTH;
        let height: usize = FB_HEIGHT;
        buffer.resize(width * height * 4, 0);
        let has_data = self.has_vram_data();
        let start_x = self.display_x as usize;
        let start_y = self.display_y as usize;
        let mut p: usize = 0;
        while p < width * height
            invariant
                width == FB_WIDTH && height == FB_HEIGHT,
                self.wf(),
                has_data == vram_has_data(self.vram@),
                start_x == self.display_x as usize,
                start_y == self.display_y as usize,
                p <= FB_WIDTH * FB_HEIGHT,
                buffer@.len() == FB_WIDTH * FB_HEIGHT * 4,
                forall|q: int| 0 <= q < p ==> {
                    let c = #[trigger] fb_rgba(self.vram@, self.display_x, self.display_y, q);
                    &&& buffer@[4 * q] == c.0
                    &&& buffer@[4 * q + 1] == c.1
                    &&& buffer@[4 * q + 2] == c.2
                    &&& buffer@[4 * q + 3] == c.3
                },
            decreases FB_WIDTH * FB_HEIGHT - p,
        {
            let x = p % width;
            let y = p / width;
            let bi = p * 4;
            let (r, g, b): (u8, u8, u8) = if !has_data {
                (((x * 255) / width) as u8, ((y * 255) / height) as u8, 128)
            } else {
                let sx = start_x + x;
                let sy = start_y + y;
                let vx = sx & 0x3ff;
                let vy = sy & 0x1ff;
                proof {
                    crate::bits::lemma_and_le_usize(sx, 0x3ff);
                    crate::bits::lemma_and_le_usize(sy, 0x1ff);
                }
                let pixel = self.vram[vy * 1024 + vx];
                (((pixel & 0x1f) << 3) as u8, (((pixel >> 5) & 0x1f) << 3) as u8, (((pixel >> 10) & 0x1f) << 3) as u8)
            };
            buffer.set(bi, r);
            buffer.set(bi + 1, g);
            buffer.set(bi + 2, b);
            buffer.set(bi + 3, 255);
            proof {
                let c = fb_rgba(self.vram@, self.display_x, self.display_y, p as int);
                assert(c == (r, g, b, 255u8));
            }
            p = p + 1;
        }
    }
}

} // verus!
