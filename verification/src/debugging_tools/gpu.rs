//! GPU debugging: a bounded command log with draw statistics, VRAM snapshots, and the
//! conversion of VRAM's 15-bit pixels to RGB for export.

use vstd::prelude::*;
use std::collections::VecDeque;

verus! {

/// Data of a logged triangle command.
#[derive(Debug, Clone, Copy, PartialEq, Eq, Structural)]
pub struct TriangleData;

/// Data of a logged rectangle command.
#[derive(Debug, Clone, Copy, PartialEq, Eq, Structural)]
pub struct RectData;

/// Data of a logged line command.
#[derive(Debug, Clone, Copy, PartialEq, Eq, Structural)]
pub struct LineData;

/// Data of a logged fill command.
#[derive(Debug, Clone, Copy, PartialEq, Eq, Structural)]
pub struct FillData;

/// Data of a logged copy command.
#[derive(Debug, Clone, Copy, PartialEq, Eq, Structural)]
pub struct CopyData;

/// A logged GPU command.
#[derive(Debug, Clone, Copy, PartialEq, Eq, Structural)]
pub enum GpuCommand {
    DrawTriangle(TriangleData),
    DrawRectangle(RectData),
    DrawLine(LineData),
    FillRect(FillData),
    CopyRect(CopyData),
}

/// Counts of drawn primitives.
#[derive(Debug, Clone, Copy, PartialEq, Eq, Structural)]
pub struct DrawStatistics {
    pub triangles: u32,
    pub rectangles: u32,
    pub lines: u32,
    pub pixels_drawn: u64,
}

impl Default for DrawStatistics {
    fn default() -> (r: Self)
        ensures
            r == (DrawStatistics { triangles: 0, rectangles: 0, lines: 0, pixels_drawn: 0 }),
    {
        DrawStatistics { triangles: 0, rectangles: 0, lines: 0, pixels_drawn: 0 }
    }
}

/// Texture cache counters.
#[derive(Debug, Clone, Copy, PartialEq, Eq, Structural)]
pub struct TextureCacheStats {
    pub hits: u32,
    pub misses: u32,
    pub evictions: u32,
}

impl Default for TextureCacheStats {
    fn default() -> (r: Self)
        ensures
            r == (TextureCacheStats { hits: 0, misses: 0, evictions: 0 }),
    {
        TextureCacheStats { hits: 0, misses: 0, evictions: 0 }
    }
}

/// A copy of VRAM with a label and the time it was taken (seconds, from the host clock).
pub struct VramSnapshot {
    pub data: Vec<u8>,
    pub label: String,
    pub timestamp: u64,
}

/// The GPU debugger.
pub struct GpuDebugger {
    /// The latest commands, oldest first, at most 1000.
    pub command_log: VecDeque<GpuCommand>,
    pub vram_snapshots: Vec<VramSnapshot>,
    pub draw_stats: DrawStatistics,
    pub texture_cache_stats: TextureCacheStats,
}

/// The statistics after one more command.
pub open spec fn stats_after(s: DrawStatistics, c: GpuCommand) -> DrawStatistics {
    match c {
        GpuCommand::DrawTriangle(_) => DrawStatistics { triangles: (s.triangles + 1) as u32, ..s },
        GpuCommand::DrawRectangle(_) => DrawStatistics { rectangles: (s.rectangles + 1) as u32, ..s },
        GpuCommand::DrawLine(_) => DrawStatistics { lines: (s.lines + 1) as u32, ..s },
        _ => s,
    }
}

/// The 15-bit VRAM pixel at (`x`, `y`) of a 1024x512 VRAM image.
pub open spec fn vram_pixel(vram: Seq<u8>, x: u32, y: u32) -> u16 {
    let i = (y * 1024 + x) * 2;
    (vram[i] + vram[i + 1] * 256) as u16
}

/// The RGB bytes of a 15-bit pixel: each 5-bit channel shifted up to 8 bits.
pub open spec fn pixel_rgb(p: u16) -> (u8, u8, u8) {
    (((p & 0x001f) << 3u16) as u8, ((p & 0x03e0) >> 2u16) as u8, ((p & 0x7c00) >> 7u16) as u8)
}

/// The RGB colour of VRAM pixel (`x`, `y`).
pub fn vram_pixel_rgb(vram: &[u8], x: u32, y: u32) -> (r: (u8, u8, u8))
    requires
        vram@.len() >= 1024 * 512 * 2,
        x < 1024,
        y < 512,
    ensures
        r == pixel_rgb(vram_pixel(vram@, x, y)),
{
    let idx = ((y * 1024 + x) * 2) as usize;
    let pixel = (vram[idx] as u16) + (vram[idx + 1] as u16) * 256;
    let r = ((pixel & 0x001f) << 3) as u8;
    let g = ((pixel & 0x03e0) >> 2) as u8;
    let b = ((pixel & 0x7c00) >> 7) as u8;
    (r, g, b)
}

impl GpuDebugger {
    /// Nothing logged.
    pub fn new() -> (r: Self)
        ensures
            r.command_log@.len() == 0,
            r.vram_snapshots@.len() == 0,
            r.draw_stats == (DrawStatistics { triangles: 0, rectangles: 0, lines: 0, pixels_drawn: 0 }),
            r.texture_cache_stats == (TextureCacheStats { hits: 0, misses: 0, evictions: 0 }),
    {
        GpuDebugger {
            command_log: VecDeque::new(),
            vram_snapshots: Vec::new(),
            draw_stats: DrawStatistics::default(),
            texture_cache_stats: TextureCacheStats::default(),
        }
    }

    /// Log a command, keeping the latest 1000, and count it.
    pub fn log_command(&mut self, command: GpuCommand)
        requires
            command is DrawTriangle ==> old(self).draw_stats.triangles < u32::MAX,
            command is DrawRectangle ==> old(self).draw_stats.rectangles < u32::MAX,
            command is DrawLine ==> old(self).draw_stats.lines < u32::MAX,
        ensures
            final(self).command_log@ == (if old(self).command_log@.len() + 1 > 1000 {
                old(self).command_log@.push(command).drop_first()
            } else {
                old(self).command_log@.push(command)
            }),
            final(self).draw_stats == stats_after(old(self).draw_stats, command),
            *final(self) == (GpuDebugger { command_log: final(self).command_log, draw_stats: final(self).draw_stats, ..*old(self) }),
    {
        self.command_log.push_back(command);
        if self.command_log.len() > 1000 {
            self.command_log.pop_front();
        }
        match command {
            GpuCommand::DrawTriangle(_) => self.draw_stats.triangles = self.draw_stats.triangles + 1,
            GpuCommand::DrawRectangle(_) => self.draw_stats.rectangles = self.draw_stats.rectangles + 1,
            GpuCommand::DrawLine(_) => self.draw_stats.lines = self.draw_stats.lines + 1,
            _ => {},
        }
    }

    /// Keep a copy of `vram` under `label`, taken at `timestamp`.
    pub fn snapshot_vram(&mut self, vram: &[u8], label: String, timestamp: u64)
        ensures
            final(self).vram_snapshots@.len() == old(self).vram_snapshots@.len() + 1,
            forall|i: int| 0 <= i < old(self).vram_snapshots@.len() ==> final(self).vram_snapshots@[i] == old(self).vram_snapshots@[i],
            final(self).vram_snapshots@.last().data@ == vram@,
            final(self).vram_snapshots@.last().label == label,
            final(self).vram_snapshots@.last().timestamp == timestamp,
            *final(self) == (GpuDebugger { vram_snapshots: final(self).vram_snapshots, ..*old(self) }),
    {
        let mut data: Vec<u8> = Vec::new();
        let mut i: usize = 0;
        while i < vram.len()
            invariant
                i <= vram@.len(),
                data@ == vram@.take(i as int),
            decreases vram@.len() - i,
        {
            data.push(vram[i]);
            i = i + 1;
            assert(data@ =~= vram@.take(i as int));
        }
        assert(vram@.take(vram@.len() as int) =~= vram@);
        self.vram_snapshots.push(VramSnapshot { data, label, timestamp });
    }
}

} // verus!
