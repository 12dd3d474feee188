//! Fixes and extensions around the emulator core: edge-case handling, achievements,
//! performance counters, debugging aids and recording.

pub mod critical_fixes;
pub mod retroachievements;
pub mod performance_monitor;
pub mod video_recording;
pub mod opengl_renderer;
