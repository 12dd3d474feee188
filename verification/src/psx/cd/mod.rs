//! CD-ROM drive and discs.

pub mod disc;
