//! Monochrome framebuffer with toroidal addressing, a hexadecimal glyph
//! table, and the emulator shell that owns the framebuffer.

pub mod cpu;
pub mod display;
pub mod glyphs;
