//! Memory bus and CPU register state of an 8-bit handheld console core.
pub mod mem;
pub mod reg;
