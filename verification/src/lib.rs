//! A CHIP-8 virtual machine: a fixed 4096-byte memory, sixteen 8-bit
//! registers, a sixteen-slot call stack, a 64x32 monochrome framebuffer,
//! two countdown timers, and a pressed-key set.  The engine executes one
//! instruction per cycle; the host supplies key input and presents the
//! framebuffer.

pub mod app;
pub mod emulator;
pub mod frame_calculator;
pub mod laws;
pub mod machine;
pub mod opcode;
