//! Core of a cycle-driven emulator for an early IBM-compatible personal
//! computer: a 1 MiB physical memory bus with ROM/RAM access masks, an I/O
//! port bus with per-port handler dispatch, and the per-slice scheduler that
//! advances the CPU and every peripheral device in lockstep.

pub mod bus;
pub mod byteinterface;
pub mod cga;
pub mod cpu;
pub mod dma;
pub mod fdc;
pub mod hdc;
pub mod video;
pub mod io;
pub mod machine;
pub mod pic;
pub mod pit;
pub mod ppi;
pub mod rom_manager;
pub mod text;
