use vstd::prelude::*;

pub mod isa;
pub mod laws;
pub mod loader;
pub mod memory;
pub mod nestest;
pub mod op;
pub mod ppu;
pub mod processor;
pub mod status;

pub use loader::{load_nes, load_rom, load_rom_16kb, nes_image_supported};

verus! {

} // verus!
