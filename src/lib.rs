pub mod bits;
pub mod cpu;
pub mod gpio;
pub mod instructions;
pub mod loader;
pub mod memio;
pub mod memory;
pub mod uart;
