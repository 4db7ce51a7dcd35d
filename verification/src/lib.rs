pub mod cpu;
pub mod flags;
pub mod input;
pub mod laws;
pub mod library;
pub mod memory;
