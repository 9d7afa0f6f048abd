pub mod cpu;
pub mod ram;
