pub mod cpu;
pub mod input;
pub mod output;
pub mod system;
pub mod text;
