pub mod address;
pub mod instruction;
pub mod memory;
pub mod register;

pub use address::Address;
pub use instruction::Instruction;
pub use memory::Memory;
pub use register::Register;
