pub mod instruction;
pub mod machine;
pub mod memory;
pub mod register;
