pub mod cpu;
pub mod flags_register;
pub mod instruction;
pub mod instruction_implementation;
pub mod instruction_table;
