pub mod opcode_data;
pub mod program_status_word;
pub mod processor;
pub mod alu;
pub mod modes;
pub mod forms;
pub mod forms2;
pub mod forms3;
pub mod step;
pub mod format;
