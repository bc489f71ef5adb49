pub mod alu;
pub mod alu2;
pub mod bus;
pub mod calls;
pub mod control;
pub mod dispatch;
pub mod flag;
pub mod forms;
pub mod interrupts;
pub mod modes;
pub mod processor;
pub mod specials;
pub mod stack;
pub mod status_register;
pub mod step;
pub mod u24;
