pub mod bus;
pub mod memory;
