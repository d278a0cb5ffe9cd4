pub mod operation1;
pub mod operation2;
