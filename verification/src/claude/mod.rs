//! The bridge to an assistant that runs as a program and is spoken to line by line.
//!
//! The name under which the program is installed comes from whoever runs the bridge;
//! messages to clients carry it.
pub mod process;
pub mod process_laws;
pub mod turn;
pub mod turn_laws;
