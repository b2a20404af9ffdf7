//! The logic of an LC-3 desktop backend: what each of its commands does to the
//! simulator, to the loaded object file and to the console.

pub mod assembly;
pub mod console;
pub mod ensemble;
pub mod execution;
pub mod breakpoints;
pub mod laws;
pub mod listing;
pub mod machine;
pub mod memory;
pub mod registers;
pub mod results;
pub mod text;
