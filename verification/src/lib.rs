pub mod error;
pub mod extract;
pub mod memscan;
pub mod runtime;
