//! Witness execution for compiled circuits: the solve / suspend / resume
//! driver, the foreign-call dispatcher it consults, and the syntax-tree nodes
//! for trait declarations together with their textual rendering.

pub mod ast;
pub mod errors;
pub mod execute;
pub mod foreign_call;
pub mod text;
pub mod value;
