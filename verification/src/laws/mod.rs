//! Laws of the library, stated of what its functions return.
//!
//! Each law takes the arguments and the result of one or more calls, and says in
//! plain terms (fields, numbers and texts written out) how they relate.

pub mod downloads;
pub mod media;
pub mod polling;
pub mod settings;
pub mod texts;
pub mod tools;
