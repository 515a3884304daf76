//! An immutable textual key that is either borrowed from text living for the
//! whole program or owns a heap buffer of its own.
pub mod dynamic;
pub mod laws;

pub use dynamic::Key;
