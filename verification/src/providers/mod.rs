//! The three metadata conventions that a page may follow. Each is a fixed
//! table from a field to the key under which the convention declares it.

pub mod og;
pub mod schema;
pub mod twitter;
