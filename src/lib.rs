//! A single-slot container whose held value can be overwritten, exchanged
//! with another container's, or replaced with the old one handed back.

pub mod cell;
pub mod laws;
