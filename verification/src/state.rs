//! The program's accounts and their byte layouts.
pub mod contributor;
pub mod fundraiser;
