//! A crowdfunding program for Solana: a maker opens a fundraiser for a token
//! mint, contributors send tokens to its vault, the maker collects them once the
//! target is met, and contributors take their tokens back while it is not.
//!
//! The library holds the program's rules: the byte layouts of its instruction
//! data and accounts, the little-endian amount arithmetic, and for each
//! instruction the function that decides, from the values read from the accounts,
//! whether the instruction fails and which state and transfers it produces.
pub mod helpers;
pub mod constants;
pub mod error;
pub mod state;
pub mod accounts;
pub mod instructions;
pub mod pda;
