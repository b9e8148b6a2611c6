//! Account logic of the CSTR treasury and token programs.
//!
//! Every instruction of the two programs is written here as a function from the
//! account data it reads to the account data it writes and the event it emits.
//! Reading the clock, moving lamports and emitting events are left to the
//! program glue; the decisions, the bookkeeping and the arithmetic are here.

pub mod keys;
pub mod error;
pub mod state;
pub mod events;
pub mod treasury;
pub mod token;
pub mod laws;
