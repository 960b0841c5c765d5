//! A cooperative cancellation signal: a clonable handle whose clones share
//! one state, which waiters check and producers raise.
use vstd::prelude::*;

pub mod state;
pub mod token;

pub use state::{Polled, SignalState, Step, Triggered};
pub use token::CancelationToken;

verus! {

} // verus!
