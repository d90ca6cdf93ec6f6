//! A two-tier, path-keyed lock for processes on one machine, as a protocol
//! that performs no system call itself.
//!
//! A named counting semaphore parks waiters cheaply; an advisory exclusive
//! lock on the file is the authority on who is inside. A session here is the
//! state of one participant: it is told what each system call returned and
//! answers with the next call to make.

use vstd::prelude::*;

pub mod clock;
pub mod error;
pub mod host;
pub mod model;
pub mod name;
pub mod numeral;
pub mod session;

pub use crate::clock::Deadline;
pub use crate::clock::Reading;
pub use crate::error::SemalockError;
pub use crate::error::SemaphoreCall;
pub use crate::host::Codes;
pub use crate::session::Action;
pub use crate::session::Event;
pub use crate::session::Phase;
pub use crate::session::Semalock;
pub use crate::session::State;

verus! {

/// The sum of two numbers.
pub fn testing(one: i32, two: i32) -> (sum: i32)
    requires
        i32::MIN <= one + two <= i32::MAX,
    ensures
        sum == one + two,
{
    one + two
}

} // verus!
