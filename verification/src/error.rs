//! What can go wrong with a session, and how it is reported.

use crate::host::describe;
use crate::numeral::decimal;
use crate::numeral::push_decimal;
use vstd::prelude::*;
use vstd::string::StringExecFns;

verus! {

/// The calls on the semaphore whose failure ends a critical section.
#[derive(Clone, Copy, PartialEq, Eq, Debug)]
pub enum SemaphoreCall {
    /// The timed wait for a turn.
    Wait,
    /// Reading the count.
    Inspect,
    /// Giving the turn back.
    Post,
}

/// The single error that a caller sees when a session cannot go on.
#[derive(PartialEq, Eq, Debug)]
pub enum SemalockError {
    /// The file could not be opened or created.
    OpenFailed { description: String },
    /// The semaphore's name could not be handed to the kernel.
    NameConstructionFailed,
    /// The semaphore could not be opened or created.
    SemaphoreOpenFailed { errno: i32 },
    /// The clock stands before the epoch, so no deadline can be set.
    ClockFailed,
    /// A call on the semaphore failed for a reason that no retry mends.
    SemaphoreFatal { call: SemaphoreCall, errno: i32 },
    /// The exclusive file lock could not be taken.
    AcquireFailed { errno: i32 },
    /// The exclusive file lock could not be given back.
    ReleaseFailed { errno: i32 },
    /// The semaphore could not be removed.
    UnlinkFailed { errno: i32 },
}

impl Clone for SemalockError {
    fn clone(&self) -> (copy: Self)
        ensures
            copy == *self,
    {
        match self {
            SemalockError::OpenFailed { description } => SemalockError::OpenFailed {
                description: description.clone(),
            },
            SemalockError::NameConstructionFailed => SemalockError::NameConstructionFailed,
            SemalockError::SemaphoreOpenFailed { errno } => SemalockError::SemaphoreOpenFailed {
                errno: *errno,
            },
            SemalockError::ClockFailed => SemalockError::ClockFailed,
            SemalockError::SemaphoreFatal { call, errno } => SemalockError::SemaphoreFatal {
                call: *call,
                errno: *errno,
            },
            SemalockError::AcquireFailed { errno } => SemalockError::AcquireFailed {
                errno: *errno,
            },
            SemalockError::ReleaseFailed { errno } => SemalockError::ReleaseFailed {
                errno: *errno,
            },
            SemalockError::UnlinkFailed { errno } => SemalockError::UnlinkFailed {
                errno: *errno,
            },
        }
    }
}

impl SemalockError {
    /// The error number that the failed system call left, if the error comes
    /// from one.
    pub open spec fn errno_of(self) -> Option<i32> {
        match self {
            SemalockError::OpenFailed { .. } => None,
            SemalockError::NameConstructionFailed => None,
            SemalockError::SemaphoreOpenFailed { errno } => Some(errno),
            SemalockError::ClockFailed => None,
            SemalockError::SemaphoreFatal { errno, .. } => Some(errno),
            SemalockError::AcquireFailed { errno } => Some(errno),
            SemalockError::ReleaseFailed { errno } => Some(errno),
            SemalockError::UnlinkFailed { errno } => Some(errno),
        }
    }

    /// What a message starts with: the system call that failed, or the whole
    /// message where no system call did.
    pub open spec fn heading(self) -> Seq<char> {
        match self {
            SemalockError::OpenFailed { .. } => "OpenOptions::open failed: "@,
            SemalockError::NameConstructionFailed => "CString::new failed: nul byte found in data"@,
            SemalockError::SemaphoreOpenFailed { .. } => "sem_open "@,
            SemalockError::ClockFailed => "second time provided was later than self"@,
            SemalockError::SemaphoreFatal { call: SemaphoreCall::Wait, .. } => "sem_timedwait "@,
            SemalockError::SemaphoreFatal { call: SemaphoreCall::Inspect, .. } => "sem_getvalue "@,
            SemalockError::SemaphoreFatal { call: SemaphoreCall::Post, .. } => "sem_post "@,
            SemalockError::AcquireFailed { .. } => "flock "@,
            SemalockError::ReleaseFailed { .. } => "flock "@,
            SemalockError::UnlinkFailed { .. } => "sem_unlink "@,
        }
    }

    /// The message for this error, given the host's description of its error
    /// number: the failed call, the number in decimal, a colon and the
    /// description. An error without a number has its own text and uses no
    /// description.
    pub open spec fn rendered(self, description: Seq<char>) -> Seq<char> {
        match self {
            SemalockError::OpenFailed { description: reason } => self.heading() + reason@,
            SemalockError::NameConstructionFailed => self.heading(),
            SemalockError::ClockFailed => self.heading(),
            _ => self.heading() + decimal(self.errno_of()->0 as int) + ": "@ + description,
        }
    }

    /// The error number that the failed system call left, if the error comes
    /// from one.
    pub fn errno(&self) -> (errno: Option<i32>)
        ensures
            errno == self.errno_of(),
    {
        match self {
            SemalockError::OpenFailed { .. } => None,
            SemalockError::NameConstructionFailed => None,
            SemalockError::SemaphoreOpenFailed { errno } => Some(*errno),
            SemalockError::ClockFailed => None,
            SemalockError::SemaphoreFatal { errno, .. } => Some(*errno),
            SemalockError::AcquireFailed { errno } => Some(*errno),
            SemalockError::ReleaseFailed { errno } => Some(*errno),
            SemalockError::UnlinkFailed { errno } => Some(*errno),
        }
    }

    fn start(&self) -> (text: String)
        ensures
            text@ == self.heading(),
    {
        let heading = match self {
            SemalockError::OpenFailed { .. } => "OpenOptions::open failed: ",
            SemalockError::NameConstructionFailed => "CString::new failed: nul byte found in data",
            SemalockError::SemaphoreOpenFailed { .. } => "sem_open ",
            SemalockError::ClockFailed => "second time provided was later than self",
            SemalockError::SemaphoreFatal { call: SemaphoreCall::Wait, .. } => "sem_timedwait ",
            SemalockError::SemaphoreFatal { call: SemaphoreCall::Inspect, .. } => "sem_getvalue ",
            SemalockError::SemaphoreFatal { call: SemaphoreCall::Post, .. } => "sem_post ",
            SemalockError::AcquireFailed { .. } => "flock ",
            SemalockError::ReleaseFailed { .. } => "flock ",
            SemalockError::UnlinkFailed { .. } => "sem_unlink ",
        };
        String::from_str(heading)
    }

    /// The message for this error, given the host's description of its error
    /// number.
    pub fn render(&self, description: &str) -> (text: String)
        ensures
            text@ == self.rendered(description@),
    {
        let mut text = self.start();
        match self {
            SemalockError::OpenFailed { description: reason } => {
                text.append(reason.as_str());
            },
            SemalockError::NameConstructionFailed => {},
            SemalockError::ClockFailed => {},
            _ => {
                match self.errno() {
                    Some(errno) => {
                        push_decimal(&mut text, errno);
                        text.append(": ");
                        text.append(description);
                    },
                    None => {},
                }
            },
        }
        text
    }

    /// The message for this error. The host describes the error number, so
    /// that part of the text is whatever the host says.
    pub fn message(&self) -> (text: String)
        ensures
            exists|description: Seq<char>| text@ == self.rendered(description),
            self.errno_of() is None ==> text@ == self.rendered(Seq::empty()),
    {
        match self.errno() {
            Some(errno) => {
                let description = describe(errno);
                self.render(description.as_str())
            },
            None => self.render(""),
        }
    }
}

} // verus!
