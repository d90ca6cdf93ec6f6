//! What the host tells a session: its error numbers and their descriptions.

use vstd::prelude::*;

verus! {

/// Whether a number is one that some host gives to a call cut short by a
/// signal.
pub open spec fn is_interruption(code: i32) -> bool {
    code == 4 || code == 17 || code == 27 || code == 1073741828 || code == -2147483638
}

/// Whether a number is one that some host gives to a wait that ran out of
/// time.
pub open spec fn is_timeout(code: i32) -> bool {
    code == 60 || code == 73 || code == 78 || code == 110 || code == 116 || code == 138 || code
        == 145 || code == 260 || code == 1073741884 || code == -2147483639
}

/// Whether a number is one that some host gives to a request that would
/// have to wait for another holder.
pub open spec fn is_would_block(code: i32) -> bool {
    code == 6 || code == 11 || code == 35 || code == 41 || code == 70 || code == 140 || code
        == 1073741859 || code == -2147483637
}

/// Reads `libc::EINTR`, the error number of a call cut short by a signal.
/// Its value differs between hosts; the contract lists every value that libc
/// gives it on some target.
#[verifier::external_body]
fn interrupted_code() -> (code: i32)
    ensures
        is_interruption(code),
{
    libc::EINTR
}

/// Reads `libc::ETIMEDOUT`, the error number of a wait that ran out of time.
/// Its value differs between hosts; the contract lists every value that libc
/// gives it on some target.
#[verifier::external_body]
fn timed_out_code() -> (code: i32)
    ensures
        is_timeout(code),
{
    libc::ETIMEDOUT
}

/// Reads `libc::EWOULDBLOCK`, the error number of a lock that another holder
/// has. Its value differs between hosts; the contract lists every value that
/// libc gives it on some target.
#[verifier::external_body]
fn would_block_code() -> (code: i32)
    ensures
        is_would_block(code),
{
    libc::EWOULDBLOCK
}

/// Calls `errno::errno` and takes the number out of what it returns: the
/// error number that the last failed call left for this thread. Nothing is
/// claimed of it.
#[verifier::external_body]
pub(crate) fn last_error() -> (errno: i32) {
    errno::errno().0
}

/// Formats an `errno::Errno` through its `Display`: the host's description
/// of an error number. The text depends on the host and its settings, so
/// nothing is claimed of it.
#[verifier::external_body]
pub(crate) fn describe(errno: i32) -> (text: String) {
    format!("{}", errno::Errno(errno))
}

/// The error numbers that decide how a session goes on after a failed call.
#[derive(Clone, Copy, PartialEq, Eq, Debug)]
pub struct Codes {
    /// A signal cut the call short.
    pub interrupted: i32,
    /// The wait ran out of time.
    pub timed_out: i32,
    /// Another holder has the lock.
    pub would_block: i32,
}

impl Codes {
    /// Whether each of the three numbers is one that some host gives to its
    /// error.
    pub open spec fn of_some_host(self) -> bool {
        is_interruption(self.interrupted) && is_timeout(self.timed_out) && is_would_block(
            self.would_block,
        )
    }

    /// Whether a wait that ran out of time can be told from one that a signal
    /// cut short.
    pub open spec fn tells_timeout_apart(self) -> bool {
        self.timed_out != self.interrupted
    }

    /// The error numbers of this host. On every host the number of a wait
    /// that ran out of time differs from that of an interrupted call, so a
    /// session never takes the one for the other.
    pub fn host() -> (codes: Codes)
        ensures
            codes.of_some_host(),
            codes.tells_timeout_apart(),
    {
        Codes {
            interrupted: interrupted_code(),
            timed_out: timed_out_code(),
            would_block: would_block_code(),
        }
    }
}

} // verus!
