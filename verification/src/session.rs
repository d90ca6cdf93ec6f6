//! One participant's side of the locking protocol.
//!
//! A session makes no system call. It answers each event, the outcome of the
//! call it asked for last, with the next call to make, until the critical
//! section is over. Whoever drives it performs the calls.

use crate::clock::deadline;
use crate::clock::deadline_after;
use crate::clock::read_clock;
use crate::clock::Deadline;
use crate::clock::Reading;
use crate::error::SemalockError;
use crate::error::SemaphoreCall;
use crate::host::last_error;
use crate::host::Codes;
use crate::name::name_for_hash;
use crate::name::hash_path;
use crate::name::name_of_hash;
use crate::name::path_hash;
use vstd::prelude::*;

verus! {

/// The permissions that a semaphore is created with.
pub const SEMAPHORE_MODE: u32 = 0o644;

/// The count that a semaphore is created with: one turn.
pub const SEMAPHORE_TURNS: u32 = 1;

/// Where a session stands; each phase but the two of rest waits for the
/// outcome of one call.
#[derive(Clone, Copy, PartialEq, Eq, Debug)]
pub enum Phase {
    /// The semaphore is being opened or created.
    Opening,
    /// At rest, between critical sections.
    Idle,
    /// The clock is being read, to set the deadline of the next wait.
    Timing,
    /// The timed wait on the semaphore is under way.
    Waiting,
    /// The blocking request for the exclusive file lock is under way.
    Locking,
    /// Inside the critical section: the file lock is held.
    Held,
    /// The file lock is being given back.
    Unlocking,
    /// The semaphore's count is being read.
    Inspecting,
    /// The semaphore is being incremented.
    Posting,
    /// Over: the session was used up, or never came to life.
    Closed,
}

/// The outcome of the call that a session asked for.
#[derive(Clone, Copy, PartialEq, Eq, Debug)]
pub enum Event {
    /// The call returned success, or the caller's operation has returned.
    Done,
    /// The call failed and left this error number.
    Failed(i32),
    /// The semaphore's count was read.
    Count(i32),
    /// The clock was consulted.
    Clock(Reading),
}

/// What a session asks its driver to do next.
#[derive(PartialEq, Eq, Debug)]
pub enum Action {
    /// Open the named semaphore, creating it with the mode and the count of
    /// the two constants if it does not exist.
    Open,
    /// Read the clock.
    ReadClock,
    /// Wait on the semaphore until it can be decremented or the deadline
    /// passes.
    Wait(Deadline),
    /// Take the exclusive file lock, blocking until it is granted.
    Lock,
    /// Run the caller's operation, once.
    Run,
    /// Remove the semaphore's name from the kernel's namespace.
    Remove,
    /// Give the file lock back.
    Unlock,
    /// Read the semaphore's count. The answer is the count; `Done` without a
    /// count, from a host that cannot read it, has the semaphore incremented
    /// unseen.
    Inspect,
    /// Increment the semaphore.
    Post,
    /// Nothing more: what was begun is over, with this result.
    Finish(Result<(), SemalockError>),
    /// Nothing: the session is at rest.
    Rest,
    /// Nothing new: the session still waits for the outcome of the call that
    /// it asked for before. That call is not to be made again.
    Busy,
}

/// What a session remembers from one event to the next.
#[derive(Clone, Copy, PartialEq, Eq, Debug)]
pub struct State {
    /// The call that is under way.
    pub phase: Phase,
    /// Whether this session decremented the semaphore for the critical
    /// section that is under way.
    pub turn: bool,
    /// Whether the critical section under way removes the semaphore and ends
    /// the session.
    pub reset: bool,
    /// The error number of a removal that failed, kept until the lock is
    /// released.
    pub removal: Option<i32>,
    /// The deadline of the wait under way.
    pub until: Deadline,
}

impl State {
    /// The state of a session whose file has just been opened.
    pub open spec fn fresh() -> State {
        State {
            phase: Phase::Opening,
            turn: false,
            reset: false,
            removal: None,
            until: Deadline { sec: 0, nsec: 0 },
        }
    }

    /// What holds of the state of every session.
    pub open spec fn wf(self) -> bool {
        &&& (self.phase is Opening || self.phase is Idle || self.phase is Closed) ==> !self.turn
            && !self.reset
        &&& (self.phase is Timing || self.phase is Waiting) ==> !self.turn
        &&& self.removal is Some ==> self.reset && (self.phase is Unlocking
            || self.phase is Inspecting || self.phase is Posting)
    }

    /// The call that the session waits for.
    pub open spec fn pending(self) -> Action {
        match self.phase {
            Phase::Opening => Action::Open,
            Phase::Idle => Action::Rest,
            Phase::Timing => Action::ReadClock,
            Phase::Waiting => Action::Wait(self.until),
            Phase::Locking => Action::Lock,
            Phase::Held => if self.reset {
                Action::Remove
            } else {
                Action::Run
            },
            Phase::Unlocking => Action::Unlock,
            Phase::Inspecting => Action::Inspect,
            Phase::Posting => Action::Post,
            Phase::Closed => Action::Rest,
        }
    }

    /// The answer to an event, or to a request to begin, that changes
    /// nothing.
    pub open spec fn unmoved(self) -> Action {
        if self.phase is Idle || self.phase is Closed {
            Action::Rest
        } else {
            Action::Busy
        }
    }

    /// The same state in another phase.
    pub open spec fn at(self, phase: Phase) -> State {
        State { phase, ..self }
    }

    /// The state after a critical section: at rest, or closed if the section
    /// was the one that removes the semaphore.
    pub open spec fn settled(self) -> State {
        State {
            phase: if self.reset {
                Phase::Closed
            } else {
                Phase::Idle
            },
            turn: false,
            reset: false,
            removal: None,
            until: self.until,
        }
    }

    /// The result of a critical section that ends with `release`: a failure
    /// to acquire or release comes first, then a failure to remove the
    /// semaphore.
    pub open spec fn outcome(self, release: Result<(), SemalockError>) -> Result<
        (),
        SemalockError,
    > {
        if release is Err {
            release
        } else if self.removal is Some {
            Err(SemalockError::UnlinkFailed { errno: self.removal->0 })
        } else {
            Ok(())
        }
    }

    /// The end of a critical section.
    pub open spec fn finish(self, release: Result<(), SemalockError>) -> (State, Action) {
        (self.settled(), Action::Finish(self.outcome(release)))
    }

    /// The start of a critical section, an ordinary one or the one that
    /// removes the semaphore. A session that is busy or closed stays as it is
    /// and asks for nothing.
    pub open spec fn begin(self, reset: bool) -> (State, Action) {
        if self.phase is Idle {
            (
                State { phase: Phase::Timing, turn: false, reset, removal: None, until: self.until },
                Action::ReadClock,
            )
        } else {
            (self, self.unmoved())
        }
    }

    /// The protocol: the state after an event, and the call to make next.
    ///
    /// An event that does not answer the call under way changes nothing, and
    /// the session asks for nothing: no call is ever asked for twice on one
    /// outcome.
    pub open spec fn next(self, codes: Codes, event: Event) -> (State, Action) {
        match (self.phase, event) {
            (Phase::Opening, Event::Done) => (self.at(Phase::Idle), Action::Finish(Ok(()))),
            (Phase::Opening, Event::Failed(errno)) => (
                self.at(Phase::Closed),
                Action::Finish(Err(SemalockError::SemaphoreOpenFailed { errno })),
            ),
            (Phase::Timing, Event::Clock(Reading::At { secs, nanos })) => (
                State { phase: Phase::Waiting, until: deadline_after(secs, nanos), ..self },
                Action::Wait(deadline_after(secs, nanos)),
            ),
            (Phase::Timing, Event::Clock(Reading::Unreadable)) => self.finish(
                Err(SemalockError::ClockFailed),
            ),
            (Phase::Waiting, Event::Done) => (
                State { phase: Phase::Locking, turn: true, ..self },
                Action::Lock,
            ),
            (Phase::Waiting, Event::Failed(errno)) => if errno == codes.interrupted {
                (self.at(Phase::Timing), Action::ReadClock)
            } else if errno == codes.timed_out {
                (self.at(Phase::Locking), Action::Lock)
            } else {
                self.finish(
                    Err(SemalockError::SemaphoreFatal { call: SemaphoreCall::Wait, errno }),
                )
            },
            (Phase::Locking, Event::Done) => (
                self.at(Phase::Held),
                self.at(Phase::Held).pending(),
            ),
            (Phase::Locking, Event::Failed(errno)) => if self.turn {
                if errno == codes.interrupted {
                    (self, Action::Lock)
                } else {
                    self.finish(Err(SemalockError::AcquireFailed { errno }))
                }
            } else {
                if errno == codes.interrupted || errno == codes.would_block {
                    (self.at(Phase::Timing), Action::ReadClock)
                } else {
                    self.finish(Err(SemalockError::AcquireFailed { errno }))
                }
            },
            (Phase::Held, Event::Done) => (self.at(Phase::Unlocking), Action::Unlock),
            (Phase::Held, Event::Failed(errno)) => if self.reset {
                (State { phase: Phase::Unlocking, removal: Some(errno), ..self }, Action::Unlock)
            } else {
                (self, self.unmoved())
            },
            (Phase::Unlocking, Event::Done) => (self.at(Phase::Inspecting), Action::Inspect),
            (Phase::Unlocking, Event::Failed(errno)) => self.finish(
                Err(SemalockError::ReleaseFailed { errno }),
            ),
            (Phase::Inspecting, Event::Count(count)) => if count == 0 {
                (self.at(Phase::Posting), Action::Post)
            } else {
                self.finish(Ok(()))
            },
            (Phase::Inspecting, Event::Done) => (self.at(Phase::Posting), Action::Post),
            (Phase::Inspecting, Event::Failed(errno)) => self.finish(
                Err(SemalockError::SemaphoreFatal { call: SemaphoreCall::Inspect, errno }),
            ),
            (Phase::Posting, Event::Done) => self.finish(Ok(())),
            (Phase::Posting, Event::Failed(errno)) => self.finish(
                Err(SemalockError::SemaphoreFatal { call: SemaphoreCall::Post, errno }),
            ),
            _ => (self, self.unmoved()),
        }
    }
}

/// The protocol keeps every state well formed.
pub proof fn lemma_next_keeps_wf(state: State, codes: Codes, event: Event)
    requires
        state.wf(),
    ensures
        state.next(codes, event).0.wf(),
        state.begin(true).0.wf(),
        state.begin(false).0.wf(),
{
}

/// The file lock is the only way in: a session is inside its critical section
/// after an event only if it was there before, or if the event is the grant of
/// the file lock that it asked for. No failed request lets it in, whatever
/// the error number, and no state of the semaphore does.
pub proof fn lemma_lock_is_the_only_way_in(state: State, codes: Codes, event: Event)
    requires
        state.next(codes, event).0.phase is Held,
    ensures
        state.phase is Held || (state.phase is Locking && event is Done),
{
}

/// The operation runs once: the session asks for it only in answer to the
/// grant of the file lock, which takes it into its critical section, and it
/// leaves the critical section on the first report that the operation has
/// ended, asking for the file lock to be given back. The same holds of the
/// removal in the section that removes the semaphore.
pub proof fn lemma_operation_runs_once(state: State, codes: Codes, event: Event)
    ensures
        state.next(codes, event).1 == Action::Run || state.next(codes, event).1 == Action::Remove
            ==> state.phase is Locking && event is Done && state.next(codes, event).0.phase is Held,
        state.next(codes, event).1 == Action::Run ==> !state.reset,
        state.next(codes, event).1 == Action::Remove ==> state.reset,
        state.phase is Held ==> state.next(codes, Event::Done) == (
            state.at(Phase::Unlocking),
            Action::Unlock,
        ),
{
}

/// No call on the semaphore is asked for twice on one outcome: a wait is
/// asked for only when the clock has been read, and an increment only when
/// the count has been looked at.
pub proof fn lemma_semaphore_calls_follow_their_cause(state: State, codes: Codes, event: Event)
    ensures
        state.next(codes, event).1 is Wait ==> state.phase is Timing && event is Clock,
        state.next(codes, event).1 == Action::Post ==> state.phase is Inspecting && !(event
            is Failed),
        state.next(codes, event).1 == Action::Unlock ==> state.phase is Held,
{
}

/// Recovery is open to every session: from rest, a wait that runs out of
/// time leads to the request for the file lock, and its grant leads into the
/// critical section, without a turn of the semaphore.
pub proof fn lemma_session_recovers(session: Session, secs: u64, nanos: u32)
    requires
        session.wf(),
        session.state.phase is Idle,
    ensures
        ({
            let timing = session.with_state(session.state.begin(false).0);
            let waiting = timing.after(Event::Clock(Reading::At { secs, nanos }));
            let locking = waiting.after(Event::Failed(session.codes.timed_out));
            let inside = locking.after(Event::Done);
            &&& timing.answer(Event::Clock(Reading::At { secs, nanos })) == Action::Wait(
                deadline_after(secs, nanos),
            )
            &&& waiting.answer(Event::Failed(session.codes.timed_out)) == Action::Lock
            &&& locking.answer(Event::Done) == Action::Run
            &&& inside.state.phase is Held
            &&& !inside.state.turn
            &&& inside.wf()
        }),
{
}

/// A critical section ends at rest: when the session has nothing more to
/// ask, it has forgotten the section, and it is closed if the section was the
/// one that removes the semaphore, and ready for the next one otherwise.
pub proof fn lemma_section_ends_at_rest(state: State, codes: Codes, event: Event)
    requires
        state.wf(),
        !(state.phase is Opening),
        state.next(codes, event).1 is Finish,
    ensures
        state.next(codes, event).0 == state.settled(),
        state.reset ==> state.next(codes, event).0.phase is Closed,
        !state.reset ==> state.next(codes, event).0.phase is Idle,
{
}

/// A session as contracts see it.
pub struct Session {
    /// The hash of the path that the session guards.
    pub identity: u64,
    /// The name of its semaphore.
    pub name: Seq<char>,
    /// The host's error numbers.
    pub codes: Codes,
    /// Where the session stands.
    pub state: State,
}

impl Session {
    /// What holds of every session: the name is the one that its path has,
    /// the state is well formed, and a wait that ran out of time can be told
    /// from one that a signal cut short.
    pub open spec fn wf(self) -> bool {
        &&& self.name == name_of_hash(self.identity)
        &&& self.state.wf()
        &&& self.codes.tells_timeout_apart()
    }

    /// The session in another state.
    pub open spec fn with_state(self, state: State) -> Session {
        Session { state, ..self }
    }

    /// The session after an event.
    pub open spec fn after(self, event: Event) -> Session {
        self.with_state(self.state.next(self.codes, event).0)
    }

    /// The call that the session asks for in answer to an event.
    pub open spec fn answer(self, event: Event) -> Action {
        self.state.next(self.codes, event).1
    }
}

/// One participant in the locking of one path.
pub struct Semalock {
    identity: u64,
    name: String,
    codes: Codes,
    state: State,
}

impl View for Semalock {
    type V = Session;

    closed spec fn view(&self) -> Session {
        Session { identity: self.identity, name: self.name@, codes: self.codes, state: self.state }
    }
}

impl Semalock {
    #[verifier::type_invariant]
    spec fn inv(self) -> bool {
        self@.wf()
    }

    /// The session for `path` on a host with the given error numbers, once
    /// the attempt to open or create the file has ended as `file` says. No
    /// file, no session: the error carries the reason. With the file open the
    /// session is there, and waits for its semaphore to be opened. The number
    /// of a wait that ran out of time must differ from that of an interrupted
    /// call, as it does on every host.
    pub fn with_codes(path: &str, file: Result<(), String>, codes: Codes) -> (session: Result<
        Semalock,
        SemalockError,
    >)
        requires
            codes.tells_timeout_apart(),
        ensures
            file is Ok ==> session is Ok && session->Ok_0@ == (Session {
                identity: path_hash(path@),
                name: name_of_hash(path_hash(path@)),
                codes,
                state: State::fresh(),
            }),
            file is Err ==> session == Err::<Semalock, SemalockError>(
                SemalockError::OpenFailed { description: file->Err_0 },
            ),
    {
        match file {
            Ok(()) => {
                let identity = hash_path(path);
                Ok(
                    Semalock {
                        identity,
                        name: name_for_hash(identity),
                        codes,
                        state: State {
                            phase: Phase::Opening,
                            turn: false,
                            reset: false,
                            removal: None,
                            until: Deadline { sec: 0, nsec: 0 },
                        },
                    },
                )
            },
            Err(description) => Err(SemalockError::OpenFailed { description }),
        }
    }

    /// The session for `path` on this host, once the attempt to open or
    /// create the file has ended as `file` says.
    pub fn new(path: &str, file: Result<(), String>) -> (session: Result<Semalock, SemalockError>)
        ensures
            file is Ok ==> session is Ok && session->Ok_0@.identity == path_hash(path@)
                && session->Ok_0@.name == name_of_hash(path_hash(path@)) && session->Ok_0@.state
                == State::fresh() && session->Ok_0@.codes.of_some_host()
                && session->Ok_0@.wf(),
            file is Err ==> session == Err::<Semalock, SemalockError>(
                SemalockError::OpenFailed { description: file->Err_0 },
            ),
    {
        Semalock::with_codes(path, file, Codes::host())
    }

    /// The name of the session's semaphore.
    pub fn name(&self) -> (name: &str)
        ensures
            name@ == self@.name,
            self@.wf(),
    {
        proof {
            use_type_invariant(self);
        }
        self.name.as_str()
    }

    /// The hash of the path that the session guards.
    pub fn identity(&self) -> (identity: u64)
        ensures
            identity == self@.identity,
    {
        self.identity
    }

    /// The error numbers that the session goes by.
    pub fn codes(&self) -> (codes: Codes)
        ensures
            codes == self@.codes,
    {
        self.codes
    }

    /// Where the session stands.
    pub fn state(&self) -> (state: State)
        ensures
            state == self@.state,
            state.wf(),
    {
        proof {
            use_type_invariant(self);
        }
        self.state
    }

    /// The call that is under way.
    pub fn phase(&self) -> (phase: Phase)
        ensures
            phase == self@.state.phase,
    {
        self.state.phase
    }

    /// Whether the session is inside its critical section.
    pub fn is_held(&self) -> (held: bool)
        ensures
            held == (self@.state.phase is Held),
    {
        match self.state.phase {
            Phase::Held => true,
            _ => false,
        }
    }

    /// The call that the session waits for.
    pub fn pending(&self) -> (action: Action)
        ensures
            action == self@.state.pending(),
    {
        match self.state.phase {
            Phase::Opening => Action::Open,
            Phase::Idle => Action::Rest,
            Phase::Timing => Action::ReadClock,
            Phase::Waiting => Action::Wait(self.state.until),
            Phase::Locking => Action::Lock,
            Phase::Held => if self.state.reset {
                Action::Remove
            } else {
                Action::Run
            },
            Phase::Unlocking => Action::Unlock,
            Phase::Inspecting => Action::Inspect,
            Phase::Posting => Action::Post,
            Phase::Closed => Action::Rest,
        }
    }

    fn unmoved(&self) -> (action: Action)
        ensures
            action == self@.state.unmoved(),
    {
        match self.state.phase {
            Phase::Idle => Action::Rest,
            Phase::Closed => Action::Rest,
            _ => Action::Busy,
        }
    }

    fn begin(&mut self, reset: bool) -> (action: Action)
        ensures
            final(self)@ == old(self)@.with_state(old(self)@.state.begin(reset).0),
            action == old(self)@.state.begin(reset).1,
    {
        proof {
            use_type_invariant(&*self);
        }
        match self.state.phase {
            Phase::Idle => {
                self.state = State {
                    phase: Phase::Timing,
                    turn: false,
                    reset,
                    removal: None,
                    until: self.state.until,
                };
                Action::ReadClock
            },
            _ => self.unmoved(),
        }
    }

    /// Begins a critical section: the session will acquire the lock, ask for
    /// the caller's operation to be run once, and release the lock. A session
    /// that is busy or closed stays as it is.
    pub fn with(&mut self) -> (action: Action)
        ensures
            final(self)@ == old(self)@.with_state(old(self)@.state.begin(false).0),
            action == old(self)@.state.begin(false).1,
    {
        self.begin(false)
    }

    /// Begins the critical section that removes the semaphore from the
    /// kernel's namespace and ends the session: the removal happens under the
    /// lock, and the session is closed when the section is over, however it
    /// went. A session that is busy or closed stays as it is.
    pub fn unlink(&mut self) -> (action: Action)
        ensures
            final(self)@ == old(self)@.with_state(old(self)@.state.begin(true).0),
            action == old(self)@.state.begin(true).1,
    {
        self.begin(true)
    }

    fn finish(&mut self, release: Result<(), SemalockError>) -> (action: Action)
        ensures
            final(self)@ == old(self)@.with_state(old(self)@.state.finish(release).0),
            action == old(self)@.state.finish(release).1,
    {
        proof {
            use_type_invariant(&*self);
        }
        let result = match release {
            Err(error) => Err(error),
            Ok(()) => match self.state.removal {
                Some(errno) => Err(SemalockError::UnlinkFailed { errno }),
                None => Ok(()),
            },
        };
        self.state = State {
            phase: if self.state.reset {
                Phase::Closed
            } else {
                Phase::Idle
            },
            turn: false,
            reset: false,
            removal: None,
            until: self.state.until,
        };
        Action::Finish(result)
    }

    fn move_to(&mut self, phase: Phase)
        requires
            old(self)@.state.at(phase).wf(),
        ensures
            final(self)@ == old(self)@.with_state(old(self)@.state.at(phase)),
    {
        proof {
            use_type_invariant(&*self);
        }
        self.state = State { phase, ..self.state };
    }

    /// Takes the outcome of the call that the session asked for, and says
    /// which call to make next.
    pub fn advance(&mut self, event: Event) -> (action: Action)
        ensures
            final(self)@ == old(self)@.after(event),
            action == old(self)@.answer(event),
            final(self)@.wf(),
    {
        proof {
            use_type_invariant(&*self);
            lemma_next_keeps_wf(self@.state, self@.codes, event);
        }
        let state = self.state;
        let codes = self.codes;
        match (state.phase, event) {
            (Phase::Opening, Event::Done) => {
                self.move_to(Phase::Idle);
                Action::Finish(Ok(()))
            },
            (Phase::Opening, Event::Failed(errno)) => {
                self.move_to(Phase::Closed);
                Action::Finish(Err(SemalockError::SemaphoreOpenFailed { errno }))
            },
            (Phase::Timing, Event::Clock(Reading::At { secs, nanos })) => {
                let until = deadline(secs, nanos);
                self.state = State { phase: Phase::Waiting, until, ..state };
                Action::Wait(until)
            },
            (Phase::Timing, Event::Clock(Reading::Unreadable)) => self.finish(
                Err(SemalockError::ClockFailed),
            ),
            (Phase::Waiting, Event::Done) => {
                self.state = State { phase: Phase::Locking, turn: true, ..state };
                Action::Lock
            },
            (Phase::Waiting, Event::Failed(errno)) => {
                if errno == codes.interrupted {
                    self.move_to(Phase::Timing);
                    Action::ReadClock
                } else if errno == codes.timed_out {
                    self.move_to(Phase::Locking);
                    Action::Lock
                } else {
                    self.finish(
                        Err(SemalockError::SemaphoreFatal { call: SemaphoreCall::Wait, errno }),
                    )
                }
            },
            (Phase::Locking, Event::Done) => {
                self.move_to(Phase::Held);
                self.pending()
            },
            (Phase::Locking, Event::Failed(errno)) => {
                if state.turn {
                    if errno == codes.interrupted {
                        Action::Lock
                    } else {
                        self.finish(Err(SemalockError::AcquireFailed { errno }))
                    }
                } else {
                    if errno == codes.interrupted || errno == codes.would_block {
                        self.move_to(Phase::Timing);
                        Action::ReadClock
                    } else {
                        self.finish(Err(SemalockError::AcquireFailed { errno }))
                    }
                }
            },
            (Phase::Held, Event::Done) => {
                self.move_to(Phase::Unlocking);
                Action::Unlock
            },
            (Phase::Held, Event::Failed(errno)) => {
                if state.reset {
                    self.state = State { phase: Phase::Unlocking, removal: Some(errno), ..state };
                    Action::Unlock
                } else {
                    self.unmoved()
                }
            },
            (Phase::Unlocking, Event::Done) => {
                self.move_to(Phase::Inspecting);
                Action::Inspect
            },
            (Phase::Unlocking, Event::Failed(errno)) => self.finish(
                Err(SemalockError::ReleaseFailed { errno }),
            ),
            (Phase::Inspecting, Event::Count(count)) => {
                if count == 0 {
                    self.move_to(Phase::Posting);
                    Action::Post
                } else {
                    self.finish(Ok(()))
                }
            },
            (Phase::Inspecting, Event::Done) => {
                self.move_to(Phase::Posting);
                Action::Post
            },
            (Phase::Inspecting, Event::Failed(errno)) => self.finish(
                Err(SemalockError::SemaphoreFatal { call: SemaphoreCall::Inspect, errno }),
            ),
            (Phase::Posting, Event::Done) => self.finish(Ok(())),
            (Phase::Posting, Event::Failed(errno)) => self.finish(
                Err(SemalockError::SemaphoreFatal { call: SemaphoreCall::Post, errno }),
            ),
            _ => self.unmoved(),
        }
    }

    /// Takes the return value of the system call that the session asked for,
    /// and says which call to make next. Zero is success. Anything else is
    /// failure, with the error number that the call left for this thread.
    pub fn step(&mut self, code: i32) -> (action: Action)
        ensures
            code == 0 ==> {
                &&& final(self)@ == old(self)@.after(Event::Done)
                &&& action == old(self)@.answer(Event::Done)
            },
            code != 0 ==> exists|errno: i32|
                {
                    &&& final(self)@ == old(self)@.after(Event::Failed(errno))
                    &&& action == old(self)@.answer(Event::Failed(errno))
                },
            final(self)@.wf(),
    {
        if code == 0 {
            self.advance(Event::Done)
        } else {
            let errno = last_error();
            self.advance(Event::Failed(errno))
        }
    }

    /// Reads the clock for the session that asked for it, and says which
    /// call to make next.
    pub fn tick(&mut self) -> (action: Action)
        ensures
            exists|reading: Reading|
                {
                    &&& reading matches Reading::At { nanos, .. } ==> nanos < 1_000_000_000
                    &&& final(self)@ == old(self)@.after(Event::Clock(reading))
                    &&& action == old(self)@.answer(Event::Clock(reading))
                },
            final(self)@.wf(),
    {
        let reading = read_clock();
        self.advance(Event::Clock(reading))
    }
}

} // verus!
