//! The sessions of one path together with the kernel that serves them, and
//! what the protocol guarantees of every course that they can take.
//!
//! The kernel is reduced to what the protocol relies on: a counting semaphore
//! and an exclusive lock that at most one open file holds and that is gone
//! when its holder is. Nothing here runs; the sessions of the model move by
//! the same protocol that a running session follows.

use crate::clock::deadline_after;
use crate::clock::Reading;
use crate::host::Codes;
use crate::session::Action;
use crate::session::Event;
use crate::session::Phase;
use crate::session::State;
use vstd::prelude::*;

verus! {

/// The kernel's objects for one path, and the sessions that share them.
pub struct World {
    /// The host's error numbers.
    pub codes: Codes,
    /// The semaphore's count.
    pub count: nat,
    /// The session whose file holds the exclusive lock, if any does.
    pub holder: Option<nat>,
    /// The live sessions, each under a number of its own.
    pub sessions: Map<nat, State>,
}

/// One thing that happens to a world.
pub enum Move {
    /// A process opens the file and gets a session.
    Join(nat),
    /// A session begins an ordinary critical section.
    Enter(nat),
    /// A session begins the critical section that removes the semaphore.
    Reset(nat),
    /// The call that a session waits for ends with this outcome.
    Answer(nat, Event),
    /// A session disappears, whatever it was doing: its process died, or let
    /// go of it. Its file is closed with it.
    Vanish(nat),
    /// The semaphore's count changes behind the sessions' backs.
    Skew(nat),
}

impl World {
    /// The world before anyone has opened the path: a semaphore of one turn,
    /// a free lock and no session.
    pub open spec fn start(codes: Codes) -> World {
        World { codes, count: 1, holder: None, sessions: Map::empty() }
    }

    /// Whether the session `id` is alive and in the given phase.
    pub open spec fn is_in(self, id: nat, phase: Phase) -> bool {
        self.sessions.dom().contains(id) && self.sessions[id].phase == phase
    }

    /// Whether the session `id` is alive and inside its critical section.
    pub open spec fn inside(self, id: nat) -> bool {
        self.is_in(id, Phase::Held)
    }

    /// Whether the session `id` is alive and has a turn of the semaphore.
    pub open spec fn has_turn(self, id: nat) -> bool {
        self.sessions.dom().contains(id) && self.sessions[id].turn
    }

    /// Whether the kernel can end the call that a session in `state` waits
    /// for with this outcome: a wait succeeds only on a positive count, the
    /// lock is granted only if no other file holds it, and the count that is
    /// read is the count.
    pub open spec fn grants(self, id: nat, state: State, event: Event) -> bool {
        match (state.phase, event) {
            (Phase::Waiting, Event::Done) => self.count > 0,
            (Phase::Locking, Event::Done) => self.holder is None || self.holder == Some(id),
            (Phase::Inspecting, Event::Count(count)) => count == self.count,
            _ => true,
        }
    }

    /// The semaphore's count after the call of a session in `state` ended
    /// with this outcome.
    pub open spec fn count_after(self, state: State, event: Event) -> nat {
        match (state.phase, event) {
            (Phase::Waiting, Event::Done) => (self.count - 1) as nat,
            (Phase::Posting, Event::Done) => self.count + 1,
            _ => self.count,
        }
    }

    /// The lock's holder after the call of a session in `state` ended with
    /// this outcome.
    pub open spec fn holder_after(self, id: nat, state: State, event: Event) -> Option<nat> {
        match (state.phase, event) {
            (Phase::Locking, Event::Done) => Some(id),
            (Phase::Unlocking, Event::Done) => if self.holder == Some(id) {
                None
            } else {
                self.holder
            },
            _ => self.holder,
        }
    }

    /// Whether a move can happen in this world.
    pub open spec fn allows(self, step: Move) -> bool {
        match step {
            Move::Join(id) => !self.sessions.dom().contains(id),
            Move::Enter(id) => self.sessions.dom().contains(id),
            Move::Reset(id) => self.sessions.dom().contains(id),
            Move::Answer(id, event) => self.sessions.dom().contains(id) && self.grants(
                id,
                self.sessions[id],
                event,
            ),
            Move::Vanish(id) => self.sessions.dom().contains(id),
            Move::Skew(_) => true,
        }
    }

    /// The world after a move. A move that cannot happen changes nothing.
    pub open spec fn next(self, step: Move) -> World {
        if !self.allows(step) {
            self
        } else {
            match step {
                Move::Join(id) => World {
                    sessions: self.sessions.insert(id, State::fresh()),
                    ..self
                },
                Move::Enter(id) => World {
                    sessions: self.sessions.insert(id, self.sessions[id].begin(false).0),
                    ..self
                },
                Move::Reset(id) => World {
                    sessions: self.sessions.insert(id, self.sessions[id].begin(true).0),
                    ..self
                },
                Move::Answer(id, event) => World {
                    codes: self.codes,
                    count: self.count_after(self.sessions[id], event),
                    holder: self.holder_after(id, self.sessions[id], event),
                    sessions: self.sessions.insert(
                        id,
                        self.sessions[id].next(self.codes, event).0,
                    ),
                },
                Move::Vanish(id) => World {
                    holder: if self.holder == Some(id) {
                        None
                    } else {
                        self.holder
                    },
                    sessions: self.sessions.remove(id),
                    ..self
                },
                Move::Skew(count) => World { count, ..self },
            }
        }
    }

    /// The world after a course of moves.
    pub open spec fn run(self, course: Seq<Move>) -> World
        decreases course.len(),
    {
        if course.len() == 0 {
            self
        } else {
            self.run(course.drop_last()).next(course.last())
        }
    }

    /// Whether every session that is inside its critical section holds the
    /// file lock.
    pub open spec fn exclusive(self) -> bool {
        forall|id: nat| #[trigger] self.inside(id) ==> self.holder == Some(id)
    }

    /// Whether a move belongs to undisturbed operation: it can happen, nobody
    /// disappears in the middle of a critical section, nobody removes or
    /// disturbs the semaphore, no wait runs out of time, no request for the
    /// lock fails but one that a signal cuts short, and no call of a release
    /// fails.
    pub open spec fn calm(self, step: Move) -> bool {
        self.allows(step) && match step {
            Move::Join(_) => true,
            Move::Enter(_) => true,
            Move::Reset(_) => false,
            Move::Answer(id, Event::Failed(errno)) => match self.sessions[id].phase {
                Phase::Waiting => errno == self.codes.interrupted || errno
                    != self.codes.timed_out,
                Phase::Locking => errno == self.codes.interrupted,
                Phase::Unlocking => false,
                Phase::Inspecting => false,
                Phase::Posting => false,
                _ => true,
            },
            Move::Answer(_, _) => true,
            Move::Vanish(id) => {
                let phase = self.sessions[id].phase;
                phase is Opening || phase is Idle || phase is Closed
            },
            Move::Skew(_) => false,
        }
    }

    /// Whether every move of a course belongs to undisturbed operation.
    pub open spec fn calm_course(self, course: Seq<Move>) -> bool
        decreases course.len(),
    {
        course.len() == 0 || (self.calm_course(course.drop_last()) && self.run(
            course.drop_last(),
        ).calm(course.last()))
    }

    /// Whether the turns add up: the semaphore holds one turn and no session
    /// has one, or the semaphore holds none and exactly one session has it.
    pub open spec fn balanced(self) -> bool {
        ||| self.count == 1 && forall|id: nat| !#[trigger] self.has_turn(id)
        ||| self.count == 0 && exists|id: nat|
            #[trigger] self.has_turn(id) && forall|other: nat|
                #[trigger] self.has_turn(other) ==> other == id
    }

    /// What undisturbed operation keeps true besides the balance: every
    /// session is well formed, none is removing the semaphore, and whoever is
    /// past the wait has a turn.
    pub open spec fn orderly(self) -> bool {
        forall|id: nat| #[trigger]
            self.sessions.dom().contains(id) ==> {
                let state = self.sessions[id];
                &&& state.wf()
                &&& !state.reset
                &&& (state.phase is Locking || state.phase is Held || state.phase is Unlocking
                    || state.phase is Inspecting || state.phase is Posting) ==> state.turn
            }
    }
}

/// No move lets a session into its critical section without the file lock.
pub proof fn lemma_move_keeps_exclusion(world: World, step: Move)
    requires
        world.exclusive(),
    ensures
        world.next(step).exclusive(),
{
    let after = world.next(step);
    assert forall|id: nat| #[trigger] after.inside(id) implies after.holder == Some(id) by {
        if world.allows(step) {
            match step {
                Move::Join(joined) => {
                    assert(world.inside(id));
                },
                Move::Enter(entered) => {
                    assert(world.inside(id));
                },
                Move::Reset(entered) => {
                    assert(world.inside(id));
                },
                Move::Answer(answered, event) => {
                    if id != answered {
                        assert(world.inside(id));
                    } else if world.inside(id) {
                    }
                },
                Move::Vanish(gone) => {
                    assert(world.inside(id));
                },
                Move::Skew(_) => {
                    assert(world.inside(id));
                },
            }
        } else {
            assert(world.inside(id));
        }
    }
}

/// Mutual exclusion: whatever happens to a world that nobody has entered
/// yet, and in whatever order, no two sessions are inside their critical
/// sections at once. Sessions may vanish in the middle, waits may run out
/// of time and the semaphore's count may be anything.
pub proof fn lemma_mutual_exclusion(codes: Codes, course: Seq<Move>, one: nat, other: nat)
    requires
        World::start(codes).run(course).inside(one),
        World::start(codes).run(course).inside(other),
    ensures
        one == other,
{
    lemma_course_keeps_exclusion(World::start(codes), course);
}

/// A course of moves lets no session into its critical section without the
/// file lock, if none was there without it before.
pub proof fn lemma_course_keeps_exclusion(world: World, course: Seq<Move>)
    requires
        world.exclusive(),
    ensures
        world.run(course).exclusive(),
    decreases course.len(),
{
    if course.len() > 0 {
        lemma_course_keeps_exclusion(world, course.drop_last());
        lemma_move_keeps_exclusion(world.run(course.drop_last()), course.last());
    }
}

/// Two worlds with the same count and the same turns are balanced together.
proof fn lemma_same_turns(before: World, after: World)
    requires
        before.balanced(),
        before.count == after.count,
        forall|id: nat| #[trigger] after.has_turn(id) == before.has_turn(id),
    ensures
        after.balanced(),
{
    if before.count == 0 {
        let id = choose|id: nat|
            #[trigger] before.has_turn(id) && forall|other: nat|
                #[trigger] before.has_turn(other) ==> other == id;
        assert(after.has_turn(id));
        assert forall|other: nat| #[trigger] after.has_turn(other) implies other == id by {
            assert(before.has_turn(other));
        }
    } else {
        assert forall|id: nat| !#[trigger] after.has_turn(id) by {
            assert(!before.has_turn(id));
        }
    }
}

/// No move of undisturbed operation upsets the balance of turns.
pub proof fn lemma_calm_move_keeps_balance(world: World, step: Move)
    requires
        world.orderly(),
        world.balanced(),
        world.calm(step),
    ensures
        world.next(step).orderly(),
        world.next(step).balanced(),
{
    let after = world.next(step);
    match step {
        Move::Join(id) => {
            assert forall|other: nat| #[trigger] after.has_turn(other) == world.has_turn(other) by {}
            lemma_same_turns(world, after);
        },
        Move::Enter(id) => {
            assert(world.sessions.dom().contains(id));
            assert forall|other: nat| #[trigger] after.has_turn(other) == world.has_turn(other) by {}
            lemma_same_turns(world, after);
        },
        Move::Reset(id) => {},
        Move::Answer(id, event) => {
            let before = world.sessions[id];
            let state = before.next(world.codes, event).0;
            assert(world.sessions.dom().contains(id));
            crate::session::lemma_next_keeps_wf(before, world.codes, event);
            assert(after.sessions[id] == state);
            assert forall|other: nat| other != id implies #[trigger] after.has_turn(other)
                == world.has_turn(other) by {}
            if before.turn == state.turn && after.count == world.count {
                assert forall|other: nat| #[trigger] after.has_turn(other) == world.has_turn(
                    other,
                ) by {}
                lemma_same_turns(world, after);
            } else if state.turn {
                assert(before.phase is Waiting && event is Done);
                assert(world.count == 1);
                assert(!world.has_turn(id));
                assert(after.has_turn(id));
                assert forall|other: nat| #[trigger] after.has_turn(other) implies other
                    == id by {
                    if other != id {
                        assert(world.has_turn(other));
                    }
                }
            } else if before.turn {
                assert(world.has_turn(id));
                assert(world.count == 0);
                assert forall|other: nat| !#[trigger] after.has_turn(other) by {
                    if other != id && after.has_turn(other) {
                        assert(world.has_turn(other));
                    }
                }
            } else {
                assert(world.has_turn(id) == before.turn);
            }
        },
        Move::Vanish(id) => {
            assert(!world.has_turn(id));
            assert forall|other: nat| #[trigger] after.has_turn(other) == world.has_turn(other) by {}
            lemma_same_turns(world, after);
        },
        Move::Skew(_) => {},
    }
}

/// A course of undisturbed operation does not upset the balance of turns.
pub proof fn lemma_calm_course_keeps_balance(world: World, course: Seq<Move>)
    requires
        world.orderly(),
        world.balanced(),
        world.calm_course(course),
    ensures
        world.run(course).orderly(),
        world.run(course).balanced(),
    decreases course.len(),
{
    if course.len() > 0 {
        lemma_calm_course_keeps_balance(world, course.drop_last());
        lemma_calm_move_keeps_balance(world.run(course.drop_last()), course.last());
    }
}

/// Release restores the turn: in undisturbed operation from the start, the
/// semaphore's count never exceeds one, at most one session has a turn, and
/// whenever no session has one the count is exactly one, so that the next
/// session to wait gets the turn at once and no second one gets it with it.
pub proof fn lemma_release_restores_turn(codes: Codes, course: Seq<Move>)
    requires
        World::start(codes).calm_course(course),
    ensures
        World::start(codes).run(course).balanced(),
        World::start(codes).run(course).count <= 1,
        forall|one: nat, other: nat|
            World::start(codes).run(course).has_turn(one) && World::start(codes).run(
                course,
            ).has_turn(other) ==> one == other,
        (forall|id: nat| !World::start(codes).run(course).has_turn(id)) ==> World::start(
            codes,
        ).run(course).count == 1,
{
    let start = World::start(codes);
    assert forall|id: nat| !#[trigger] start.has_turn(id) by {}
    lemma_calm_course_keeps_balance(start, course);
}

/// Recovery when the semaphore is stuck at zero and the lock is free: the
/// wait of a session that begins a critical section cannot succeed, and it
/// ends at the deadline, one wait budget after the clock was read. The
/// session then asks for the file lock, the kernel grants it, and the session
/// is inside its critical section without having decremented the semaphore.
pub proof fn lemma_recovery_when_stuck(world: World, id: nat, secs: u64, nanos: u32)
    requires
        world.is_in(id, Phase::Idle),
        world.count == 0,
        world.holder is None,
        world.codes.tells_timeout_apart(),
    ensures
        ({
            let waiting = world.next(Move::Enter(id)).next(
                Move::Answer(id, Event::Clock(Reading::At { secs, nanos })),
            );
            let locking = waiting.next(Move::Answer(id, Event::Failed(world.codes.timed_out)));
            let inside = locking.next(Move::Answer(id, Event::Done));
            &&& waiting.sessions[id].pending() == Action::Wait(deadline_after(secs, nanos))
            &&& !waiting.allows(Move::Answer(id, Event::Done))
            &&& waiting.allows(Move::Answer(id, Event::Failed(world.codes.timed_out)))
            &&& locking.sessions[id].pending() == Action::Lock
            &&& locking.allows(Move::Answer(id, Event::Done))
            &&& inside.inside(id)
            &&& inside.holder == Some(id)
            &&& !inside.has_turn(id)
            &&& inside.count == 0
        }),
{
    let entered = world.next(Move::Enter(id));
    assert(entered.is_in(id, Phase::Timing));
    let waiting = entered.next(Move::Answer(id, Event::Clock(Reading::At { secs, nanos })));
    assert(waiting.is_in(id, Phase::Waiting));
    let locking = waiting.next(Move::Answer(id, Event::Failed(world.codes.timed_out)));
    assert(locking.is_in(id, Phase::Locking));
}

/// Recovery from abandonment: in a balanced world a session has the turn,
/// and nobody else holds the file lock. That session vanishes without
/// releasing anything. The semaphore is then stuck at zero, but the lock went
/// with the session, so the next session to begin a critical section is
/// inside it after one wait that runs out of time, one wait budget after the
/// clock was read.
pub proof fn lemma_recovery_from_abandonment(
    world: World,
    gone: nat,
    id: nat,
    secs: u64,
    nanos: u32,
)
    requires
        world.balanced(),
        world.has_turn(gone),
        world.holder is None || world.holder == Some(gone),
        id != gone,
        world.is_in(id, Phase::Idle),
        world.codes.tells_timeout_apart(),
    ensures
        ({
            let stuck = world.next(Move::Vanish(gone));
            let waiting = stuck.next(Move::Enter(id)).next(
                Move::Answer(id, Event::Clock(Reading::At { secs, nanos })),
            );
            let locking = waiting.next(Move::Answer(id, Event::Failed(world.codes.timed_out)));
            let inside = locking.next(Move::Answer(id, Event::Done));
            &&& stuck.count == 0
            &&& stuck.holder is None
            &&& waiting.sessions[id].pending() == Action::Wait(deadline_after(secs, nanos))
            &&& !waiting.allows(Move::Answer(id, Event::Done))
            &&& locking.allows(Move::Answer(id, Event::Done))
            &&& inside.inside(id)
            &&& !inside.has_turn(id)
        }),
{
    let stuck = world.next(Move::Vanish(gone));
    assert(stuck.is_in(id, Phase::Idle));
    lemma_recovery_when_stuck(stuck, id, secs, nanos);
}

} // verus!
