use semalock::Action;
use semalock::Codes;
use semalock::Deadline;
use semalock::Event;
use semalock::Phase;
use semalock::Reading;
use semalock::Semalock;
use semalock::SemalockError;
use semalock::SemaphoreCall;
use std::time::Duration;
use std::time::SystemTime;
use std::time::UNIX_EPOCH;

const EINTR: i32 = 4;
const ETIMEDOUT: i32 = 110;
const EWOULDBLOCK: i32 = 11;

fn codes() -> Codes {
    Codes { interrupted: EINTR, timed_out: ETIMEDOUT, would_block: EWOULDBLOCK }
}

fn at(secs: u64, nanos: u32) -> Event {
    Event::Clock(Reading::At { secs, nanos })
}

fn idle() -> Semalock {
    let mut session = Semalock::with_codes("/tmp/guarded", Ok(()), codes()).unwrap();
    assert_eq!(session.phase(), Phase::Opening);
    assert_eq!(session.pending(), Action::Open);
    assert_eq!(session.advance(Event::Done), Action::Finish(Ok(())));
    assert_eq!(session.phase(), Phase::Idle);
    session
}

fn waiting() -> Semalock {
    let mut session = idle();
    assert_eq!(session.with(), Action::ReadClock);
    assert_eq!(session.advance(at(100, 5)), Action::Wait(Deadline { sec: 110, nsec: 5 }));
    session
}

fn held() -> Semalock {
    let mut session = waiting();
    assert_eq!(session.advance(Event::Done), Action::Lock);
    assert_eq!(session.advance(Event::Done), Action::Run);
    session
}

#[test]
fn fast_path_runs_the_whole_section() {
    let mut session = idle();
    assert_eq!(session.with(), Action::ReadClock);
    assert_eq!(session.phase(), Phase::Timing);
    assert_eq!(
        session.advance(at(1_700_000_000, 999_999_999)),
        Action::Wait(Deadline { sec: 1_700_000_010, nsec: 999_999_999 })
    );
    assert_eq!(session.phase(), Phase::Waiting);
    assert_eq!(session.advance(Event::Done), Action::Lock);
    assert!(session.state().turn);
    assert_eq!(session.advance(Event::Done), Action::Run);
    assert!(session.is_held());
    assert_eq!(session.advance(Event::Done), Action::Unlock);
    assert!(!session.is_held());
    assert_eq!(session.advance(Event::Done), Action::Inspect);
    assert_eq!(session.advance(Event::Count(0)), Action::Post);
    assert_eq!(session.advance(Event::Done), Action::Finish(Ok(())));
    assert_eq!(session.phase(), Phase::Idle);
    assert!(!session.state().turn);
    assert_eq!(session.with(), Action::ReadClock);
}

#[test]
fn deadline_is_ten_seconds_after_the_reading() {
    let mut session = idle();
    session.with();
    assert_eq!(session.advance(at(0, 0)), Action::Wait(Deadline { sec: 10, nsec: 0 }));
    assert_eq!(semalock::clock::WAIT_BUDGET, 10);
    assert_eq!(
        semalock::clock::deadline(41, 123_456_789),
        Deadline { sec: 51, nsec: 123_456_789 }
    );
}

#[test]
fn deadline_stops_at_the_last_second() {
    let last = i64::MAX;
    assert_eq!(semalock::clock::deadline(u64::MAX, 1), Deadline { sec: last, nsec: 1 });
    assert_eq!(
        semalock::clock::deadline(last as u64 - 10, 0),
        Deadline { sec: last, nsec: 0 }
    );
    assert_eq!(
        semalock::clock::deadline(last as u64 - 11, 0),
        Deadline { sec: last - 1, nsec: 0 }
    );
    assert_eq!(semalock::clock::deadline(last as u64 - 9, 0), Deadline { sec: last, nsec: 0 });
}

#[test]
fn interrupted_wait_starts_the_round_again() {
    let mut session = waiting();
    assert_eq!(session.advance(Event::Failed(EINTR)), Action::ReadClock);
    assert_eq!(session.phase(), Phase::Timing);
    assert_eq!(session.advance(at(103, 0)), Action::Wait(Deadline { sec: 113, nsec: 0 }));
}

#[test]
fn timed_out_wait_falls_back_to_the_file_lock() {
    let mut session = waiting();
    assert_eq!(session.advance(Event::Failed(ETIMEDOUT)), Action::Lock);
    assert!(!session.state().turn);
    assert_eq!(session.advance(Event::Done), Action::Run);
    assert!(session.is_held());
    assert!(!session.state().turn);
    assert_eq!(session.advance(Event::Done), Action::Unlock);
    assert_eq!(session.advance(Event::Done), Action::Inspect);
    assert_eq!(session.advance(Event::Count(0)), Action::Post);
    assert_eq!(session.advance(Event::Done), Action::Finish(Ok(())));
}

#[test]
fn recovery_never_enters_without_the_lock() {
    let mut session = waiting();
    session.advance(Event::Failed(ETIMEDOUT));
    assert_eq!(session.advance(Event::Failed(EWOULDBLOCK)), Action::ReadClock);
    assert!(!session.is_held());
    assert_eq!(session.advance(at(111, 0)), Action::Wait(Deadline { sec: 121, nsec: 0 }));
    session.advance(Event::Failed(ETIMEDOUT));
    assert_eq!(session.advance(Event::Failed(EINTR)), Action::ReadClock);
    assert!(!session.is_held());
    session.advance(at(122, 0));
    session.advance(Event::Failed(ETIMEDOUT));
    assert_eq!(
        session.advance(Event::Failed(9)),
        Action::Finish(Err(SemalockError::AcquireFailed { errno: 9 }))
    );
    assert_eq!(session.phase(), Phase::Idle);
}

#[test]
fn fatal_wait_error_is_reported() {
    let mut session = waiting();
    assert_eq!(
        session.advance(Event::Failed(22)),
        Action::Finish(Err(SemalockError::SemaphoreFatal {
            call: SemaphoreCall::Wait,
            errno: 22
        }))
    );
    assert_eq!(session.phase(), Phase::Idle);
    assert_eq!(session.pending(), Action::Rest);
}

#[test]
fn lock_after_the_turn_retries_on_interruption_and_fails_otherwise() {
    let mut session = waiting();
    assert_eq!(session.advance(Event::Done), Action::Lock);
    assert_eq!(session.advance(Event::Failed(EINTR)), Action::Lock);
    assert_eq!(session.phase(), Phase::Locking);
    assert!(session.state().turn);
    assert_eq!(
        session.advance(Event::Failed(EWOULDBLOCK)),
        Action::Finish(Err(SemalockError::AcquireFailed { errno: EWOULDBLOCK }))
    );
    assert_eq!(session.phase(), Phase::Idle);
    assert!(!session.state().turn);
}

#[test]
fn unreadable_clock_ends_the_section() {
    let mut session = idle();
    session.with();
    assert_eq!(
        session.advance(Event::Clock(Reading::Unreadable)),
        Action::Finish(Err(SemalockError::ClockFailed))
    );
    assert_eq!(session.phase(), Phase::Idle);
}

#[test]
fn failed_unlock_is_fatal() {
    let mut session = held();
    assert_eq!(session.advance(Event::Done), Action::Unlock);
    assert_eq!(
        session.advance(Event::Failed(9)),
        Action::Finish(Err(SemalockError::ReleaseFailed { errno: 9 }))
    );
    assert_eq!(session.phase(), Phase::Idle);
}

#[test]
fn release_posts_only_on_a_zero_count() {
    let mut session = held();
    session.advance(Event::Done);
    assert_eq!(session.advance(Event::Done), Action::Inspect);
    assert_eq!(session.advance(Event::Count(1)), Action::Finish(Ok(())));
    assert_eq!(session.phase(), Phase::Idle);

    let mut session = held();
    session.advance(Event::Done);
    session.advance(Event::Done);
    assert_eq!(session.advance(Event::Count(0)), Action::Post);
    assert_eq!(session.advance(Event::Done), Action::Finish(Ok(())));
}

#[test]
fn release_posts_unseen_where_the_count_cannot_be_read() {
    let mut session = held();
    session.advance(Event::Done);
    assert_eq!(session.advance(Event::Done), Action::Inspect);
    assert_eq!(session.advance(Event::Done), Action::Post);
    assert_eq!(session.advance(Event::Done), Action::Finish(Ok(())));
}

#[test]
fn failed_inspection_and_failed_post_are_fatal() {
    let mut session = held();
    session.advance(Event::Done);
    session.advance(Event::Done);
    assert_eq!(
        session.advance(Event::Failed(22)),
        Action::Finish(Err(SemalockError::SemaphoreFatal {
            call: SemaphoreCall::Inspect,
            errno: 22
        }))
    );

    let mut session = held();
    session.advance(Event::Done);
    session.advance(Event::Done);
    session.advance(Event::Count(0));
    assert_eq!(
        session.advance(Event::Failed(75)),
        Action::Finish(Err(SemalockError::SemaphoreFatal {
            call: SemaphoreCall::Post,
            errno: 75
        }))
    );
    assert_eq!(session.phase(), Phase::Idle);
}

#[test]
fn unlink_removes_under_the_lock_and_closes() {
    let mut session = idle();
    assert_eq!(session.unlink(), Action::ReadClock);
    assert!(session.state().reset);
    session.advance(at(7, 7));
    assert_eq!(session.advance(Event::Done), Action::Lock);
    assert_eq!(session.advance(Event::Done), Action::Remove);
    assert!(session.is_held());
    assert_eq!(session.advance(Event::Done), Action::Unlock);
    assert_eq!(session.advance(Event::Done), Action::Inspect);
    assert_eq!(session.advance(Event::Count(0)), Action::Post);
    assert_eq!(session.advance(Event::Done), Action::Finish(Ok(())));
    assert_eq!(session.phase(), Phase::Closed);
    assert_eq!(session.with(), Action::Rest);
    assert_eq!(session.unlink(), Action::Rest);
    assert_eq!(session.advance(Event::Done), Action::Rest);
    assert_eq!(session.phase(), Phase::Closed);
}

#[test]
fn failed_removal_is_reported_after_the_release() {
    let mut session = idle();
    session.unlink();
    session.advance(at(7, 7));
    session.advance(Event::Done);
    assert_eq!(session.advance(Event::Done), Action::Remove);
    assert_eq!(session.advance(Event::Failed(2)), Action::Unlock);
    assert_eq!(session.state().removal, Some(2));
    assert_eq!(session.advance(Event::Done), Action::Inspect);
    assert_eq!(session.advance(Event::Count(3)), Action::Finish(Err(SemalockError::UnlinkFailed {
        errno: 2
    })));
    assert_eq!(session.phase(), Phase::Closed);
}

#[test]
fn failed_release_comes_before_failed_removal() {
    let mut session = idle();
    session.unlink();
    session.advance(at(7, 7));
    session.advance(Event::Done);
    session.advance(Event::Done);
    session.advance(Event::Failed(2));
    assert_eq!(
        session.advance(Event::Failed(9)),
        Action::Finish(Err(SemalockError::ReleaseFailed { errno: 9 }))
    );
    assert_eq!(session.phase(), Phase::Closed);
}

#[test]
fn unlink_that_cannot_acquire_closes_the_session() {
    let mut session = idle();
    session.unlink();
    session.advance(at(7, 7));
    assert_eq!(
        session.advance(Event::Failed(22)),
        Action::Finish(Err(SemalockError::SemaphoreFatal {
            call: SemaphoreCall::Wait,
            errno: 22
        }))
    );
    assert_eq!(session.phase(), Phase::Closed);
}

#[test]
fn events_that_answer_nothing_change_nothing() {
    let mut session = idle();
    assert_eq!(session.advance(Event::Done), Action::Rest);
    assert_eq!(session.advance(Event::Failed(EINTR)), Action::Rest);
    assert_eq!(session.phase(), Phase::Idle);

    let mut session = waiting();
    let before = session.state();
    assert_eq!(session.advance(Event::Count(0)), Action::Busy);
    assert_eq!(session.advance(at(500, 0)), Action::Busy);
    assert_eq!(session.state(), before);
    assert_eq!(session.with(), Action::Busy);
    assert_eq!(session.unlink(), Action::Busy);
    assert_eq!(session.state(), before);
    assert_eq!(session.pending(), Action::Wait(Deadline { sec: 110, nsec: 5 }));

    let mut session = held();
    assert_eq!(session.advance(Event::Failed(5)), Action::Busy);
    assert_eq!(session.advance(Event::Count(0)), Action::Busy);
    assert_eq!(session.advance(at(1, 1)), Action::Busy);
    assert!(session.is_held());
    assert_eq!(session.pending(), Action::Run);
    assert_eq!(session.advance(Event::Done), Action::Unlock);

    let mut session = Semalock::with_codes("/tmp/guarded", Ok(()), codes()).unwrap();
    assert_eq!(session.with(), Action::Busy);
    assert_eq!(session.advance(Event::Count(1)), Action::Busy);
    assert_eq!(session.phase(), Phase::Opening);
}

#[test]
fn construction_reports_an_unopenable_file() {
    let refused = Semalock::new(
        "/nonexistent-directory/guarded",
        Err(String::from("entity not found")),
    );
    assert_eq!(
        refused.err(),
        Some(SemalockError::OpenFailed { description: String::from("entity not found") })
    );
    let refused = Semalock::with_codes("/root/guarded", Err(String::from("permission denied")), codes());
    assert_eq!(
        refused.err().unwrap().message(),
        "OpenOptions::open failed: permission denied"
    );
}

#[test]
fn construction_reports_an_unopenable_semaphore() {
    let mut session = Semalock::new("/tmp/guarded", Ok(())).unwrap();
    assert_eq!(session.pending(), Action::Open);
    assert_eq!(
        session.advance(Event::Failed(24)),
        Action::Finish(Err(SemalockError::SemaphoreOpenFailed { errno: 24 }))
    );
    assert_eq!(session.phase(), Phase::Closed);
    assert_eq!(session.with(), Action::Rest);
}

#[test]
fn construction_gives_the_name_of_the_path() {
    let session = Semalock::new("/tmp/guarded", Ok(())).unwrap();
    assert_eq!(session.name(), semalock::name::semaphore_name("/tmp/guarded"));
    assert_eq!(session.identity(), semalock::name::hash_path("/tmp/guarded"));
    assert_eq!(session.name(), semalock::name::name_for_hash(session.identity()));
    assert_eq!(semalock::session::SEMAPHORE_MODE, 0o644);
    assert_eq!(semalock::session::SEMAPHORE_TURNS, 1);
}

#[test]
fn host_codes_are_those_of_libc() {
    let codes = Codes::host();
    assert_eq!(codes.interrupted, libc::EINTR);
    assert_eq!(codes.timed_out, libc::ETIMEDOUT);
    assert_eq!(codes.would_block, libc::EWOULDBLOCK);
    assert_eq!(Semalock::new("/tmp/guarded", Ok(())).unwrap().codes(), codes);
}

#[test]
fn step_reads_the_error_number_of_the_thread() {
    let mut session = Semalock::new("/tmp/guarded", Ok(())).unwrap();
    assert_eq!(session.step(0), Action::Finish(Ok(())));
    assert_eq!(session.with(), Action::ReadClock);
    session.advance(at(1, 1));
    errno::set_errno(errno::Errno(libc::EINTR));
    assert_eq!(session.step(-1), Action::ReadClock);
    session.advance(at(2, 2));
    errno::set_errno(errno::Errno(libc::ETIMEDOUT));
    assert_eq!(session.step(-1), Action::Lock);
    errno::set_errno(errno::Errno(libc::EBADF));
    assert_eq!(
        session.step(-1),
        Action::Finish(Err(SemalockError::AcquireFailed { errno: libc::EBADF }))
    );
    session.with();
    session.advance(at(3, 3));
    errno::set_errno(errno::Errno(libc::EINVAL));
    assert_eq!(session.step(0), Action::Lock);
    assert_eq!(session.step(0), Action::Run);
    assert_eq!(session.step(0), Action::Unlock);
}

#[test]
fn tick_sets_the_deadline_from_the_clock() {
    let mut session = idle();
    session.with();
    let before = SystemTime::now().duration_since(UNIX_EPOCH).unwrap().as_secs() as i64;
    let action = session.tick();
    let after = SystemTime::now().duration_since(UNIX_EPOCH).unwrap().as_secs() as i64;
    match action {
        Action::Wait(until) => {
            assert!(before + 10 <= until.sec && until.sec <= after + 10);
            assert!(0 <= until.nsec && until.nsec < 1_000_000_000);
        }
        other => panic!("the session asked for {:?}", other),
    }
    assert_eq!(session.phase(), Phase::Waiting);
}

#[test]
fn a_measurement_from_the_epoch_is_read_in_seconds_and_nanoseconds() {
    assert_eq!(
        semalock::clock::reading_of(Ok(Duration::new(5, 7))),
        Reading::At { secs: 5, nanos: 7 }
    );
    assert_eq!(
        semalock::clock::reading_of(Ok(Duration::new(1_700_000_000, 999_999_999))),
        Reading::At { secs: 1_700_000_000, nanos: 999_999_999 }
    );
    assert_eq!(
        semalock::clock::reading_of(Ok(Duration::from_millis(2_500))),
        Reading::At { secs: 2, nanos: 500_000_000 }
    );
    let later = UNIX_EPOCH + Duration::from_secs(1);
    let before = UNIX_EPOCH.duration_since(later);
    assert!(before.is_err());
    assert_eq!(semalock::clock::reading_of(before), Reading::Unreadable);
    assert_eq!(
        semalock::clock::reading_of(later.duration_since(UNIX_EPOCH)),
        Reading::At { secs: 1, nanos: 0 }
    );
}

#[test]
fn the_clock_reads_the_present() {
    let before = SystemTime::now().duration_since(UNIX_EPOCH).unwrap().as_secs();
    let reading = semalock::clock::read_clock();
    let after = SystemTime::now().duration_since(UNIX_EPOCH).unwrap().as_secs();
    match reading {
        Reading::At { secs, nanos } => {
            assert!(before <= secs && secs <= after);
            assert!(nanos < 1_000_000_000);
        }
        Reading::Unreadable => panic!("the clock stands before the epoch"),
    }
}

#[test]
fn host_tells_a_timeout_from_an_interruption() {
    let codes = Codes::host();
    assert_ne!(codes.timed_out, codes.interrupted);
    assert!([4, 17, 27, 1073741828, -2147483638].contains(&codes.interrupted));
    assert!([60, 73, 78, 110, 116, 138, 145, 260, 1073741884, -2147483639]
        .contains(&codes.timed_out));
    assert!([6, 11, 35, 41, 70, 140, 1073741859, -2147483637].contains(&codes.would_block));
    let mut session = Semalock::new("/tmp/guarded", Ok(())).unwrap();
    session.step(0);
    session.with();
    session.advance(at(1, 1));
    assert_eq!(session.advance(Event::Failed(codes.timed_out)), Action::Lock);
    assert_eq!(session.advance(Event::Done), Action::Run);
}

#[test]
fn no_call_is_asked_for_twice_on_one_outcome() {
    let mut session = held();
    session.advance(Event::Done);
    session.advance(Event::Done);
    assert_eq!(session.advance(Event::Count(0)), Action::Post);
    assert_eq!(session.advance(Event::Count(0)), Action::Busy);
    assert_eq!(session.advance(at(9, 9)), Action::Busy);
    assert_eq!(session.phase(), Phase::Posting);
    assert_eq!(session.advance(Event::Done), Action::Finish(Ok(())));

    let mut session = waiting();
    assert_eq!(session.advance(Event::Done), Action::Lock);
    assert_eq!(session.advance(Event::Count(1)), Action::Busy);
    assert_eq!(session.advance(Event::Done), Action::Run);
    assert_eq!(session.advance(at(9, 9)), Action::Busy);
}
