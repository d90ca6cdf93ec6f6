use semalock::SemalockError;
use semalock::SemaphoreCall;

#[test]
fn messages_name_the_call_the_number_and_the_description() {
    let error = SemalockError::AcquireFailed { errno: 4 };
    assert_eq!(error.render("Interrupted system call"), "flock 4: Interrupted system call");
    let error = SemalockError::ReleaseFailed { errno: 9 };
    assert_eq!(error.render("Bad file descriptor"), "flock 9: Bad file descriptor");
    let error = SemalockError::SemaphoreOpenFailed { errno: 24 };
    assert_eq!(error.render("Too many open files"), "sem_open 24: Too many open files");
    let error = SemalockError::UnlinkFailed { errno: 2 };
    assert_eq!(error.render("No such file or directory"), "sem_unlink 2: No such file or directory");
    let error = SemalockError::SemaphoreFatal { call: SemaphoreCall::Wait, errno: 22 };
    assert_eq!(error.render("Invalid argument"), "sem_timedwait 22: Invalid argument");
    let error = SemalockError::SemaphoreFatal { call: SemaphoreCall::Inspect, errno: 22 };
    assert_eq!(error.render("Invalid argument"), "sem_getvalue 22: Invalid argument");
    let error = SemalockError::SemaphoreFatal { call: SemaphoreCall::Post, errno: 75 };
    assert_eq!(error.render("Value too large"), "sem_post 75: Value too large");
}

#[test]
fn messages_write_the_number_in_decimal() {
    let error = SemalockError::AcquireFailed { errno: 0 };
    assert_eq!(error.render(""), "flock 0: ");
    let error = SemalockError::AcquireFailed { errno: 1234567890 };
    assert_eq!(error.render("x"), "flock 1234567890: x");
    let error = SemalockError::AcquireFailed { errno: -1 };
    assert_eq!(error.render("x"), "flock -1: x");
    let error = SemalockError::AcquireFailed { errno: i32::MIN };
    assert_eq!(error.render("x"), "flock -2147483648: x");
    let error = SemalockError::AcquireFailed { errno: i32::MAX };
    assert_eq!(error.render("x"), "flock 2147483647: x");
}

#[test]
fn messages_without_a_number_use_no_description() {
    let error = SemalockError::OpenFailed { description: String::from("Permission denied") };
    assert_eq!(error.render("unused"), "OpenOptions::open failed: Permission denied");
    assert_eq!(error.message(), "OpenOptions::open failed: Permission denied");
    assert_eq!(error.errno(), None);
    let error = SemalockError::NameConstructionFailed;
    assert_eq!(error.message(), "CString::new failed: nul byte found in data");
    let error = SemalockError::ClockFailed;
    assert_eq!(error.message(), "second time provided was later than self");
    assert_eq!(error.render("unused"), error.message());
}

#[test]
fn messages_take_the_description_from_the_host() {
    let error = SemalockError::AcquireFailed { errno: libc::EBADF };
    assert_eq!(error.errno(), Some(libc::EBADF));
    assert_eq!(
        error.message(),
        format!("flock {}: {}", libc::EBADF, errno::Errno(libc::EBADF))
    );
    let error = SemalockError::SemaphoreFatal { call: SemaphoreCall::Wait, errno: libc::EINVAL };
    assert_eq!(
        error.message(),
        format!("sem_timedwait {}: {}", libc::EINVAL, errno::Errno(libc::EINVAL))
    );
    assert_ne!(error.message(), error.render(""));
}

#[test]
fn a_copy_of_an_error_is_the_same_error() {
    let errors = [
        SemalockError::OpenFailed { description: String::from("Permission denied") },
        SemalockError::NameConstructionFailed,
        SemalockError::SemaphoreOpenFailed { errno: 24 },
        SemalockError::ClockFailed,
        SemalockError::SemaphoreFatal { call: SemaphoreCall::Post, errno: 75 },
        SemalockError::AcquireFailed { errno: 9 },
        SemalockError::ReleaseFailed { errno: 9 },
        SemalockError::UnlinkFailed { errno: 2 },
    ];
    for error in &errors {
        assert_eq!(&error.clone(), error);
    }
    assert_ne!(errors[5], errors[6]);
}
