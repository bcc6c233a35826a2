use scrummage::unix::{decode_get_outcome, decode_set_outcome, GetOutcome, SetOutcome};
use scrummage::{NotFound, Priority, Process, Unchanged};

/// A process ID far beyond the platform's largest assignable ID, so no
/// process ever has it.
const NO_SUCH_PID: u32 = 0x7fff_ffff;

#[test]
fn current_process_can_be_read() {
    assert!(Process::current().priority().is_ok());
}

#[test]
fn read_after_set_normal_is_normal() {
    let mut me = Process::current();
    me.set_priority(Priority::normal())
        .expect("setting our own priority back to normal should be allowed");
    let read = Process::current()
        .priority()
        .expect("the current process exists");
    assert_eq!(read, Priority::normal());
}

#[test]
fn reading_a_vanished_process_is_not_found() {
    let handle = Process::from_pid(NO_SUCH_PID);
    assert!(matches!(handle.priority(), Err(NotFound)));
}

#[test]
fn setting_a_vanished_process_is_not_found() {
    let mut handle = Process::from_pid(NO_SUCH_PID);
    match handle.set_priority(Priority::normal()) {
        Err(Unchanged::NotFound(_)) => {}
        other => panic!("expected Unchanged::NotFound, got {:?}", other),
    }
}

#[test]
fn set_outcomes_decode_to_the_two_failure_kinds() {
    assert!(matches!(decode_set_outcome(SetOutcome::Applied), Ok(())));
    assert!(matches!(
        decode_set_outcome(SetOutcome::NoSuchProcess),
        Err(Unchanged::NotFound(_))
    ));
    assert!(matches!(
        decode_set_outcome(SetOutcome::Denied),
        Err(Unchanged::PermissionDenied)
    ));
}

#[test]
fn get_outcomes_decode_to_levels_or_not_found() {
    let normal = decode_get_outcome(GetOutcome::Value(0)).unwrap();
    assert_eq!(normal, scrummage::unix::Priority::normal());
    let stepped = decode_get_outcome(GetOutcome::Value(-3)).unwrap();
    assert_eq!(stepped, scrummage::unix::Priority::normal().higher()[2]);
    assert!(matches!(
        decode_get_outcome(GetOutcome::NoSuchProcess),
        Err(NotFound)
    ));
}

#[test]
fn failure_messages_tell_the_kinds_apart() {
    assert_eq!(
        NotFound.message(),
        "couldn't set priority of missing process"
    );
    assert_eq!(
        Unchanged::NotFound(NotFound).message(),
        "couldn't set priority of missing process"
    );
    assert_eq!(
        Unchanged::PermissionDenied.message(),
        "missing permissions to set priority"
    );
    assert_eq!(Unchanged::from(NotFound), Unchanged::NotFound(NotFound));
}
