use no_drop::DropGuardEmpty;
use no_drop::NoDropEmpty;

#[test]
fn drop_guard_empty_new_armed() {
    let mut guard = DropGuardEmpty::new_armed();
    assert!(guard.armed());
    assert!(!guard.disarmed());
    guard.disarm(); // Prevent a violation on drop
}

#[test]
fn drop_guard_empty_new_disarmed() {
    let guard = DropGuardEmpty::new_disarmed();
    assert!(guard.disarmed());
    assert!(!guard.armed());
}

#[test]
fn from_no_drop() {
    let no_drop = NoDropEmpty::new();
    let mut guard = DropGuardEmpty::from(no_drop);
    guard.disarm();
}

#[test]
fn drop_guard_empty_arm_when_disarmed() {
    let mut guard = DropGuardEmpty::new_disarmed();
    let changed = guard.arm();
    assert!(changed); // State changed: disarmed -> armed
    assert!(guard.armed());
    guard.disarm(); // Prevent a violation on drop
}

#[test]
fn drop_guard_empty_arm_when_armed() {
    let mut guard = DropGuardEmpty::new_armed();
    let changed = guard.arm();
    assert!(!changed); // No state change: armed -> armed
    assert!(guard.armed());
    guard.disarm(); // Prevent a violation on drop
}

#[test]
fn drop_guard_empty_disarm_when_armed() {
    let mut guard = DropGuardEmpty::new_armed();
    let changed = guard.disarm();
    assert!(changed); // State changed: armed -> disarmed
    assert!(guard.disarmed());
}

#[test]
fn drop_guard_empty_disarm_when_disarmed() {
    let mut guard = DropGuardEmpty::new_disarmed();
    let changed = guard.disarm();
    assert!(!changed); // No state change: disarmed -> disarmed
    assert!(guard.disarmed());
}

#[test]
fn drop_guard_empty_drop_disarmed_no_panic() {
    let guard = DropGuardEmpty::new_disarmed();
    drop(guard);
}

#[test]
fn drop_guard_empty_from_is_armed() {
    let mut guard = DropGuardEmpty::from(NoDropEmpty::new());
    assert!(guard.armed());
    guard.disarm();
}

#[test]
fn drop_guard_empty_fatal_message_follows_state() {
    let mut guard = DropGuardEmpty::new_armed();
    assert_eq!(
        guard.fatal_message().as_deref(),
        Some("Value was dropped without being unwrapped")
    );
    guard.disarm();
    assert_eq!(guard.fatal_message(), None);
}

#[test]
fn drop_guard_empty_clone_keeps_state() {
    let mut armed = DropGuardEmpty::new_armed();
    let mut copy = armed.clone();
    assert!(copy.armed());
    let disarmed = DropGuardEmpty::new_disarmed();
    assert!(disarmed.clone().disarmed());
    armed.disarm();
    copy.disarm();
}

#[test]
fn drop_guard_empty_into_guard() {
    let armed = DropGuardEmpty::new_armed();
    let sentinel = armed.into_guard().unwrap();
    sentinel.forget();
    let disarmed = DropGuardEmpty::new_disarmed();
    assert!(disarmed.into_guard().is_none());
}

#[test]
fn drop_guard_empty_try_into_guard() {
    let armed = DropGuardEmpty::new_armed();
    let sentinel = armed.try_into_guard().unwrap();
    sentinel.forget();
    let disarmed = DropGuardEmpty::new_disarmed();
    let err = disarmed.try_into_guard().unwrap_err();
    assert_eq!(err.message(), "guard is not armed");
}
