use no_drop::markers::Empty;
use no_drop::markers::Msg;
use no_drop::DropGuardMsgPassthrough;
use no_drop::DropGuardPass;
use no_drop::GuardNotArmed;

#[test]
fn passthrough_new_armed() {
    let mut guard = DropGuardMsgPassthrough::new_armed("message");
    assert!(guard.armed());
    assert!(!guard.disarmed());
    guard.disarm();
}

#[test]
fn passthrough_new_disarmed() {
    let guard = DropGuardMsgPassthrough::new_disarmed("message");
    assert!(guard.disarmed());
    assert!(!guard.armed());
}

#[test]
fn passthrough_arm_disarm() {
    let mut guard = DropGuardMsgPassthrough::new_disarmed("message");
    assert!(guard.arm());
    assert!(guard.armed());
    assert!(guard.disarm());
    assert!(guard.disarmed());
}

#[test]
fn passthrough_drop_no_panic() {
    let guard = DropGuardMsgPassthrough::new_armed("should not panic");
    drop(guard); // No violation even when armed
}

#[test]
fn passthrough_guard_empty_toggle() {
    let mut guard = DropGuardPass::<Empty>::new_disarmed();
    assert!(guard.arm());
    assert!(!guard.arm());
    assert!(guard.disarm());
    assert!(!guard.disarm());
}

#[test]
fn passthrough_guard_empty_into_guard() {
    let armed = DropGuardPass::<Empty>::new_armed();
    assert!(armed.into_guard().is_some());
    let disarmed = DropGuardPass::<Empty>::new_disarmed();
    assert!(disarmed.into_guard().is_none());
}

#[test]
fn passthrough_guard_msg_into_guard() {
    let armed = DropGuardPass::<Msg>::new_armed("msg");
    assert!(armed.into_guard().is_some());
    let disarmed = DropGuardPass::<Msg>::new_disarmed("msg");
    assert!(disarmed.into_guard().is_none());
}

#[test]
fn passthrough_guard_try_into_guard() {
    let armed = DropGuardPass::<Empty>::new_armed();
    assert!(armed.try_into_guard().is_ok());
    let disarmed = DropGuardPass::<Empty>::new_disarmed();
    let err = disarmed.try_into_guard().unwrap_err();
    assert_eq!(err, GuardNotArmed);
    assert_eq!(err.message(), "guard is not armed");
}

#[test]
fn passthrough_guard_from_sentinel_is_armed() {
    let sentinel = DropGuardPass::<Empty>::new_armed().into_guard().unwrap();
    let guard = DropGuardPass::<Empty>::from(sentinel);
    assert!(guard.armed());
}

#[test]
fn passthrough_guard_clone_keeps_state() {
    let guard = DropGuardPass::<Msg>::new_armed("msg");
    assert!(guard.clone().armed());
}
