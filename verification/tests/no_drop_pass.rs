use no_drop::markers::Empty;
use no_drop::markers::Msg;
use no_drop::NoDropPass;

#[test]
fn passthrough_empty_wrap_consume() {
    let wrapper = NoDropPass::<Empty, _>::wrap(42);
    assert_eq!(wrapper.consume(), 42);
}

#[test]
fn passthrough_empty_new() {
    let wrapper = NoDropPass::<Empty, ()>::new();
    assert_eq!(*wrapper, ());
}

#[test]
fn passthrough_empty_default() {
    let wrapper = NoDropPass::<Empty, ()>::default();
    assert_eq!(*wrapper, ());
}

#[test]
fn passthrough_empty_forget() {
    let wrapper = NoDropPass::<Empty, _>::wrap(42);
    wrapper.forget();
}

#[test]
fn passthrough_empty_clone() {
    let wrapper = NoDropPass::<Empty, ()>::new();
    let cloned = wrapper.clone();
    assert_eq!(wrapper, cloned);
}

#[test]
fn passthrough_empty_drop_no_panic() {
    let wrapper = NoDropPass::<Empty, _>::wrap(42);
    drop(wrapper); // No violation
}

#[test]
fn passthrough_msg_wrap_consume() {
    let wrapper = NoDropPass::<Msg, _>::wrap(42, "message");
    assert_eq!(wrapper.consume(), 42);
}

#[test]
fn passthrough_msg_guard() {
    let wrapper = NoDropPass::<Msg, ()>::guard("expected message");
    assert_eq!(*wrapper, ());
}

#[test]
fn passthrough_msg_forget() {
    let wrapper = NoDropPass::<Msg, _>::wrap(42, "message");
    wrapper.forget();
}

#[test]
fn passthrough_msg_clone() {
    let wrapper = NoDropPass::<Msg, ()>::guard("message");
    let cloned = wrapper.clone();
    assert_eq!(wrapper, cloned);
}

#[test]
fn passthrough_msg_drop_no_panic() {
    let wrapper = NoDropPass::<Msg, _>::wrap(42, "should not panic");
    drop(wrapper); // No violation
}

#[test]
fn passthrough_msg_borrowed() {
    let msg = String::from("borrowed message");
    let wrapper = NoDropPass::<Msg, _>::wrap(42, msg.as_str());
    assert_eq!(wrapper.consume(), 42);
}

#[test]
fn passthrough_msg_wrap_msg_alias() {
    let wrapper = no_drop::NoDropMsgPassthrough::wrap_msg(42, "message");
    assert_eq!(wrapper.consume(), 42);
}

#[test]
fn passthrough_empty_plain_alias() {
    let wrapper = no_drop::NoDropPassthrough::wrap(42);
    assert_eq!(wrapper.consume(), 42);
    let unit = no_drop::NoDropPassthrough::new();
    unit.forget();
}
