use no_drop::IntoNoDropDbg;

#[test]
fn dbg_trait_into_no_drop() {
    let wrapper = 42.no_drop();
    assert_eq!(wrapper.consume(), 42);
}

#[test]
fn dbg_trait_into_no_drop_msg() {
    let with_msg = 7.no_drop_msg("msg");
    assert_eq!(with_msg.consume(), 7);
}
