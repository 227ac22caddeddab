use vstd::prelude::*;

use crate::markers::Empty;
use crate::markers::Msg;
use crate::no_drop::no_drop_empty::NoDropEmpty;
use crate::no_drop::no_drop_msg::NoDropMsg;
use crate::no_drop::no_drop_pass::NoDropPass;

verus! {

/// Extension methods that wrap a value inline in the passthrough wrappers,
/// for fluent call-site use where enforcement is compiled out.
pub trait IntoNoDropDbg: Sized {
    /// Wraps this value in a payload-preserving passthrough wrapper.
    fn no_drop(self) -> (r: NoDropPass<Empty, Self>)
        ensures
            r.value() == self,
    ;

    /// Wraps this value in a passthrough wrapper; `msg` is discarded, since
    /// the wrapper never owes a diagnostic.
    fn no_drop_msg(self, msg: &str) -> (r: NoDropPass<Msg, Self>)
        ensures
            r.value() == self,
    ;
}

impl<T> IntoNoDropDbg for T {
    fn no_drop(self) -> (r: NoDropPass<Empty, Self>) {
        NoDropPass::<Empty, Self>::wrap(self)
    }

    fn no_drop_msg(self, msg: &str) -> (r: NoDropPass<Msg, Self>) {
        NoDropPass::<Msg, Self>::wrap(self, msg)
    }
}

/// Extension methods that wrap a value inline in the enforcing wrappers, for
/// fluent call-site use where the obligation must always be enforced.
pub trait IntoNoDropRls: Sized {
    /// Wraps this value in an enforcing wrapper with the fixed default
    /// diagnostic.
    fn no_drop(self) -> (r: NoDropEmpty<Self>)
        ensures
            r.value() == self,
    ;

    /// Wraps this value in an enforcing wrapper that announces `msg` on
    /// implicit destruction.
    fn no_drop_msg(self, msg: &str) -> (r: NoDropMsg<Self>)
        ensures
            r.value() == self,
            r.msg() == msg@,
    ;
}

impl<T> IntoNoDropRls for T {
    fn no_drop(self) -> (r: NoDropEmpty<Self>) {
        NoDropEmpty::wrap(self)
    }

    fn no_drop_msg(self, msg: &str) -> (r: NoDropMsg<Self>) {
        NoDropMsg::wrap(self, msg)
    }
}

} // verus!
