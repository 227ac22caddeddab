use core::marker::PhantomData;

use vstd::prelude::*;

use crate::markers::Empty;
use crate::markers::Msg;
use crate::markers::PassMarker;

verus! {

/// A passthrough wrapper: the same method surface as the enforcing wrappers,
/// but implicit destruction is always safe.
///
/// The marker `M` selects which enforcing wrapper this type stands in for:
/// [`Empty`] mirrors [`crate::NoDropEmpty`], [`Msg`] mirrors
/// [`crate::NoDropMsg`]. A message handed to the [`Msg`] constructors is
/// discarded; the parameter exists only to keep the signatures identical, so
/// a build can substitute this type without touching call sites.
/// [`Self::drop_fatal`] never holds.
#[derive(Debug, PartialEq, Eq, PartialOrd, Ord, Hash)]
#[must_use]
pub struct NoDropPass<M: PassMarker = Empty, T = ()> {
    value: T,
    marker: PhantomData<M>,
}

/// [`NoDropPass`] under the name call sites use when it substitutes for
/// [`crate::NoDropEmpty`].
pub type NoDropPassthrough<T = ()> = NoDropPass<Empty, T>;

/// [`NoDropPass`] under the name call sites use when it substitutes for
/// [`crate::NoDropMsg`].
pub type NoDropMsgPassthrough<T = ()> = NoDropPass<Msg, T>;

impl<M: PassMarker, T> NoDropPass<M, T> {
    /// The wrapped payload.
    pub closed spec fn value(self) -> T {
        self.value
    }

    /// Implicit destruction is never a contract violation for this type.
    pub open spec fn drop_fatal(self) -> bool {
        false
    }

    /// Ends the wrapper and returns the payload.
    #[must_use]
    pub fn consume(self) -> (r: T)
        ensures
            r == self.value(),
    {
        self.value
    }

    /// Ends the wrapper without extracting the payload, which is then
    /// destroyed ordinarily. Present to mirror the enforcing wrappers; for
    /// this type an implicit destruction would have been just as safe.
    pub fn forget(self) {
        let _ = self;
    }
}

impl<M: PassMarker, T> core::ops::Deref for NoDropPass<M, T> {
    type Target = T;

    /// Read access to the payload without ending the wrapper.
    fn deref(&self) -> (r: &T)
        ensures
            *r == self.value(),
    {
        &self.value
    }
}

impl<T> NoDropPass<Empty, T> {
    /// Wraps `value`, taking ownership of it.
    pub fn wrap(value: T) -> (r: Self)
        ensures
            r.value() == value,
    {
        NoDropPass { value, marker: PhantomData }
    }
}

impl NoDropPass<Empty, ()> {
    /// A payload-free wrapper.
    pub fn new() -> (r: Self)
        ensures
            r.value() == (),
    {
        NoDropPass { value: (), marker: PhantomData }
    }
}

impl Default for NoDropPass<Empty, ()> {
    /// Same as [`NoDropPass::new`].
    fn default() -> (r: Self)
        ensures
            r.value() == (),
    {
        NoDropPass { value: (), marker: PhantomData }
    }
}

impl Clone for NoDropPass<Empty, ()> {
    /// A fresh payload-free wrapper; nothing else is there to copy.
    fn clone(&self) -> (r: Self)
        ensures
            r.value() == self.value(),
    {
        NoDropPass { value: (), marker: PhantomData }
    }
}

impl Clone for NoDropPass<Msg, ()> {
    /// A fresh payload-free wrapper; nothing else is there to copy.
    fn clone(&self) -> (r: Self)
        ensures
            r.value() == self.value(),
    {
        NoDropPass { value: (), marker: PhantomData }
    }
}

impl<T> NoDropPass<Msg, T> {
    /// Wraps `value`; `msg` is discarded, since this type never owes a
    /// diagnostic.
    pub fn wrap(value: T, msg: &str) -> (r: Self)
        ensures
            r.value() == value,
    {
        let _ = msg;
        NoDropPass { value, marker: PhantomData }
    }

    /// Wraps `value`, discarding `msg`; alias of [`Self::wrap`].
    pub fn wrap_msg(value: T, msg: &str) -> (r: Self)
        ensures
            r.value() == value,
    {
        let _ = msg;
        NoDropPass { value, marker: PhantomData }
    }
}

impl NoDropPass<Msg, ()> {
    /// A payload-free wrapper; `msg` is discarded, since this type never owes
    /// a diagnostic.
    pub fn guard(msg: &str) -> (r: Self)
        ensures
            r.value() == (),
    {
        let _ = msg;
        NoDropPass { value: (), marker: PhantomData }
    }
}

} // verus!
