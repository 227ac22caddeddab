use core::marker::PhantomData;

use vstd::prelude::*;

use crate::guards::GuardNotArmed;
use crate::markers::Empty;
use crate::markers::Msg;
use crate::markers::PassMarker;
use crate::no_drop::no_drop_pass::NoDropPass;

verus! {

/// A passthrough drop guard: the same method surface as the enforcing
/// guards, but implicit destruction is always safe, in either state.
///
/// The marker `M` selects which enforcing guard this type stands in for:
/// [`Empty`] mirrors [`crate::DropGuardEmpty`], [`Msg`] mirrors
/// [`crate::DropGuardMsg`]. A message handed to the [`Msg`] constructors is
/// discarded; the parameter exists only to keep the signatures identical, so
/// a build can substitute this type without touching call sites. The guard
/// still tracks its armed bit — its view — so the queries and transitions
/// behave exactly as on the enforcing guards; only the destruction penalty is
/// gone: [`Self::drop_fatal`] never holds.
#[derive(Debug, PartialEq, Eq)]
#[must_use]
pub struct DropGuardPass<M: PassMarker = Empty> {
    armed: bool,
    marker: PhantomData<M>,
}

/// [`DropGuardPass`] under the name call sites use when it substitutes for
/// [`crate::DropGuardMsg`].
pub type DropGuardMsgPassthrough = DropGuardPass<Msg>;

impl<M: PassMarker> View for DropGuardPass<M> {
    type V = bool;

    /// Whether the guard is armed.
    closed spec fn view(&self) -> bool {
        self.armed
    }
}

impl<M: PassMarker> DropGuardPass<M> {
    /// Implicit destruction is never a contract violation for this type.
    pub open spec fn drop_fatal(self) -> bool {
        false
    }

    /// Whether the guard is armed. Pure query, no transition.
    #[must_use]
    pub fn armed(&self) -> (r: bool)
        ensures
            r == self@,
    {
        self.armed
    }

    /// Whether the guard is disarmed. Pure query, no transition.
    #[must_use]
    pub fn disarmed(&self) -> (r: bool)
        ensures
            r == !self@,
    {
        !self.armed
    }

    /// Arms the guard. Returns `true` when this changed the state, `false`
    /// when the guard was already armed.
    pub fn arm(&mut self) -> (r: bool)
        ensures
            final(self)@ == true,
            r == !old(self)@,
    {
        let was_armed = self.armed;
        self.armed = true;
        !was_armed
    }

    /// Disarms the guard. Returns `true` when this changed the state, `false`
    /// when the guard was already disarmed.
    pub fn disarm(&mut self) -> (r: bool)
        ensures
            final(self)@ == false,
            r == old(self)@,
    {
        let was_armed = self.armed;
        self.armed = false;
        was_armed
    }
}

impl<M: PassMarker> Clone for DropGuardPass<M> {
    /// A guard in the same state.
    fn clone(&self) -> (r: Self)
        ensures
            r@ == self@,
    {
        DropGuardPass { armed: self.armed, marker: PhantomData }
    }
}

impl DropGuardPass<Empty> {
    /// A new armed guard.
    pub fn new_armed() -> (r: Self)
        ensures
            r@ == true,
    {
        DropGuardPass { armed: true, marker: PhantomData }
    }

    /// A new disarmed guard.
    pub fn new_disarmed() -> (r: Self)
        ensures
            r@ == false,
    {
        DropGuardPass { armed: false, marker: PhantomData }
    }

    /// Ends the guard and hands out its sentinel wrapper: a sentinel when
    /// armed, nothing when disarmed.
    #[must_use]
    pub fn into_guard(self) -> (r: Option<NoDropPass<Empty, ()>>)
        ensures
            match r {
                Some(sentinel) => self@ && sentinel.value() == (),
                None => !self@,
            },
    {
        if self.armed {
            Some(NoDropPass::<Empty, ()>::new())
        } else {
            None
        }
    }

    /// Ends the guard and hands out its sentinel wrapper when armed, or the
    /// [`GuardNotArmed`] failure when disarmed.
    pub fn try_into_guard(self) -> (r: Result<NoDropPass<Empty, ()>, GuardNotArmed>)
        ensures
            match r {
                Ok(sentinel) => self@ && sentinel.value() == (),
                Err(e) => !self@ && e == GuardNotArmed,
            },
    {
        match self.into_guard() {
            Some(sentinel) => Ok(sentinel),
            None => Err(GuardNotArmed),
        }
    }
}

impl DropGuardPass<Msg> {
    /// A new armed guard; `msg` is discarded, since this type never owes a
    /// diagnostic.
    pub fn new_armed(msg: &str) -> (r: Self)
        ensures
            r@ == true,
    {
        let _ = msg;
        DropGuardPass { armed: true, marker: PhantomData }
    }

    /// A new disarmed guard; `msg` is discarded, since this type never owes a
    /// diagnostic.
    pub fn new_disarmed(msg: &str) -> (r: Self)
        ensures
            r@ == false,
    {
        let _ = msg;
        DropGuardPass { armed: false, marker: PhantomData }
    }

    /// Ends the guard and hands out its sentinel wrapper: a sentinel when
    /// armed, nothing when disarmed.
    #[must_use]
    pub fn into_guard(self) -> (r: Option<NoDropPass<Msg, ()>>)
        ensures
            match r {
                Some(sentinel) => self@ && sentinel.value() == (),
                None => !self@,
            },
    {
        if self.armed {
            Some(NoDropPass::<Msg, ()>::guard(""))
        } else {
            None
        }
    }

    /// Ends the guard and hands out its sentinel wrapper when armed, or the
    /// [`GuardNotArmed`] failure when disarmed.
    pub fn try_into_guard(self) -> (r: Result<NoDropPass<Msg, ()>, GuardNotArmed>)
        ensures
            match r {
                Ok(sentinel) => self@ && sentinel.value() == (),
                Err(e) => !self@ && e == GuardNotArmed,
            },
    {
        match self.into_guard() {
            Some(sentinel) => Ok(sentinel),
            None => Err(GuardNotArmed),
        }
    }
}

impl From<NoDropPass<Empty, ()>> for DropGuardPass<Empty> {
    /// Adopts an existing sentinel: the guard starts armed.
    fn from(no_drop: NoDropPass<Empty, ()>) -> (r: Self)
        ensures
            r@ == true,
    {
        let _ = no_drop;
        DropGuardPass { armed: true, marker: PhantomData }
    }
}

impl vstd::std_specs::convert::FromSpecImpl<NoDropPass<Empty, ()>> for DropGuardPass<Empty> {
    open spec fn obeys_from_spec() -> bool {
        true
    }

    closed spec fn from_spec(no_drop: NoDropPass<Empty, ()>) -> Self {
        DropGuardPass { armed: true, marker: PhantomData }
    }
}

impl From<NoDropPass<Msg, ()>> for DropGuardPass<Msg> {
    /// Adopts an existing sentinel: the guard starts armed.
    fn from(no_drop: NoDropPass<Msg, ()>) -> (r: Self)
        ensures
            r@ == true,
    {
        let _ = no_drop;
        DropGuardPass { armed: true, marker: PhantomData }
    }
}

impl vstd::std_specs::convert::FromSpecImpl<NoDropPass<Msg, ()>> for DropGuardPass<Msg> {
    open spec fn obeys_from_spec() -> bool {
        true
    }

    closed spec fn from_spec(no_drop: NoDropPass<Msg, ()>) -> Self {
        DropGuardPass { armed: true, marker: PhantomData }
    }
}

} // verus!
