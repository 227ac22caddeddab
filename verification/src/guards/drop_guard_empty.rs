use vstd::prelude::*;

use crate::guards::GuardNotArmed;
use crate::no_drop::no_drop_empty::default_unwrapped_text;
use crate::no_drop::no_drop_empty::NoDropEmpty;

verus! {

/// A toggleable drop guard without a custom message.
///
/// The guard is a mutable cell holding at most one [`NoDropEmpty`] sentinel:
/// it is armed exactly when the sentinel is present. Its view is that `bool`.
/// While armed, implicit destruction is a contract violation
/// ([`Self::drop_fatal`]); disarmed, destruction is safe.
#[derive(Debug, PartialEq, Eq)]
pub struct DropGuardEmpty {
    sentinel: Option<NoDropEmpty<()>>,
}

impl View for DropGuardEmpty {
    type V = bool;

    /// Whether the guard is armed.
    closed spec fn view(&self) -> bool {
        self.sentinel is Some
    }
}

impl DropGuardEmpty {
    /// Implicit destruction is a contract violation exactly while armed.
    pub open spec fn drop_fatal(self) -> bool {
        self@
    }

    /// The diagnostic text owed on implicit destruction while armed: the
    /// sentinel's fixed default.
    pub open spec fn drop_text(self) -> Seq<char> {
        default_unwrapped_text()
    }

    /// A new armed guard.
    #[must_use]
    pub fn new_armed() -> (r: Self)
        ensures
            r@ == true,
    {
        DropGuardEmpty { sentinel: Some(NoDropEmpty::new()) }
    }

    /// A new disarmed guard.
    #[must_use]
    pub fn new_disarmed() -> (r: Self)
        ensures
            r@ == false,
    {
        DropGuardEmpty { sentinel: None }
    }

    /// Whether the guard is armed. Pure query, no transition.
    #[must_use]
    pub fn armed(&self) -> (r: bool)
        ensures
            r == self@,
    {
        self.sentinel.is_some()
    }

    /// Whether the guard is disarmed. Pure query, no transition.
    #[must_use]
    pub fn disarmed(&self) -> (r: bool)
        ensures
            r == !self@,
    {
        self.sentinel.is_none()
    }

    /// Arms the guard. Returns `true` when this changed the state, `false`
    /// when the guard was already armed.
    pub fn arm(&mut self) -> (r: bool)
        ensures
            final(self)@ == true,
            r == !old(self)@,
    {
        let was_armed = self.sentinel.is_some();
        if !was_armed {
            self.sentinel = Some(NoDropEmpty::new());
        }
        !was_armed
    }

    /// Disarms the guard. Returns `true` when this changed the state, `false`
    /// when the guard was already disarmed. The sentinel, if any, is ended
    /// through its sanctioned consumption, so disarming never owes a
    /// diagnostic.
    pub fn disarm(&mut self) -> (r: bool)
        ensures
            final(self)@ == false,
            r == old(self)@,
    {
        let mut taken: Option<NoDropEmpty<()>> = None;
        core::mem::swap(&mut self.sentinel, &mut taken);
        match taken {
            Some(sentinel) => {
                sentinel.forget();
                true
            },
            None => false,
        }
    }

    /// Ends the guard and hands out its sentinel wrapper: the sentinel, with
    /// its consumption obligation, when armed; nothing when disarmed.
    #[must_use]
    pub fn into_guard(self) -> (r: Option<NoDropEmpty<()>>)
        ensures
            match r {
                Some(sentinel) => self@ && sentinel.value() == (),
                None => !self@,
            },
    {
        self.sentinel
    }

    /// Ends the guard and hands out its sentinel wrapper when armed, or the
    /// [`GuardNotArmed`] failure when disarmed.
    pub fn try_into_guard(self) -> (r: Result<NoDropEmpty<()>, GuardNotArmed>)
        ensures
            match r {
                Ok(sentinel) => self@ && sentinel.value() == (),
                Err(e) => !self@ && e == GuardNotArmed,
            },
    {
        match self.into_guard() {
            Some(sentinel) => Ok(sentinel),
            None => Err(GuardNotArmed),
        }
    }

    /// The text that an implicit destruction of this guard must announce:
    /// the sentinel's text while armed, nothing while disarmed.
    pub fn fatal_message(&self) -> (r: Option<String>)
        ensures
            match r {
                Some(s) => self@ && s@ == self.drop_text(),
                None => !self@,
            },
    {
        match &self.sentinel {
            Some(sentinel) => Some(sentinel.fatal_message()),
            None => None,
        }
    }
}

impl Clone for DropGuardEmpty {
    /// A guard in the same state.
    fn clone(&self) -> (r: Self)
        ensures
            r@ == self@,
    {
        if self.armed() {
            DropGuardEmpty::new_armed()
        } else {
            DropGuardEmpty::new_disarmed()
        }
    }
}

impl From<NoDropEmpty<()>> for DropGuardEmpty {
    /// Adopts an existing sentinel: the guard starts armed and now carries
    /// the sentinel's consumption obligation.
    fn from(no_drop: NoDropEmpty<()>) -> (r: Self)
        ensures
            r@ == true,
    {
        DropGuardEmpty { sentinel: Some(no_drop) }
    }
}

impl vstd::std_specs::convert::FromSpecImpl<NoDropEmpty<()>> for DropGuardEmpty {
    open spec fn obeys_from_spec() -> bool {
        true
    }

    closed spec fn from_spec(no_drop: NoDropEmpty<()>) -> Self {
        DropGuardEmpty { sentinel: Some(no_drop) }
    }
}

} // verus!
