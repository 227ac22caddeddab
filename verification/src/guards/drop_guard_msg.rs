use vstd::prelude::*;

use crate::guards::GuardNotArmed;
use crate::no_drop::no_drop_msg::NoDropMsg;

verus! {

/// The abstract state of a message-carrying guard: whether it is armed, and
/// the diagnostic message it retains.
#[verifier::ext_equal]
pub struct GuardView {
    /// Whether implicit destruction is currently forbidden.
    pub armed: bool,
    /// The retained diagnostic message.
    pub msg: Seq<char>,
}

/// The state of a guard freshly armed with `msg`.
pub open spec fn armed_view(msg: Seq<char>) -> GuardView {
    GuardView { armed: true, msg }
}

/// The state of a guard freshly disarmed with `msg`.
pub open spec fn disarmed_view(msg: Seq<char>) -> GuardView {
    GuardView { armed: false, msg }
}

/// The state transition of `arm`: the guard is armed afterwards, and the
/// retained message is kept.
pub open spec fn arm_view(v: GuardView) -> GuardView {
    GuardView { armed: true, msg: v.msg }
}

/// The state transition of `disarm`: the guard is disarmed afterwards, and
/// the retained message is kept.
pub open spec fn disarm_view(v: GuardView) -> GuardView {
    GuardView { armed: false, msg: v.msg }
}

/// What `arm` reports: `true` exactly when it changed the state.
pub open spec fn arm_report(v: GuardView) -> bool {
    !v.armed
}

/// What `disarm` reports: `true` exactly when it changed the state.
pub open spec fn disarm_report(v: GuardView) -> bool {
    v.armed
}

/// Whether implicit destruction of a guard in state `v` is a contract
/// violation.
pub open spec fn guard_drop_fatal(v: GuardView) -> bool {
    v.armed
}

/// The diagnostic text owed when a guard in state `v` is destroyed while
/// armed.
pub open spec fn guard_drop_text(v: GuardView) -> Seq<char> {
    v.msg
}

#[derive(Debug, PartialEq, Eq)]
enum DropGuardMsgState {
    Armed(NoDropMsg<()>),
    Disarmed(String),
}

/// A toggleable drop guard with a custom diagnostic message.
///
/// While armed, the guard holds a [`NoDropMsg`] sentinel carrying the
/// message, and implicit destruction is a contract violation announced with
/// that message ([`Self::drop_fatal`], [`Self::drop_text`]). Disarming ends
/// the sentinel through its sanctioned internal extraction — an explicit
/// consumption, never the violation path — and retains the message, so the
/// guard can be re-armed with the same diagnostic for as long as it lives.
#[derive(Debug, PartialEq, Eq)]
pub struct DropGuardMsg {
    state: DropGuardMsgState,
}

impl View for DropGuardMsg {
    type V = GuardView;

    closed spec fn view(&self) -> GuardView {
        match self.state {
            DropGuardMsgState::Armed(sentinel) => GuardView { armed: true, msg: sentinel.msg() },
            DropGuardMsgState::Disarmed(msg) => GuardView { armed: false, msg: msg@ },
        }
    }
}

impl DropGuardMsg {
    /// Implicit destruction is a contract violation exactly while armed.
    pub open spec fn drop_fatal(self) -> bool {
        guard_drop_fatal(self@)
    }

    /// The diagnostic text owed on implicit destruction while armed: the
    /// retained message.
    pub open spec fn drop_text(self) -> Seq<char> {
        guard_drop_text(self@)
    }

    /// A new armed guard with the diagnostic message `msg`.
    #[must_use]
    pub fn new_armed(msg: &str) -> (r: Self)
        ensures
            r@ == armed_view(msg@),
    {
        DropGuardMsg { state: DropGuardMsgState::Armed(NoDropMsg::guard(msg)) }
    }

    /// A new disarmed guard retaining the diagnostic message `msg`, to be
    /// used if the guard is later armed.
    #[must_use]
    pub fn new_disarmed(msg: &str) -> (r: Self)
        ensures
            r@ == disarmed_view(msg@),
    {
        DropGuardMsg { state: DropGuardMsgState::Disarmed(msg.to_owned()) }
    }

    /// Whether the guard is armed. Pure query, no transition.
    #[must_use]
    pub fn armed(&self) -> (r: bool)
        ensures
            r == self@.armed,
    {
        match &self.state {
            DropGuardMsgState::Armed(_) => true,
            DropGuardMsgState::Disarmed(_) => false,
        }
    }

    /// Whether the guard is disarmed. Pure query, no transition.
    #[must_use]
    pub fn disarmed(&self) -> (r: bool)
        ensures
            r == !self@.armed,
    {
        !self.armed()
    }

    /// Arms the guard, wrapping the retained message into a fresh sentinel.
    /// Returns `true` when this changed the state, `false` when the guard was
    /// already armed. The message is kept either way.
    pub fn arm(&mut self) -> (r: bool)
        ensures
            final(self)@ == arm_view(old(self)@),
            r == arm_report(old(self)@),
    {
        let mut taken = DropGuardMsgState::Disarmed(String::new());
        core::mem::swap(&mut self.state, &mut taken);
        match taken {
            DropGuardMsgState::Armed(sentinel) => {
                self.state = DropGuardMsgState::Armed(sentinel);
                false
            },
            DropGuardMsgState::Disarmed(msg) => {
                self.state = DropGuardMsgState::Armed(NoDropMsg::guard_owned(msg));
                true
            },
        }
    }

    /// Disarms the guard, ending the sentinel through its sanctioned internal
    /// extraction and retaining its message. Returns `true` when this changed
    /// the state, `false` when the guard was already disarmed. Disarming
    /// never owes a diagnostic.
    pub fn disarm(&mut self) -> (r: bool)
        ensures
            final(self)@ == disarm_view(old(self)@),
            r == disarm_report(old(self)@),
    {
        let mut taken = DropGuardMsgState::Disarmed(String::new());
        core::mem::swap(&mut self.state, &mut taken);
        match taken {
            DropGuardMsgState::Armed(sentinel) => {
                self.state = DropGuardMsgState::Disarmed(sentinel.unwrap_msg());
                true
            },
            DropGuardMsgState::Disarmed(msg) => {
                self.state = DropGuardMsgState::Disarmed(msg);
                false
            },
        }
    }

    /// Ends the guard and hands out its sentinel wrapper: the sentinel, with
    /// its consumption obligation and the retained message, when armed;
    /// nothing when disarmed.
    #[must_use]
    pub fn into_guard(self) -> (r: Option<NoDropMsg<()>>)
        ensures
            match r {
                Some(sentinel) => self@.armed && sentinel.value() == () && sentinel.msg()
                    == self@.msg,
                None => !self@.armed,
            },
    {
        match self.state {
            DropGuardMsgState::Armed(sentinel) => Some(sentinel),
            DropGuardMsgState::Disarmed(msg) => {
                let _ = msg;
                None
            },
        }
    }

    /// Ends the guard and hands out its sentinel wrapper when armed, or the
    /// [`GuardNotArmed`] failure when disarmed.
    pub fn try_into_guard(self) -> (r: Result<NoDropMsg<()>, GuardNotArmed>)
        ensures
            match r {
                Ok(sentinel) => self@.armed && sentinel.value() == () && sentinel.msg()
                    == self@.msg,
                Err(e) => !self@.armed && e == GuardNotArmed,
            },
    {
        match self.into_guard() {
            Some(sentinel) => Ok(sentinel),
            None => Err(GuardNotArmed),
        }
    }

    /// The retained diagnostic message, in either state.
    pub fn message(&self) -> (r: &str)
        ensures
            r@ == self@.msg,
    {
        match &self.state {
            DropGuardMsgState::Armed(sentinel) => sentinel.message(),
            DropGuardMsgState::Disarmed(msg) => msg.as_str(),
        }
    }

    /// The text that an implicit destruction of this guard must announce:
    /// the retained message while armed, nothing while disarmed.
    pub fn fatal_message(&self) -> (r: Option<String>)
        ensures
            match r {
                Some(s) => self@.armed && s@ == self.drop_text(),
                None => !self@.armed,
            },
    {
        if self.armed() {
            Some(self.message().to_owned())
        } else {
            None
        }
    }
}

impl Clone for DropGuardMsg {
    /// A guard in the same state, retaining the same message.
    fn clone(&self) -> (r: Self)
        ensures
            r@ == self@,
    {
        let r = if self.armed() {
            DropGuardMsg::new_armed(self.message())
        } else {
            DropGuardMsg::new_disarmed(self.message())
        };
        proof {
            assert(r@ =~= self@);
        }
        r
    }
}

} // verus!
