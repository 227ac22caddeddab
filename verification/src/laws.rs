//! The laws the library states of itself, proved from the same spec
//! functions its contracts use.

use vstd::prelude::*;

use crate::guards::drop_guard_msg::arm_report;
use crate::guards::drop_guard_msg::arm_view;
use crate::guards::drop_guard_msg::disarm_report;
use crate::guards::drop_guard_msg::disarm_view;
use crate::guards::drop_guard_msg::disarmed_view;
use crate::guards::drop_guard_msg::guard_drop_fatal;
use crate::guards::drop_guard_msg::guard_drop_text;
use crate::guards::drop_guard_msg::GuardView;
use crate::guards::drop_guard_pass::DropGuardPass;
use crate::markers::PassMarker;
use crate::no_drop::no_drop_empty::default_unwrapped_text;
use crate::no_drop::no_drop_empty::NoDropEmpty;
use crate::no_drop::no_drop_msg::NoDropMsg;
use crate::no_drop::no_drop_pass::NoDropPass;
use crate::no_drop::no_drop_plain::default_consumed_text;
use crate::no_drop::no_drop_plain::NoDrop;

verus! {

/// An enforcing wrapper destroyed implicitly always raises the violation:
/// with the attached message for the message-carrying wrapper, and with each
/// plain wrapper's own fixed text — [`NoDrop`] speaks of consumption,
/// [`NoDropEmpty`] of unwrapping.
pub proof fn lemma_enforcing_drop_is_fatal<T>(
    consumable: NoDrop<T>,
    plain: NoDropEmpty<T>,
    with_msg: NoDropMsg<T>,
)
    ensures
        consumable.drop_fatal(),
        consumable.drop_text() == default_consumed_text(),
        plain.drop_fatal(),
        plain.drop_text() == default_unwrapped_text(),
        with_msg.drop_fatal(),
        with_msg.drop_text() == with_msg.msg(),
{
}

/// Arming reports a change exactly when the guard was disarmed, and a second
/// `arm` right after a first one always reports no change; `disarm` behaves
/// symmetrically.
pub proof fn lemma_repeated_toggle_reports_no_change(v: GuardView)
    ensures
        arm_report(v) == !v.armed,
        !arm_report(arm_view(v)),
        disarm_report(v) == v.armed,
        !disarm_report(disarm_view(v)),
{
}

/// Arm/disarm round trips preserve the message: a guard built disarmed with
/// `msg` and then armed is fatal on destruction, with exactly `msg` as its
/// diagnostic.
pub proof fn lemma_rearmed_guard_keeps_message(msg: Seq<char>)
    ensures
        guard_drop_fatal(arm_view(disarmed_view(msg))),
        guard_drop_text(arm_view(disarmed_view(msg))) == msg,
{
}

/// A guard that was just disarmed is safe to destroy, whatever its history:
/// the transition alone decides the verdict.
pub proof fn lemma_disarmed_guard_drops_safely(v: GuardView)
    ensures
        !guard_drop_fatal(disarm_view(v)),
{
}

/// Passthrough wrappers and guards are safe to destroy in every state.
pub proof fn lemma_passthrough_drop_always_safe<M: PassMarker, T>(
    wrapper: NoDropPass<M, T>,
    guard: DropGuardPass<M>,
)
    ensures
        !wrapper.drop_fatal(),
        !guard.drop_fatal(),
{
}

} // verus!
