//! Linear-type emulation: wrappers and guards that owe their caller an
//! explicit consumption.
//!
//! A [`NoDrop`], [`NoDropEmpty`] or [`NoDropMsg`] wrapper takes ownership of
//! a value and
//! must be ended by exactly one of `unwrap`/`consume` (extract the payload)
//! or `forget` (discard it on purpose). Letting such a wrapper reach its
//! destructor instead is a contract violation. A verified destructor may not
//! unwind, so the violation is not raised here: each type states, through its
//! `drop_fatal` and `drop_text` spec functions and the executable
//! `fatal_message`, whether implicit destruction is a violation and with
//! which diagnostic text an embedder's destructor must announce it.
//!
//! The [`NoDropPass`] passthrough family keeps the same method surface but
//! implicit destruction is always safe, so a build can swap enforcement off
//! without touching call sites; the [`markers`] module holds the closed
//! marker set that selects the variant being mirrored.
//!
//! The guard types ([`DropGuardEmpty`], [`DropGuardMsg`], [`DropGuardPass`])
//! are arm/disarm toggles built on the wrappers: armed, they hold a sentinel
//! wrapper and destruction is a violation; disarmed, destruction is safe; the
//! diagnostic message survives arm/disarm round trips. The [`laws`] module
//! proves those guarantees once, over the same spec functions the contracts
//! use.
//!
//! The [`dbg`] and [`rls`] modules bind the configuration names call sites
//! import.

mod sealed;

pub mod markers;

mod guards;
mod into;
pub mod laws;
mod no_drop;

pub mod dbg;
pub mod rls;

pub use guards::drop_guard_empty::DropGuardEmpty;
pub use guards::drop_guard_msg::DropGuardMsg;
pub use guards::drop_guard_msg::GuardView;
pub use guards::drop_guard_pass::DropGuardMsgPassthrough;
pub use guards::drop_guard_pass::DropGuardPass;
pub use guards::GuardNotArmed;
pub use into::IntoNoDropDbg;
pub use into::IntoNoDropRls;
pub use no_drop::no_drop_empty::NoDropEmpty;
pub use no_drop::no_drop_msg::NoDropMsg;
pub use no_drop::no_drop_plain::NoDrop;
pub use no_drop::no_drop_pass::NoDropMsgPassthrough;
pub use no_drop::no_drop_pass::NoDropPass;
pub use no_drop::no_drop_pass::NoDropPassthrough;
