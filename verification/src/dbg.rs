//! The checked configuration's names.
//!
//! Call sites import the wrapper and guard types from here when the
//! consumption obligation is meant for development builds. In this crate the
//! names resolve to the enforcing types, whose destruction verdict is stated
//! and proved; an embedder that wants the zero-overhead variants instead
//! rebinds the same names to the passthrough types ([`crate::NoDropPass`],
//! [`crate::DropGuardPass`]), which carry the same method surface.

pub use crate::guards::drop_guard_empty::DropGuardEmpty;
pub use crate::guards::drop_guard_msg::DropGuardMsg as DropGuard;
pub use crate::into::IntoNoDropRls as IntoNoDrop;
pub use crate::no_drop::no_drop_empty::NoDropEmpty;
pub use crate::no_drop::no_drop_empty::NoDropEmpty as NoDrop;
pub use crate::no_drop::no_drop_msg::NoDropMsg;
