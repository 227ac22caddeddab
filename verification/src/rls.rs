//! The strict configuration's names.
//!
//! Call sites import the wrapper and guard types from here when the
//! consumption obligation must hold in every build: the names resolve to the
//! enforcing types, and implicit destruction is always a contract violation.

pub use crate::guards::drop_guard_empty::DropGuardEmpty;
pub use crate::guards::drop_guard_msg::DropGuardMsg as DropGuard;
pub use crate::into::IntoNoDropRls as IntoNoDrop;
pub use crate::no_drop::no_drop_empty::NoDropEmpty;
pub use crate::no_drop::no_drop_empty::NoDropEmpty as NoDrop;
pub use crate::no_drop::no_drop_msg::NoDropMsg;
