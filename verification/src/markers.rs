use vstd::prelude::*;

verus! {

/// Marker capability set for the passthrough types.
///
/// The set is closed: its supertrait lives in a private module, so `Empty`
/// and `Msg` are the only markers there can be.
pub trait PassMarker: crate::sealed::Sealed {
}

/// Marker for passthrough types without a custom message.
#[derive(Debug, Clone, Copy, PartialEq, Eq)]
pub struct Empty;

impl crate::sealed::Sealed for Empty {
}

impl PassMarker for Empty {
}

/// Marker for passthrough types with a custom message.
#[derive(Debug, Clone, Copy, PartialEq, Eq)]
pub struct Msg;

impl crate::sealed::Sealed for Msg {
}

impl PassMarker for Msg {
}

} // verus!
