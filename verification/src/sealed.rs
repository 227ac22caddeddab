use vstd::prelude::*;

verus! {

/// Supertrait that keeps [`crate::markers::PassMarker`] closed: the module is
/// private, so no crate but this one can implement it, and therefore no crate
/// but this one can add a marker.
pub trait Sealed {
}

} // verus!
