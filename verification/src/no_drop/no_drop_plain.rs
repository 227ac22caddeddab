use vstd::prelude::*;

verus! {

/// The diagnostic text a [`NoDrop`] owes on implicit destruction.
pub open spec fn default_consumed_text() -> Seq<char> {
    "Value was dropped without being consumed"@
}

/// A wrapper around a `T` that must be ended explicitly, by [`Self::consume`]
/// or by [`Self::forget`].
///
/// This is the sibling of [`crate::NoDropEmpty`]: the same obligation, but
/// its sanctioned extraction verb is `consume` alone and its fixed diagnostic
/// speaks of consumption. Implicit destruction is a contract violation:
/// [`Self::drop_fatal`] always holds, and [`Self::drop_text`] gives the fixed
/// text that such a destruction must announce. An embedder that runs the
/// wrapper to its destructor queries [`Self::fatal_message`] for that text.
#[derive(Debug, PartialEq, Eq, PartialOrd, Ord, Hash)]
#[must_use]
pub struct NoDrop<T = ()> {
    value: T,
}

impl<T> NoDrop<T> {
    /// The wrapped payload.
    pub closed spec fn value(self) -> T {
        self.value
    }

    /// Implicit destruction is always a contract violation for this type.
    pub open spec fn drop_fatal(self) -> bool {
        true
    }

    /// The diagnostic text owed on implicit destruction: the fixed default.
    pub open spec fn drop_text(self) -> Seq<char> {
        default_consumed_text()
    }

    /// Wraps `value`, taking ownership of it.
    pub fn wrap(value: T) -> (r: Self)
        ensures
            r.value() == value,
    {
        NoDrop { value }
    }

    /// Ends the wrapper and returns the payload.
    #[must_use]
    pub fn consume(self) -> (r: T)
        ensures
            r == self.value(),
    {
        self.value
    }

    /// Ends the wrapper on purpose without extracting the payload, which is
    /// then destroyed ordinarily.
    pub fn forget(self) {
        let _ = self;
    }

    /// The text that an implicit destruction of this wrapper must announce.
    pub fn fatal_message(&self) -> (r: String)
        ensures
            r@ == self.drop_text(),
    {
        "Value was dropped without being consumed".to_owned()
    }
}

impl<T> core::ops::Deref for NoDrop<T> {
    type Target = T;

    /// Read access to the payload without ending the wrapper.
    fn deref(&self) -> (r: &T)
        ensures
            *r == self.value(),
    {
        &self.value
    }
}

impl NoDrop<()> {
    /// A sentinel wrapper: no payload, only the consumption obligation.
    pub fn new() -> (r: Self)
        ensures
            r.value() == (),
    {
        NoDrop { value: () }
    }
}

impl Default for NoDrop<()> {
    /// Same as [`NoDrop::new`].
    fn default() -> (r: Self)
        ensures
            r.value() == (),
    {
        NoDrop { value: () }
    }
}

} // verus!
