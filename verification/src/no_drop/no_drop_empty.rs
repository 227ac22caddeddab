use vstd::prelude::*;

verus! {

/// The diagnostic text a [`NoDropEmpty`] owes on implicit destruction.
pub open spec fn default_unwrapped_text() -> Seq<char> {
    "Value was dropped without being unwrapped"@
}

/// A wrapper around a `T` that must be ended explicitly, by [`Self::unwrap`]
/// (or its alias [`Self::consume`]) or by [`Self::forget`].
///
/// Implicit destruction of this wrapper is a contract violation:
/// [`Self::drop_fatal`] always holds, and [`Self::drop_text`] gives the fixed
/// diagnostic text that such a destruction must announce. An embedder that
/// runs the wrapper to its destructor queries [`Self::fatal_message`] for
/// that text.
#[derive(Debug, PartialEq, Eq, PartialOrd, Ord, Hash)]
#[must_use]
pub struct NoDropEmpty<T = ()> {
    value: T,
}

impl<T> core::ops::Deref for NoDropEmpty<T> {
    type Target = T;

    /// Read access to the payload without ending the wrapper.
    fn deref(&self) -> (r: &T)
        ensures
            *r == self.value(),
    {
        &self.value
    }
}

impl<T> NoDropEmpty<T> {
    /// The wrapped payload.
    pub closed spec fn value(self) -> T {
        self.value
    }

    /// Implicit destruction is always a contract violation for this type.
    pub open spec fn drop_fatal(self) -> bool {
        true
    }

    /// The diagnostic text owed on implicit destruction: the fixed default.
    pub open spec fn drop_text(self) -> Seq<char> {
        default_unwrapped_text()
    }

    /// Wraps `value`, taking ownership of it.
    pub fn wrap(value: T) -> (r: Self)
        ensures
            r.value() == value,
    {
        NoDropEmpty { value }
    }

    /// Ends the wrapper and returns the payload.
    #[must_use]
    pub fn unwrap(self) -> (r: T)
        ensures
            r == self.value(),
    {
        self.value
    }

    /// Ends the wrapper and returns the payload; alias of [`Self::unwrap`].
    #[must_use]
    pub fn consume(self) -> (r: T)
        ensures
            r == self.value(),
    {
        self.value
    }

    /// Ends the wrapper on purpose without extracting the payload, which is
    /// then destroyed ordinarily.
    pub fn forget(self) {
        let _ = self;
    }

    /// The text that an implicit destruction of this wrapper must announce.
    pub fn fatal_message(&self) -> (r: String)
        ensures
            r@ == self.drop_text(),
    {
        "Value was dropped without being unwrapped".to_owned()
    }
}

impl NoDropEmpty<()> {
    /// A sentinel wrapper: no payload, only the consumption obligation.
    pub fn new() -> (r: Self)
        ensures
            r.value() == (),
    {
        NoDropEmpty { value: () }
    }
}

impl Default for NoDropEmpty<()> {
    /// Same as [`NoDropEmpty::new`].
    fn default() -> (r: Self)
        ensures
            r.value() == (),
    {
        NoDropEmpty { value: () }
    }
}

impl Clone for NoDropEmpty<()> {
    /// Cloning a sentinel mints a fresh consumption obligation.
    fn clone(&self) -> (r: Self)
        ensures
            r.value() == self.value(),
    {
        NoDropEmpty { value: () }
    }
}

} // verus!
