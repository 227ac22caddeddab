use vstd::prelude::*;

verus! {

/// A wrapper around a `T` with a custom diagnostic message, which must be
/// ended explicitly, by [`Self::unwrap`] (or its alias [`Self::consume`]) or
/// by [`Self::forget`].
///
/// Implicit destruction of this wrapper is a contract violation:
/// [`Self::drop_fatal`] always holds, and [`Self::drop_text`] is the attached
/// message, so each call site can fail with its own diagnostic. An embedder
/// that runs the wrapper to its destructor queries [`Self::message`] for that
/// text.
#[derive(Debug, PartialEq, Eq, PartialOrd, Ord, Hash)]
#[must_use]
pub struct NoDropMsg<T = ()> {
    value: T,
    msg: String,
}

impl<T> core::ops::Deref for NoDropMsg<T> {
    type Target = T;

    /// Read access to the payload without ending the wrapper.
    fn deref(&self) -> (r: &T)
        ensures
            *r == self.value(),
    {
        &self.value
    }
}

impl<T> NoDropMsg<T> {
    /// The wrapped payload.
    pub closed spec fn value(self) -> T {
        self.value
    }

    /// The attached diagnostic message.
    pub closed spec fn msg(self) -> Seq<char> {
        self.msg@
    }

    /// Implicit destruction is always a contract violation for this type.
    pub open spec fn drop_fatal(self) -> bool {
        true
    }

    /// The diagnostic text owed on implicit destruction: the attached
    /// message.
    pub open spec fn drop_text(self) -> Seq<char> {
        self.msg()
    }

    /// Wraps `value` with the diagnostic message `msg`.
    pub fn wrap(value: T, msg: &str) -> (r: Self)
        ensures
            r.value() == value,
            r.msg() == msg@,
    {
        NoDropMsg { value, msg: msg.to_owned() }
    }

    /// Wraps `value` with the diagnostic message `msg`; alias of
    /// [`Self::wrap`].
    pub fn wrap_msg(value: T, msg: &str) -> (r: Self)
        ensures
            r.value() == value,
            r.msg() == msg@,
    {
        NoDropMsg { value, msg: msg.to_owned() }
    }

    /// Ends the wrapper and returns the payload.
    #[must_use]
    pub fn unwrap(self) -> (r: T)
        ensures
            r == self.value(),
    {
        let NoDropMsg { value, msg } = self;
        let _ = msg;
        value
    }

    /// Ends the wrapper and returns the payload; alias of [`Self::unwrap`].
    #[must_use]
    pub fn consume(self) -> (r: T)
        ensures
            r == self.value(),
    {
        self.unwrap()
    }

    /// Ends the wrapper on purpose without extracting the payload, which is
    /// then destroyed ordinarily.
    pub fn forget(self) {
        let _ = self;
    }

    /// The attached diagnostic message, which an implicit destruction of this
    /// wrapper must announce.
    pub fn message(&self) -> (r: &str)
        ensures
            r@ == self.msg(),
    {
        self.msg.as_str()
    }
}

impl NoDropMsg<()> {
    /// A sentinel wrapper with the diagnostic message `msg`: no payload, only
    /// the consumption obligation.
    pub fn guard(msg: &str) -> (r: Self)
        ensures
            r.value() == (),
            r.msg() == msg@,
    {
        NoDropMsg { value: (), msg: msg.to_owned() }
    }

    /// Builds a sentinel that adopts an already-owned message, so a guard can
    /// re-arm without copying the text it retained.
    pub(crate) fn guard_owned(msg: String) -> (r: Self)
        ensures
            r.value() == (),
            r.msg() == msg@,
    {
        NoDropMsg { value: (), msg }
    }

    /// Ends the sentinel and hands back the diagnostic message. This is the
    /// sanctioned internal extraction a guard uses when it disarms: it is an
    /// explicit consumption, not an implicit destruction, so nothing is owed
    /// afterwards.
    pub(crate) fn unwrap_msg(self) -> (r: String)
        ensures
            r@ == self.msg(),
    {
        let NoDropMsg { value, msg } = self;
        let _ = value;
        msg
    }
}

impl Clone for NoDropMsg<()> {
    /// Cloning a sentinel mints a fresh consumption obligation carrying the
    /// same message.
    fn clone(&self) -> (r: Self)
        ensures
            r.value() == self.value(),
            r.msg() == self.msg(),
    {
        NoDropMsg { value: (), msg: self.msg.clone() }
    }
}

} // verus!
