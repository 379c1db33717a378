//! The time limit of a request.

use vstd::prelude::*;

verus! {

/// How long a request may take: whole seconds and the nanoseconds beyond them.
///
/// The longest limit that the type can hold, [`Timeout::unbounded`], stands for no
/// limit at all.
#[derive(Clone, Copy, Debug, PartialEq, Eq, Structural)]
pub struct Timeout {
    secs: u64,
    nanos: u32,
}

impl Timeout {
    #[verifier::type_invariant]
    spec fn in_range(self) -> bool {
        self.nanos < 1_000_000_000
    }

    /// The whole seconds of the limit.
    pub closed spec fn secs(self) -> u64 {
        self.secs
    }

    /// The nanoseconds beyond the whole seconds: below one thousand million.
    pub closed spec fn nanos(self) -> u32 {
        self.nanos
    }

    /// Whether the limit stands for no limit.
    pub open spec fn unbounded_spec(self) -> bool {
        self.secs() == u64::MAX && self.nanos() == 0
    }

    /// A limit of `secs` seconds and `nanos` nanoseconds; `None` where `nanos` is a
    /// full second or more.
    pub fn new(secs: u64, nanos: u32) -> (made: Option<Timeout>)
        ensures
            nanos < 1_000_000_000 <==> made is Some,
            made matches Some(limit) ==> limit.secs() == secs && limit.nanos() == nanos,
    {
        if nanos < 1_000_000_000 {
            Some(Timeout { secs, nanos })
        } else {
            None
        }
    }

    /// A limit of `secs` whole seconds.
    pub fn from_secs(secs: u64) -> (limit: Timeout)
        ensures
            limit.secs() == secs,
            limit.nanos() == 0,
    {
        Timeout { secs, nanos: 0 }
    }

    /// No limit.
    pub fn unbounded() -> (limit: Timeout)
        ensures
            limit.unbounded_spec(),
    {
        Timeout { secs: u64::MAX, nanos: 0 }
    }

    /// The whole seconds of the limit.
    pub fn as_secs(&self) -> (secs: u64)
        ensures
            secs == self.secs(),
    {
        self.secs
    }

    /// The nanoseconds beyond the whole seconds.
    pub fn subsec_nanos(&self) -> (nanos: u32)
        ensures
            nanos == self.nanos(),
            nanos < 1_000_000_000,
    {
        proof {
            use_type_invariant(self);
        }
        self.nanos
    }

    /// Whether the limit stands for no limit.
    pub fn is_unbounded(&self) -> (unbounded: bool)
        ensures
            unbounded == self.unbounded_spec(),
    {
        self.secs == u64::MAX && self.nanos == 0
    }
}

} // verus!
