//! A span of time in whole seconds plus nanoseconds, used for the client's
//! connect timeout and the sidecar reconnection backoff.

use vstd::prelude::*;

verus! {

/// Nanoseconds in one second.
pub const NANOS_PER_SEC: u32 = 1_000_000_000;

/// A span of time: `secs` whole seconds plus `nanos` (below one second).
#[derive(Clone, Copy, Debug, PartialEq, Eq, Structural)]
pub struct Duration {
    secs: u64,
    nanos: u32,
}

impl View for Duration {
    type V = nat;

    /// The span in nanoseconds.
    closed spec fn view(&self) -> nat {
        (self.secs as nat) * (NANOS_PER_SEC as nat) + (self.nanos as nat)
    }
}

impl Duration {
    /// The seconds part.
    pub closed spec fn spec_secs(&self) -> nat {
        self.secs as nat
    }

    /// The sub-second part, in nanoseconds.
    pub closed spec fn spec_subsec_nanos(&self) -> nat {
        self.nanos as nat
    }

    /// A value is well formed when its sub-second part is below one second.
    pub closed spec fn wf(&self) -> bool {
        self.nanos < NANOS_PER_SEC
    }

    /// Every duration that exists at run time is well formed; callers learn
    /// it of a value `d` with `use_type_invariant(&d)`.
    #[verifier::type_invariant]
    pub open spec fn sub_second_nanos(self) -> bool {
        self.wf()
    }

    /// The fields determine the value, and the view is seconds and nanoseconds.
    pub proof fn lemma_parts(&self)
        ensures
            self@ == self.spec_secs() * (NANOS_PER_SEC as nat) + self.spec_subsec_nanos(),
            self.wf() ==> self.spec_subsec_nanos() < NANOS_PER_SEC,
    {
    }

    /// What a whole number of seconds looks like.
    pub proof fn lemma_spec_from_secs(secs: u64)
        ensures
            Duration::spec_from_secs(secs).wf(),
            Duration::spec_from_secs(secs).spec_secs() == secs,
            Duration::spec_from_secs(secs).spec_subsec_nanos() == 0,
            Duration::spec_from_secs(secs)@ == secs * (NANOS_PER_SEC as nat),
    {
    }

    /// Two well-formed durations with the same view are equal.
    pub proof fn lemma_view_injective(a: Duration, b: Duration)
        requires
            a.wf(),
            b.wf(),
            a@ == b@,
        ensures
            a == b,
    {
        assert(a.secs == b.secs && a.nanos == b.nanos) by (nonlinear_arith)
            requires
                a.nanos < 1_000_000_000,
                b.nanos < 1_000_000_000,
                (a.secs as nat) * 1_000_000_000 + (a.nanos as nat) == (b.secs as nat)
                    * 1_000_000_000 + (b.nanos as nat),
        ;
    }

    /// The duration of `secs` whole seconds.
    pub closed spec fn spec_from_secs(secs: u64) -> Duration {
        Duration { secs, nanos: 0 }
    }

    /// A duration of `secs` whole seconds.
    pub fn from_secs(secs: u64) -> (d: Duration)
        ensures
            d == Duration::spec_from_secs(secs),
            d.wf(),
            d.spec_secs() == secs,
            d.spec_subsec_nanos() == 0,
            d@ == secs * (NANOS_PER_SEC as nat),
    {
        Duration { secs, nanos: 0 }
    }

    /// A duration of `millis` milliseconds.
    pub fn from_millis(millis: u64) -> (d: Duration)
        ensures
            d.wf(),
            d@ == millis * 1_000_000,
    {
        let secs = millis / 1000;
        let rem = millis % 1000;
        let nanos = (rem as u32) * 1_000_000;
        assert(secs * 1_000_000_000 + rem * 1_000_000 == millis * 1_000_000) by (nonlinear_arith)
            requires
                secs == millis / 1000,
                rem == millis % 1000,
        ;
        Duration { secs, nanos }
    }

    /// A duration of `secs` seconds plus `nanos` nanoseconds; whole seconds
    /// in `nanos` carry over into the seconds, which must not overflow.
    pub fn new(secs: u64, nanos: u32) -> (d: Duration)
        requires
            secs + nanos / NANOS_PER_SEC <= u64::MAX,
        ensures
            d.wf(),
            d.spec_secs() == secs + nanos / NANOS_PER_SEC,
            d.spec_subsec_nanos() == nanos % NANOS_PER_SEC,
            d@ == secs * (NANOS_PER_SEC as nat) + nanos,
    {
        if nanos < NANOS_PER_SEC {
            Duration { secs, nanos }
        } else {
            let extra = (nanos / NANOS_PER_SEC) as u64;
            let d = Duration { secs: secs + extra, nanos: nanos % NANOS_PER_SEC };
            assert(nanos == (nanos / NANOS_PER_SEC) * NANOS_PER_SEC + nanos % NANOS_PER_SEC);
            assert((secs + extra) * 1_000_000_000 == secs * 1_000_000_000 + extra * 1_000_000_000)
                by (nonlinear_arith);
            d
        }
    }

    /// The whole seconds.
    pub fn as_secs(&self) -> (r: u64)
        ensures
            r == self.spec_secs(),
    {
        self.secs
    }

    /// The sub-second part, in nanoseconds.
    pub fn subsec_nanos(&self) -> (r: u32)
        ensures
            r == self.spec_subsec_nanos(),
    {
        self.nanos
    }

    /// Whether `self` is no longer than `other`.
    pub fn le(&self, other: &Duration) -> (r: bool)
        ensures
            r == (self@ <= other@),
    {
        proof {
            use_type_invariant(self);
            use_type_invariant(other);
            assert((self.secs < other.secs ==> self@ < other@) && (self.secs > other.secs
                ==> self@ > other@)) by (nonlinear_arith)
                requires
                    self.nanos < 1_000_000_000,
                    other.nanos < 1_000_000_000,
                    self@ == (self.secs as nat) * 1_000_000_000 + (self.nanos as nat),
                    other@ == (other.secs as nat) * 1_000_000_000 + (other.nanos as nat),
            ;
        }
        self.secs < other.secs || (self.secs == other.secs && self.nanos <= other.nanos)
    }

    /// The shorter of two durations (the first when they are equal).
    pub fn min(self, other: Duration) -> (r: Duration)
        ensures
            r.wf(),
            r@ == if self@ <= other@ { self@ } else { other@ },
            r == self || r == other,
    {
        proof {
            use_type_invariant(&self);
            use_type_invariant(&other);
        }
        if self.le(&other) {
            self
        } else {
            other
        }
    }

    /// Twice this duration, when that fits.
    pub fn double(self) -> (r: Duration)
        requires
            self.spec_secs() * 2 + 1 <= u64::MAX,
        ensures
            r.wf(),
            r@ == self@ * 2,
    {
        proof {
            use_type_invariant(&self);
        }
        let n = self.nanos * 2;
        if n >= NANOS_PER_SEC {
            Duration { secs: self.secs * 2 + 1, nanos: n - NANOS_PER_SEC }
        } else {
            Duration { secs: self.secs * 2, nanos: n }
        }
    }
}

} // verus!
