//! The time allowed for a call, in the two forms in which a request may
//! give it.

use vstd::prelude::*;

verus! {

/// Nanoseconds in one second.
pub const NANOS_PER_SEC: u32 = 1_000_000_000;

/// A length of time: whole seconds and the nanoseconds beyond them, which
/// are always less than a second.
#[derive(Clone, Copy, Debug, PartialEq, Eq, Structural)]
pub struct TimeSpan {
    secs: u64,
    nanos: u32,
}

impl TimeSpan {
    #[verifier::type_invariant]
    spec fn well_formed(self) -> bool {
        self.nanos < NANOS_PER_SEC
    }

    /// The whole seconds.
    pub closed spec fn secs(self) -> u64 {
        self.secs
    }

    /// The nanoseconds beyond the whole seconds.
    pub closed spec fn subsec_nanos(self) -> u32 {
        self.nanos
    }

    /// The whole length in nanoseconds.
    pub open spec fn total_nanos(self) -> nat {
        (self.secs() * NANOS_PER_SEC + self.subsec_nanos()) as nat
    }

    /// The span of `secs` seconds and `nanos` nanoseconds.
    pub closed spec fn of_parts(secs: u64, nanos: u32) -> TimeSpan {
        TimeSpan { secs, nanos }
    }

    /// The span of `n` nanoseconds.
    pub open spec fn of_nanos(n: u64) -> TimeSpan {
        TimeSpan::of_parts(n / (NANOS_PER_SEC as u64), (n % (NANOS_PER_SEC as u64)) as u32)
    }

    /// The span of `secs` seconds and `nanos` nanoseconds, where `nanos` is
    /// less than a second; none where it is not.
    pub fn new(secs: u64, nanos: u32) -> (r: Option<TimeSpan>)
        ensures
            r == if nanos < NANOS_PER_SEC {
                Some(TimeSpan::of_parts(secs, nanos))
            } else {
                None
            },
    {
        if nanos < NANOS_PER_SEC {
            Some(TimeSpan { secs, nanos })
        } else {
            None
        }
    }

    /// The span of `n` nanoseconds.
    pub fn from_nanos(n: u64) -> (r: TimeSpan)
        ensures
            r == TimeSpan::of_nanos(n),
    {
        let per: u64 = NANOS_PER_SEC as u64;
        TimeSpan { secs: n / per, nanos: (n % per) as u32 }
    }

    /// The whole seconds.
    pub fn as_secs(&self) -> (r: u64)
        ensures
            r == self.secs(),
    {
        self.secs
    }

    /// The nanoseconds beyond the whole seconds, always less than a second.
    pub fn nanos_part(&self) -> (r: u32)
        ensures
            r == self.subsec_nanos(),
            r < NANOS_PER_SEC,
    {
        proof {
            use_type_invariant(self);
        }
        self.nanos
    }
}

/// A span is made of its parts, and of nothing else.
pub proof fn lemma_span_parts(secs: u64, nanos: u32)
    ensures
        TimeSpan::of_parts(secs, nanos).secs() == secs,
        TimeSpan::of_parts(secs, nanos).subsec_nanos() == nanos,
        forall|span: TimeSpan|
            span.secs() == secs && span.subsec_nanos() == nanos ==> span == TimeSpan::of_parts(
                secs,
                nanos,
            ),
{
}

/// The span of a count of nanoseconds has that length.
pub proof fn lemma_of_nanos_length(n: u64)
    ensures
        TimeSpan::of_nanos(n).total_nanos() == n,
        TimeSpan::of_nanos(n).subsec_nanos() < NANOS_PER_SEC,
{
    let per = NANOS_PER_SEC as int;
    assert((n as int / per) * per + (n as int % per) == n) by (nonlinear_arith)
        requires
            per > 0,
    ;
}

/// Two spans of the same length are the same span.
pub proof fn lemma_span_by_length(a: TimeSpan, b: TimeSpan)
    requires
        a.subsec_nanos() < NANOS_PER_SEC,
        b.subsec_nanos() < NANOS_PER_SEC,
        a.total_nanos() == b.total_nanos(),
    ensures
        a == b,
{
    let per = NANOS_PER_SEC as int;
    assert(a.secs() == b.secs()) by (nonlinear_arith)
        requires
            a.secs() * per + a.subsec_nanos() == b.secs() * per + b.subsec_nanos(),
            0 <= a.subsec_nanos() < per,
            0 <= b.subsec_nanos() < per,
    ;
}

/// The time allowed for a call, in one of the two forms a request may give.
#[derive(Clone, Copy, Debug, PartialEq, Eq, Structural)]
pub enum Timeout {
    /// Given as a duration string such as `"5s"` or `"200ms"`.
    TimeString(TimeSpan),
    /// Given as a count of nanoseconds.
    Nanosec(u64),
}

/// The length that a duration string such as `"5s"`, `"200ms"` or `"1m+30"`
/// says, in seconds and the nanoseconds beyond them, if it is one.
pub uninterp spec fn duration_of_text(text: Seq<char>) -> Option<(u64, u32)>;

/// Calls `duration_str::parse`, whose outcome depends on the text alone, and
/// takes the `Duration` it gives apart with `as_secs` and `subsec_nanos`, the
/// second of which is always less than a second.
#[verifier::external_body]
fn parse_duration(text: &str) -> (r: Option<(u64, u32)>)
    ensures
        r == duration_of_text(text@),
        r matches Some(parts) ==> parts.1 < NANOS_PER_SEC,
{
    match duration_str::parse(text) {
        Ok(d) => Some((d.as_secs(), d.subsec_nanos())),
        Err(_) => None,
    }
}

/// The timeout that the reading of a duration string gives.
pub open spec fn timeout_of_parts(parts: Option<(u64, u32)>) -> Option<Timeout> {
    match parts {
        Some((secs, nanos)) => if nanos < NANOS_PER_SEC {
            Some(Timeout::TimeString(TimeSpan::of_parts(secs, nanos)))
        } else {
            None
        },
        None => None,
    }
}

impl Timeout {
    /// The timeout that the reading of a duration string gives: the length
    /// read, or none where the text is no duration string.
    pub fn from_parts(parts: Option<(u64, u32)>) -> (r: Option<Timeout>)
        ensures
            r == timeout_of_parts(parts),
    {
        match parts {
            Some((secs, nanos)) => match TimeSpan::new(secs, nanos) {
                Some(span) => Some(Timeout::TimeString(span)),
                None => None,
            },
            None => None,
        }
    }

    /// The timeout that a duration string says, or none where the text is no
    /// duration string. A text is never read as a count of nanoseconds.
    pub fn from_text(text: &str) -> (r: Option<Timeout>)
        ensures
            r == timeout_of_parts(duration_of_text(text@)),
    {
        Timeout::from_parts(parse_duration(text))
    }

    /// The timeout of a count of nanoseconds.
    pub fn from_nanos(n: u64) -> (r: Timeout)
        ensures
            r == Timeout::Nanosec(n),
    {
        Timeout::Nanosec(n)
    }

    /// The time allowed, whichever form it was given in.
    pub open spec fn to_span(self) -> TimeSpan {
        match self {
            Timeout::TimeString(span) => span,
            Timeout::Nanosec(n) => TimeSpan::of_nanos(n),
        }
    }

    /// The time allowed, whichever form it was given in.
    pub fn span(&self) -> (r: TimeSpan)
        ensures
            r == self.to_span(),
    {
        match self {
            Timeout::TimeString(span) => *span,
            Timeout::Nanosec(n) => TimeSpan::from_nanos(*n),
        }
    }
}

/// The two forms of a timeout are one: a duration string and a count of
/// nanoseconds that say the same length allow the same time.
pub proof fn lemma_timeout_forms_agree(span: TimeSpan, n: u64)
    requires
        span.subsec_nanos() < NANOS_PER_SEC,
        span.total_nanos() == n,
    ensures
        Timeout::TimeString(span).to_span() == Timeout::Nanosec(n).to_span(),
{
    lemma_of_nanos_length(n);
    lemma_span_by_length(span, TimeSpan::of_nanos(n));
}

} // verus!
