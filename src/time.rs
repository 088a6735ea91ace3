use vstd::prelude::*;

verus! {

/// Seconds from the Unix epoch to 0001-01-01T00:00:00Z.
pub const MIN_SECS: i64 = -62_135_596_800;

/// Seconds from the Unix epoch to 9999-12-31T23:59:59Z.
pub const MAX_SECS: i64 = 253_402_300_799;

pub const NANOS_PER_SEC: u32 = 1_000_000_000;

/// The largest magnitude of a UTC offset, in seconds (just under one day).
pub const MAX_OFFSET: i32 = 86_399;

/// An instant within the years 1 to 9999, with a sub-second part that is not a
/// leap second, seen from a UTC offset of less than one day.
pub open spec fn valid_instant(secs: int, nanos: int, offset: int) -> bool {
    &&& MIN_SECS <= secs <= MAX_SECS
    &&& 0 <= nanos < NANOS_PER_SEC
    &&& -MAX_OFFSET <= offset <= MAX_OFFSET
}

/// The RFC 3339 text of the instant `secs` + `nanos` after the Unix epoch,
/// written in local time at UTC offset `offset` seconds.
pub uninterp spec fn rfc3339_of(secs: int, nanos: int, offset: int) -> Seq<char>;

/// Relies on chrono's `DateTime::to_rfc3339` for the text of an instant.
/// `DateTime::from_timestamp` and `FixedOffset::east_opt` only build its
/// argument; they return `Some` for every instant that `valid_instant` admits.
#[verifier::external_body]
fn rfc3339(secs: i64, nanos: u32, offset: i32) -> (r: String)
    requires
        valid_instant(secs as int, nanos as int, offset as int),
    ensures
        r@ == rfc3339_of(secs as int, nanos as int, offset as int),
{
    let utc = chrono::DateTime::from_timestamp(secs, nanos).expect("instant in range");
    let zone = chrono::FixedOffset::east_opt(offset).expect("offset under one day");
    utc.with_timezone(&zone).to_rfc3339()
}

proof fn bounded_product(secs: int)
    requires
        MIN_SECS <= secs <= MAX_SECS,
    ensures
        MIN_SECS * NANOS_PER_SEC <= secs * NANOS_PER_SEC <= MAX_SECS * NANOS_PER_SEC,
{
    assert(MIN_SECS * NANOS_PER_SEC <= secs * NANOS_PER_SEC <= MAX_SECS * NANOS_PER_SEC)
        by (nonlinear_arith)
        requires
            MIN_SECS <= secs <= MAX_SECS,
    ;
}

/// A wall-clock instant: whole seconds and nanoseconds since the Unix epoch,
/// and the UTC offset (in seconds) of the local time it was read in.
#[derive(Clone, Copy, Debug, PartialEq, Eq)]
pub struct Timestamp {
    secs: i64,
    nanos: u32,
    offset: i32,
}

impl Timestamp {
    #[verifier::type_invariant]
    spec fn inv(&self) -> bool {
        valid_instant(self.secs as int, self.nanos as int, self.offset as int)
    }

    pub closed spec fn spec_secs(&self) -> int {
        self.secs as int
    }

    pub closed spec fn spec_nanos(&self) -> int {
        self.nanos as int
    }

    pub closed spec fn spec_offset(&self) -> int {
        self.offset as int
    }

    /// The RFC 3339 text of this instant in its own local time.
    pub open spec fn text(&self) -> Seq<char> {
        rfc3339_of(self.spec_secs(), self.spec_nanos(), self.spec_offset())
    }

    /// The instant as nanoseconds since the Unix epoch.
    pub open spec fn epoch_nanos(&self) -> int {
        self.spec_secs() * NANOS_PER_SEC + self.spec_nanos()
    }

    /// Builds a timestamp; `None` exactly when the values leave the supported
    /// range (years 1 to 9999, nanoseconds under one second, offset under a day).
    pub fn new(secs: i64, nanos: u32, offset: i32) -> (r: Option<Timestamp>)
        ensures
            r is Some <==> valid_instant(secs as int, nanos as int, offset as int),
            r matches Some(t) ==> t.spec_secs() == secs && t.spec_nanos() == nanos
                && t.spec_offset() == offset,
    {
        if MIN_SECS <= secs && secs <= MAX_SECS && nanos < NANOS_PER_SEC && -MAX_OFFSET <= offset
            && offset <= MAX_OFFSET {
            Some(Timestamp { secs, nanos, offset })
        } else {
            None
        }
    }

    pub fn secs(&self) -> (r: i64)
        ensures
            r == self.spec_secs(),
    {
        self.secs
    }

    pub fn nanos(&self) -> (r: u32)
        ensures
            r == self.spec_nanos(),
            r < NANOS_PER_SEC,
    {
        proof {
            use_type_invariant(self);
        }
        self.nanos
    }

    pub fn offset(&self) -> (r: i32)
        ensures
            r == self.spec_offset(),
    {
        self.offset
    }

    /// The RFC 3339 text of this instant, as the log and the acquisition
    /// table write it.
    pub fn to_rfc3339(&self) -> (r: String)
        ensures
            r@ == self.text(),
    {
        proof {
            use_type_invariant(self);
        }
        rfc3339(self.secs, self.nanos, self.offset)
    }

    /// Nanoseconds from `self` to `later` (negative when `later` is earlier).
    pub fn nanos_until(&self, later: &Timestamp) -> (r: i128)
        ensures
            r == later.epoch_nanos() - self.epoch_nanos(),
    {
        proof {
            use_type_invariant(self);
            use_type_invariant(later);
            bounded_product(self.secs as int);
            bounded_product(later.secs as int);
        }
        let a = self.secs as i128 * NANOS_PER_SEC as i128 + self.nanos as i128;
        let b = later.secs as i128 * NANOS_PER_SEC as i128 + later.nanos as i128;
        b - a
    }
}

} // verus!
