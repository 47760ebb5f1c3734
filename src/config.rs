//! Durations, the service configuration, and expiry arithmetic.

use vstd::prelude::*;

verus! {

/// Nanoseconds in one second.
pub const NANOS_PER_SEC: u32 = 1_000_000_000;

/// A length of time, or a point in time counted from the Unix epoch:
/// whole seconds and the nanoseconds beyond them.
#[derive(Clone, Copy, Debug, PartialEq, Eq)]
pub struct Span {
    pub secs: u64,
    pub nanos: u32,
}

impl Span {
    pub open spec fn wf(self) -> bool {
        self.nanos < NANOS_PER_SEC
    }

    /// A span of whole seconds.
    pub fn from_secs(secs: u64) -> (r: Span)
        ensures
            r.wf(),
            r.secs == secs,
            r.nanos == 0,
    {
        Span { secs, nanos: 0 }
    }

    /// A span of `secs` seconds and `nanos` nanoseconds.
    pub fn new(secs: u64, nanos: u32) -> (r: Span)
        requires
            nanos < NANOS_PER_SEC,
        ensures
            r.wf(),
            r.secs == secs,
            r.nanos == nanos,
    {
        Span { secs, nanos }
    }
}

/// The whole seconds of `now + ttl`: the sum's fractional part is dropped.
pub open spec fn expiry_secs(now: Span, ttl: Span) -> int {
    now.secs + ttl.secs + if now.nanos + ttl.nanos >= NANOS_PER_SEC {
        1int
    } else {
        0int
    }
}

/// The expiry of content created at `now` that lives for `ttl`, in whole
/// seconds since the epoch. `None` when the clock gave no reading or the
/// result does not fit a signed 64-bit timestamp.
pub open spec fn expiry_of(now: Option<Span>, ttl: Span) -> Option<int> {
    match now {
        Some(t) => if expiry_secs(t, ttl) <= i64::MAX {
            Some(expiry_secs(t, ttl))
        } else {
            None
        },
        None => None,
    }
}

/// Computes the expiry timestamp for content created at `now` with
/// lifetime `ttl`; `None` stands for a clock that cannot be trusted.
pub fn expires_at(now: Option<Span>, ttl: Span) -> (r: Option<i64>)
    requires
        ttl.wf(),
        now matches Some(t) ==> t.wf(),
    ensures
        r matches Some(e) ==> expiry_of(now, ttl) == Some(e as int),
        r is None ==> expiry_of(now, ttl) is None,
{
    match now {
        None => None,
        Some(t) => {
            let carry: u64 = if t.nanos >= NANOS_PER_SEC - ttl.nanos {
                1
            } else {
                0
            };
            if t.secs > i64::MAX as u64 || ttl.secs > i64::MAX as u64 - t.secs
                || carry > i64::MAX as u64 - t.secs - ttl.secs {
                None
            } else {
                Some((t.secs + ttl.secs + carry) as i64)
            }
        },
    }
}

/// The reaper's cutoff for a tick at `now`: whole seconds since the epoch,
/// held at the largest timestamp when the clock reads beyond it.
pub open spec fn cutoff_of(now: Span) -> int {
    if now.secs <= i64::MAX {
        now.secs as int
    } else {
        i64::MAX as int
    }
}

/// Computes the cutoff that a reaper tick at `now` deletes up to.
pub fn reap_cutoff(now: Span) -> (r: i64)
    ensures
        r == cutoff_of(now),
{
    if now.secs > i64::MAX as u64 {
        i64::MAX
    } else {
        now.secs as i64
    }
}

/// The directory the store lives under when the configuration names none.
pub fn _default_path() -> (r: String)
    ensures
        r@ == "/var/lib/imgserv"@,
{
    String::from_str("/var/lib/imgserv")
}

/// The service configuration: the public base URL of returned links, the
/// data directory, the lifetimes of blobs and pastes, and the reaper's period.
pub struct Config {
    pub url: String,
    pub data_dir: String,
    pub image_ttl: Span,
    pub paste_ttl: Span,
    pub cleanup_interval: Span,
}

impl Config {
    pub open spec fn wf(&self) -> bool {
        self.image_ttl.wf() && self.paste_ttl.wf() && self.cleanup_interval.wf()
    }
}

} // verus!
