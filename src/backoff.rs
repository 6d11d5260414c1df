//! Classification of upstream failures and the per-class backoff schedule.
use vstd::prelude::*;

verus! {

/// Milliseconds in one second.
pub const MILLIS_PER_SEC: u64 = 1000;

/// Class of an upstream failure, which selects the backoff formula.
#[derive(Clone, Copy, Debug, PartialEq, Eq, Structural)]
pub enum ErrorKind {
    /// The upstream answered with HTTP status 420.
    RateLimited,
    /// The upstream answered with any other non-success status.
    BadStatus,
    /// The transport failed (DNS, TLS, connection reset, ...).
    NetError,
    /// Nothing was received from the upstream within the stall window.
    Stall,
    /// Anything else: decoding failures, an unexpected end of stream, ...
    Unspecific,
}

/// Why a running upstream consumer ended, as plain values.
#[derive(Clone, Copy, Debug, PartialEq, Eq, Structural)]
pub enum UpstreamError {
    /// The consumer was started with a follow set of this size, outside `1..=5000`.
    InvalidFollowSet(usize),
    /// The upstream answered with this non-success HTTP status.
    BadStatus(u16),
    /// A transport error.
    NetError,
    /// The upstream went silent for the whole stall window.
    Stall,
    /// Any other failure.
    Unspecific,
}

/// HTTP status the upstream uses to signal rate limiting.
pub const RATE_LIMITED_STATUS: u16 = 420;

pub open spec fn kind_of(e: UpstreamError) -> ErrorKind {
    match e {
        UpstreamError::BadStatus(s) => if s == RATE_LIMITED_STATUS {
            ErrorKind::RateLimited
        } else {
            ErrorKind::BadStatus
        },
        UpstreamError::NetError => ErrorKind::NetError,
        UpstreamError::Stall => ErrorKind::Stall,
        UpstreamError::InvalidFollowSet(_) => ErrorKind::Unspecific,
        UpstreamError::Unspecific => ErrorKind::Unspecific,
    }
}

impl ErrorKind {
    /// Classifies an upstream failure. An invalid follow set is an internal
    /// invariant violation and is recovered like an unspecific failure.
    pub fn from_error(error: UpstreamError) -> (r: ErrorKind)
        ensures
            r == kind_of(error),
    {
        match error {
            UpstreamError::BadStatus(status) => {
                if status == RATE_LIMITED_STATUS {
                    ErrorKind::RateLimited
                } else {
                    ErrorKind::BadStatus
                }
            },
            UpstreamError::NetError => ErrorKind::NetError,
            UpstreamError::Stall => ErrorKind::Stall,
            UpstreamError::InvalidFollowSet(_) => ErrorKind::Unspecific,
            UpstreamError::Unspecific => ErrorKind::Unspecific,
        }
    }
}

pub open spec fn pow2(n: nat) -> nat
    decreases n,
{
    if n == 0 {
        1
    } else {
        2 * pow2((n - 1) as nat)
    }
}

pub open spec fn min(a: int, b: int) -> int {
    if a <= b {
        a
    } else {
        b
    }
}

pub open spec fn max(a: int, b: int) -> int {
    if a >= b {
        a
    } else {
        b
    }
}

/// The delay, in milliseconds, that a failure of class `kind` imposes when
/// the backoff exponent is `b`.
pub open spec fn delay_ms(kind: ErrorKind, b: nat) -> int {
    match kind {
        ErrorKind::RateLimited => 1000 * min(60 * pow2(b) as int, 960),
        ErrorKind::BadStatus => 1000 * min(5 * pow2(b) as int, 320),
        ErrorKind::NetError | ErrorKind::Stall => min(250 * max(b as int, 1), 16000),
        ErrorKind::Unspecific => 250,
    }
}

/// The backoff exponent after a failure of class `kind` at exponent `b`.
pub open spec fn next_backoff(kind: ErrorKind, b: u32) -> u32 {
    match kind {
        ErrorKind::Unspecific => 0,
        _ => if b == u32::MAX {
            b
        } else {
            (b + 1) as u32
        },
    }
}

proof fn lemma_pow2_monotonic(a: nat, b: nat)
    requires
        a <= b,
    ensures
        pow2(a) <= pow2(b),
    decreases b,
{
    if a < b {
        lemma_pow2_monotonic(a, (b - 1) as nat);
    }
}

/// `base * 2^b` seconds, capped at `cap` seconds, returned in milliseconds.
fn doubling_delay_ms(base: u64, cap: u64, b: u32) -> (r: u64)
    requires
        1 <= base,
        cap <= 1_000_000,
    ensures
        r == 1000 * min(base * pow2(b as nat) as int, cap as int),
{
    let mut secs: u64 = base;
    let mut i: u32 = 0;
    assert(pow2(0) == 1);
    while i < b && secs < cap
        invariant
            i <= b,
            secs == base * pow2(i as nat),
            secs <= 2 * cap || i == 0,
            cap <= 1_000_000,
        decreases b - i,
    {
        proof {
            assert(pow2((i + 1) as nat) == 2 * pow2(i as nat));
            assert(base * pow2((i + 1) as nat) == 2 * (base * pow2(i as nat))) by (nonlinear_arith)
                requires pow2((i + 1) as nat) == 2 * pow2(i as nat), ;
        }
        secs = secs * 2;
        i = i + 1;
    }
    if secs >= cap {
        proof {
            lemma_pow2_monotonic(i as nat, b as nat);
            assert(base * pow2(b as nat) >= base * pow2(i as nat)) by (nonlinear_arith)
                requires pow2(b as nat) >= pow2(i as nat), ;
        }
        cap * MILLIS_PER_SEC
    } else {
        secs * MILLIS_PER_SEC
    }
}

/// Computes the delay before the next restart after a failure of class
/// `error_kind`, in milliseconds, and advances the backoff exponent.
///
/// Rate limiting waits `60 * 2^b` s (at most 960 s), a bad status `5 * 2^b` s
/// (at most 320 s), a network error or stall `250 * max(b, 1)` ms (at most
/// 16 s); each of these raises `b` by one, saturating. An unspecific failure
/// waits 250 ms and resets `b` to 0.
pub fn inspect_error(error_kind: ErrorKind, backoff: &mut u32) -> (delay: u64)
    ensures
        delay == delay_ms(error_kind, *old(backoff) as nat),
        *final(backoff) == next_backoff(error_kind, *old(backoff)),
{
    let b = *backoff;
    match error_kind {
        ErrorKind::RateLimited => {
            let d = doubling_delay_ms(60, 960, b);
            *backoff = b.saturating_add(1);
            d
        },
        ErrorKind::BadStatus => {
            let d = doubling_delay_ms(5, 320, b);
            *backoff = b.saturating_add(1);
            d
        },
        ErrorKind::NetError | ErrorKind::Stall => {
            let factor: u64 = if b >= 1 { b as u64 } else { 1 };
            let millis: u64 = if factor >= 64 { 16_000 } else { 250 * factor };
            *backoff = b.saturating_add(1);
            millis
        },
        ErrorKind::Unspecific => {
            *backoff = 0;
            250
        },
    }
}

} // verus!
