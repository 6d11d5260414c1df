use tweet_provider::backoff::{inspect_error, ErrorKind, UpstreamError};

fn check(kind: ErrorKind, cases: &[(u32, u64, u32)]) {
    for &(b_in, delay, b_out) in cases {
        let mut b = b_in;
        let d = inspect_error(kind, &mut b);
        assert_eq!(d, delay, "{:?} at {}", kind, b_in);
        assert_eq!(b, b_out, "{:?} at {}", kind, b_in);
    }
}

#[test]
fn seed_table() {
    check(ErrorKind::RateLimited, &[(0, 60_000, 1), (4, 960_000, 5), (100, 960_000, 101)]);
    check(ErrorKind::BadStatus, &[(0, 5_000, 1), (6, 320_000, 7)]);
    check(ErrorKind::NetError, &[(0, 250, 1), (4, 1_000, 5), (100, 16_000, 101)]);
    check(ErrorKind::Unspecific, &[(99, 250, 0)]);
}

#[test]
fn test_420() {
    check(
        ErrorKind::RateLimited,
        &[
            (0, 60_000, 1),
            (1, 120_000, 2),
            (2, 240_000, 3),
            (3, 480_000, 4),
            (4, 960_000, 5),
            (5, 960_000, 6),
            (100, 960_000, 101),
            (u32::MAX - 1, 960_000, u32::MAX),
            (u32::MAX, 960_000, u32::MAX),
        ],
    );
}

#[test]
fn test_bad_status() {
    check(
        ErrorKind::BadStatus,
        &[
            (0, 5_000, 1),
            (1, 10_000, 2),
            (2, 20_000, 3),
            (3, 40_000, 4),
            (4, 80_000, 5),
            (5, 160_000, 6),
            (6, 320_000, 7),
            (7, 320_000, 8),
            (100, 320_000, 101),
            (u32::MAX - 1, 320_000, u32::MAX),
            (u32::MAX, 320_000, u32::MAX),
        ],
    );
}

#[test]
fn test_net() {
    check(
        ErrorKind::NetError,
        &[
            (0, 250, 1),
            (1, 250, 2),
            (2, 500, 3),
            (3, 750, 4),
            (4, 1_000, 5),
            (5, 1_250, 6),
            (64, 16_000, 65),
            (100, 16_000, 101),
            (u32::MAX - 1, 16_000, u32::MAX),
            (u32::MAX, 16_000, u32::MAX),
        ],
    );
}

#[test]
fn stall_backs_off_like_net_error() {
    check(ErrorKind::Stall, &[(0, 250, 1), (4, 1_000, 5), (63, 15_750, 64), (100, 16_000, 101)]);
}

#[test]
fn test_unspecific() {
    check(
        ErrorKind::Unspecific,
        &[
            (0, 250, 0),
            (1, 250, 0),
            (2, 250, 0),
            (100, 250, 0),
            (u32::MAX - 1, 250, 0),
            (u32::MAX, 250, 0),
        ],
    );
}

#[test]
fn exponent_only_falls_on_unspecific() {
    let mut b: u32 = 0;
    let kinds = [ErrorKind::RateLimited, ErrorKind::BadStatus, ErrorKind::NetError, ErrorKind::Stall];
    let mut last = b;
    for k in kinds.iter().cycle().take(12) {
        inspect_error(*k, &mut b);
        assert!(b >= last);
        last = b;
    }
    assert_eq!(b, 12);
    inspect_error(ErrorKind::Unspecific, &mut b);
    assert_eq!(b, 0);
}

#[test]
fn classify_errors() {
    assert_eq!(ErrorKind::from_error(UpstreamError::BadStatus(420)), ErrorKind::RateLimited);
    assert_eq!(ErrorKind::from_error(UpstreamError::BadStatus(500)), ErrorKind::BadStatus);
    assert_eq!(ErrorKind::from_error(UpstreamError::BadStatus(401)), ErrorKind::BadStatus);
    assert_eq!(ErrorKind::from_error(UpstreamError::NetError), ErrorKind::NetError);
    assert_eq!(ErrorKind::from_error(UpstreamError::Stall), ErrorKind::Stall);
    assert_eq!(ErrorKind::from_error(UpstreamError::Unspecific), ErrorKind::Unspecific);
    assert_eq!(ErrorKind::from_error(UpstreamError::InvalidFollowSet(0)), ErrorKind::Unspecific);
}
