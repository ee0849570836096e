use tiny_url::clock::{get_current_datetime, Timestamp, NANOS_PER_SECOND};
use tiny_url::rate_limit::{ClientIp, RateLimiter, REQUEST_LIMIT, WINDOW_SECONDS};

const REFUSAL: &str = "IP is rate limited :(";

fn at(secs: i64, nanos: u32) -> Timestamp {
    Timestamp::new(secs, nanos)
}

fn localhost() -> ClientIp {
    ClientIp::V4(0x7f00_0001)
}

#[test]
fn limit_and_window_are_fixed() {
    assert_eq!(REQUEST_LIMIT, 120);
    assert_eq!(WINDOW_SECONDS, 60);
    assert_eq!(NANOS_PER_SECOND, 1_000_000_000);
}

#[test]
fn timestamp_counts_nanoseconds_since_the_epoch() {
    assert_eq!(at(0, 0).as_nanos(), 0);
    assert_eq!(at(1, 5).as_nanos(), 1_000_000_005);
    assert_eq!(at(-1, 999_999_999).as_nanos(), -1);
    assert_eq!(at(1_700_000_000, 123).as_nanos(), 1_700_000_000_000_000_123);
    assert_eq!(
        at(i64::MAX, u32::MAX).as_nanos(),
        (i64::MAX as i128) * 1_000_000_000 + (u32::MAX as i128)
    );
    assert_eq!(
        at(i64::MIN, 0).as_nanos(),
        (i64::MIN as i128) * 1_000_000_000
    );
}

#[test]
fn timestamp_within_is_strict_at_the_far_end() {
    let now = at(1_000, 0);
    assert!(at(1_000, 0).is_within(60, &now));
    assert!(at(940, 1).is_within(60, &now));
    assert!(!at(940, 0).is_within(60, &now));
    assert!(!at(939, 999_999_999).is_within(60, &now));
    assert!(at(2_000, 0).is_within(60, &now));
    assert!(!at(1_000, 0).is_within(0, &now));
    assert!(at(1_000, 1).is_within(0, &now));
}

#[test]
fn first_request_is_let_through() {
    let mut limiter = RateLimiter::new();
    assert_eq!(limiter.check_at(localhost(), at(1_700_000_000, 0)), Ok(()));
}

#[test]
fn default_limiter_has_seen_nobody() {
    let mut limiter = RateLimiter::default();
    for _ in 0..REQUEST_LIMIT {
        assert_eq!(limiter.check_at(localhost(), at(5, 0)), Ok(()));
    }
    assert!(limiter.check_at(localhost(), at(5, 0)).is_err());
}

#[test]
fn up_to_the_limit_every_request_is_let_through() {
    let mut limiter = RateLimiter::new();
    for i in 0..120u32 {
        let verdict = limiter.check_at(localhost(), at(100, i));
        assert_eq!(verdict, Ok(()), "request {}", i + 1);
    }
}

#[test]
fn one_over_the_limit_is_refused_with_the_message() {
    let mut limiter = RateLimiter::new();
    for i in 0..120u32 {
        assert_eq!(limiter.check_at(localhost(), at(100, i)), Ok(()));
    }
    assert_eq!(
        limiter.check_at(localhost(), at(100, 120)),
        Err(REFUSAL.to_string())
    );
    assert_eq!(
        limiter.check_at(localhost(), at(159, 0)),
        Err(REFUSAL.to_string())
    );
}

#[test]
fn steady_traffic_under_the_limit_is_never_refused() {
    // Two requests a second for ten minutes: never more than 120 within any
    // 60 seconds.
    let mut limiter = RateLimiter::new();
    for i in 0..1_200i64 {
        let now = at(i / 2, ((i % 2) as u32) * 500_000_000);
        assert_eq!(limiter.check_at(localhost(), now), Ok(()), "request {}", i);
    }
}

#[test]
fn steady_traffic_just_over_the_limit_is_refused_once_the_window_is_full() {
    // 121 requests every 60 seconds, evenly spread over whole nanoseconds:
    // the 121st is the first to find 120 others within its window.
    let step: i128 = 60 * 1_000_000_000 / 121;
    let mut limiter = RateLimiter::new();
    for i in 0..300i128 {
        let t = i * step;
        let now = at((t / 1_000_000_000) as i64, (t % 1_000_000_000) as u32);
        let verdict = limiter.check_at(localhost(), now);
        assert_eq!(verdict.is_ok(), i < 120, "request {}", i);
    }
}

#[test]
fn a_request_exactly_one_window_old_no_longer_counts() {
    let mut limiter = RateLimiter::new();
    for _ in 0..120 {
        assert_eq!(limiter.check_at(localhost(), at(1_000, 500)), Ok(()));
    }
    assert!(limiter.check_at(localhost(), at(1_059, 0)).is_err());
    // One nanosecond short of a full window after the 120: they all count,
    // and so does the refused one.
    assert!(limiter.check_at(localhost(), at(1_060, 499)).is_err());
    // A full window after the 120: they are dropped. The two refused
    // requests still count.
    assert_eq!(limiter.check_at(localhost(), at(1_060, 500)), Ok(()));
}

#[test]
fn the_window_slides() {
    let mut limiter = RateLimiter::new();
    for _ in 0..500 {
        let _ = limiter.check_at(localhost(), at(0, 0));
    }
    assert!(limiter.check_at(localhost(), at(59, 999_999_999)).is_err());
    for i in 0..119u32 {
        assert_eq!(limiter.check_at(localhost(), at(120, i)), Ok(()));
    }
}

#[test]
fn refused_requests_count_against_later_ones() {
    let mut limiter = RateLimiter::new();
    for _ in 0..120 {
        assert_eq!(limiter.check_at(localhost(), at(0, 0)), Ok(()));
    }
    for _ in 0..120 {
        assert!(limiter.check_at(localhost(), at(30, 0)).is_err());
    }
    // None of the requests that were let through is within the window any
    // more; the 120 refused ones are.
    assert!(limiter.check_at(localhost(), at(61, 0)).is_err());
    assert_eq!(limiter.check_at(localhost(), at(91, 0)), Ok(()));
}

#[test]
fn clients_are_counted_apart() {
    let mut limiter = RateLimiter::new();
    for _ in 0..121 {
        let _ = limiter.check_at(ClientIp::V4(1), at(10, 0));
    }
    assert!(limiter.check_at(ClientIp::V4(1), at(10, 0)).is_err());
    assert_eq!(limiter.check_at(ClientIp::V4(2), at(10, 0)), Ok(()));
    assert_eq!(limiter.check_at(ClientIp::V6(1), at(10, 0)), Ok(()));
    assert_eq!(limiter.check_at(ClientIp::V6(u128::MAX), at(10, 0)), Ok(()));
    assert_eq!(limiter.check_at(ClientIp::V4(u32::MAX), at(10, 0)), Ok(()));
}

#[test]
fn the_two_address_families_do_not_share_a_window() {
    let mut limiter = RateLimiter::new();
    for _ in 0..120 {
        assert_eq!(limiter.check_at(ClientIp::V6(7), at(10, 0)), Ok(()));
    }
    assert!(limiter.check_at(ClientIp::V6(7), at(10, 0)).is_err());
    for _ in 0..120 {
        assert_eq!(limiter.check_at(ClientIp::V4(7), at(10, 0)), Ok(()));
    }
    assert!(limiter.check_at(ClientIp::V4(7), at(10, 0)).is_err());
}

#[test]
fn instants_before_the_epoch_are_counted_like_any_other() {
    let mut limiter = RateLimiter::new();
    for _ in 0..120 {
        assert_eq!(limiter.check_at(localhost(), at(-100, 0)), Ok(()));
    }
    assert!(limiter.check_at(localhost(), at(-41, 999_999_999)).is_err());
    assert_eq!(limiter.check_at(localhost(), at(-40, 0)), Ok(()));
}

#[test]
fn extreme_instants_do_not_overflow() {
    let mut limiter = RateLimiter::new();
    assert_eq!(limiter.check_at(localhost(), at(i64::MAX, u32::MAX)), Ok(()));
    assert_eq!(limiter.check_at(localhost(), at(i64::MIN, 0)), Ok(()));
    assert_eq!(limiter.check_at(localhost(), at(i64::MAX, u32::MAX)), Ok(()));
}

#[test]
fn rapid_requests_by_the_clock_are_refused_from_the_121st() {
    let mut limiter = RateLimiter::new();
    for i in 0..120 {
        assert_eq!(
            limiter.check_if_rate_limited(localhost()),
            Ok(()),
            "request {}",
            i + 1
        );
    }
    assert_eq!(
        limiter.check_if_rate_limited(localhost()),
        Err(REFUSAL.to_string())
    );
    assert_eq!(limiter.check_if_rate_limited(ClientIp::V4(9)), Ok(()));
}

#[test]
fn the_clock_reads_a_time_of_this_century() {
    let now = get_current_datetime();
    // 2020-01-01 and 2100-01-01.
    assert!(now.secs > 1_577_836_800);
    assert!(now.secs < 4_102_444_800);
    assert!(now.nanos < 1_000_000_000);
}

#[test]
fn window_of_a_client_never_seen_is_empty() {
    let limiter = RateLimiter::new();
    assert_eq!(limiter.window(localhost()), Vec::<Timestamp>::new());
    assert_eq!(limiter.window(ClientIp::V6(0)), Vec::<Timestamp>::new());
}

#[test]
fn window_holds_what_still_counts_oldest_first() {
    let mut limiter = RateLimiter::new();
    let _ = limiter.check_at(localhost(), at(100, 0));
    let _ = limiter.check_at(localhost(), at(130, 0));
    let _ = limiter.check_at(ClientIp::V4(2), at(131, 0));
    let _ = limiter.check_at(localhost(), at(159, 999_999_999));
    assert_eq!(
        limiter.window(localhost()),
        vec![at(100, 0), at(130, 0), at(159, 999_999_999)]
    );
    let _ = limiter.check_at(localhost(), at(160, 0));
    assert_eq!(
        limiter.window(localhost()),
        vec![at(130, 0), at(159, 999_999_999), at(160, 0)]
    );
    let _ = limiter.check_at(localhost(), at(500, 0));
    assert_eq!(limiter.window(localhost()), vec![at(500, 0)]);
    assert_eq!(limiter.window(ClientIp::V4(2)), vec![at(131, 0)]);
}

#[test]
fn window_keeps_the_refused_requests() {
    let mut limiter = RateLimiter::new();
    for _ in 0..125 {
        let _ = limiter.check_at(localhost(), at(7, 0));
    }
    assert_eq!(limiter.window(localhost()), vec![at(7, 0); 125]);
}

#[test]
fn a_clock_that_steps_back_keeps_later_requests_on_record() {
    let mut limiter = RateLimiter::new();
    let _ = limiter.check_at(localhost(), at(100, 0));
    let _ = limiter.check_at(localhost(), at(0, 0));
    assert_eq!(limiter.window(localhost()), vec![at(100, 0), at(0, 0)]);
    let _ = limiter.check_at(localhost(), at(100, 0));
    assert_eq!(limiter.window(localhost()), vec![at(100, 0), at(100, 0)]);
}

#[test]
fn instants_read_from_the_clock_are_in_normal_form() {
    for _ in 0..1_000 {
        assert!(get_current_datetime().nanos < 1_000_000_000);
    }
    let mut limiter = RateLimiter::new();
    for _ in 0..50 {
        let _ = limiter.check_if_rate_limited(localhost());
    }
    let window = limiter.window(localhost());
    assert_eq!(window.len(), 50);
    assert!(window.iter().all(|t| t.nanos < 1_000_000_000));
}
