use mini_mysql_redis::rate_limit::{
    check_rate_limit, is_limiting, rate_limit_key, INCREMENT_SCRIPT,
};

#[test]
fn test_key_format() {
    let key = rate_limit_key("192.168.1.1");
    assert_eq!(key, "ratelimit:192.168.1.1");
}

#[test]
fn test_ipv6_key_format() {
    let key = rate_limit_key("::1");
    assert_eq!(key, "ratelimit:::1");
}

#[test]
fn request_beyond_the_limit_is_denied() {
    for limit in [1u32, 2, 5, 100] {
        for count in 1..=(limit as i64) {
            assert!(check_rate_limit(limit, Some(count)), "{} of {}", count, limit);
        }
        assert!(!check_rate_limit(limit, Some(limit as i64 + 1)));
        assert!(!check_rate_limit(limit, Some(limit as i64 + 50)));
    }
    assert!(!check_rate_limit(u32::MAX, Some(u32::MAX as i64 + 1)));
    assert!(check_rate_limit(u32::MAX, Some(u32::MAX as i64)));
    assert!(!check_rate_limit(3, Some(i64::MAX)));
}

#[test]
fn counter_starts_again_after_the_window() {
    // a counter that expired is created anew, and the request is counted as the first
    let mut counter: Option<(i64, u64)> = None;
    let window = 60u64;
    let limit = 2u32;
    let mut request = |now: u64| {
        let count = match counter {
            Some((count, expires_at)) if now < expires_at => {
                counter = Some((count + 1, expires_at));
                count + 1
            }
            _ => {
                counter = Some((1, now + window));
                1
            }
        };
        check_rate_limit(limit, Some(count))
    };
    assert!(request(0));
    assert!(request(10));
    assert!(!request(59));
    assert!(request(60));
    assert!(request(61));
    assert!(!request(119));
    assert!(request(500));
}

#[test]
fn limit_zero_always_allows() {
    assert!(!is_limiting(0));
    assert!(is_limiting(1));
    for count in [i64::MIN, -1, 0, 1, 1000, i64::MAX] {
        assert!(check_rate_limit(0, Some(count)));
    }
    assert!(check_rate_limit(0, None));
}

#[test]
fn store_failure_allows() {
    assert!(check_rate_limit(1, None));
    assert!(check_rate_limit(u32::MAX, None));
}

#[test]
fn script_increments_and_expires_new_counters() {
    let lines: Vec<&str> = INCREMENT_SCRIPT.lines().map(|line| line.trim()).collect();
    assert_eq!(
        lines,
        vec![
            "local current = redis.call('INCR', KEYS[1])",
            "if current == 1 then",
            "redis.call('EXPIRE', KEYS[1], ARGV[1])",
            "end",
            "return current",
        ]
    );
}
