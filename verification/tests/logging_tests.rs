use mini_mysql_redis::config::Config;
use mini_mysql_redis::logging::{LogLevel, QueryLog, QueryResult};
use mini_mysql_redis::store::is_alive;

#[test]
fn results_have_their_words() {
    assert_eq!(QueryResult::Success.to_string(), "success");
    assert_eq!(QueryResult::Rejected.to_string(), "rejected");
    assert_eq!(QueryResult::RateLimited.to_string(), "rate_limited");
    assert_eq!(QueryResult::RedisError.to_string(), "redis_error");
    assert_eq!(QueryResult::RedisError.as_str(), "redis_error");
}

#[test]
fn new_log_is_a_success_without_table_or_rows() {
    let log = QueryLog::new("version");
    assert_eq!(log.query_type, "version");
    assert_eq!(log.table, None);
    assert_eq!(log.rows_returned, 0);
    assert_eq!(log.result, QueryResult::Success);
}

#[test]
fn builders_change_one_field_each() {
    let log = QueryLog::new("scan").with_table("users").with_rows(7).with_result(QueryResult::Rejected);
    assert_eq!(log.query_type, "scan");
    assert_eq!(log.table.as_deref(), Some("users"));
    assert_eq!(log.rows_returned, 7);
    assert_eq!(log.result, QueryResult::Rejected);
    let log = QueryLog::new("pk_lookup").with_rows(1);
    assert_eq!(log.table, None);
    assert_eq!(log.rows_returned, 1);
    assert_eq!(log.result, QueryResult::Success);
    let log = log.with_table("a").with_table("b");
    assert_eq!(log.table.as_deref(), Some("b"));
    assert_eq!(log.rows_returned, 1);
}

#[test]
fn level_and_message_follow_the_result() {
    let cases = [
        (QueryResult::Success, LogLevel::Info, "query_executed"),
        (QueryResult::Rejected, LogLevel::Warn, "query_rejected"),
        (QueryResult::RateLimited, LogLevel::Warn, "rate_limit_exceeded"),
        (QueryResult::RedisError, LogLevel::Error, "redis_error"),
    ];
    for (result, level, message) in cases {
        let log = QueryLog::new("x").with_result(result);
        assert_eq!(log.level(), level);
        assert_eq!(log.message(), message);
    }
}

#[test]
fn table_label_is_a_dash_without_table() {
    assert_eq!(QueryLog::new("x").table_label(), "-");
    assert_eq!(QueryLog::new("x").with_table("users").table_label(), "users");
}

#[test]
fn event_holds_the_fields_that_the_result_calls_for() {
    let log = QueryLog::new("scan").with_table("users").with_rows(3);
    let event = log.log();
    assert_eq!(event.level, LogLevel::Info);
    assert_eq!(event.message, "query_executed");
    assert_eq!(event.query_type, "scan");
    assert_eq!(event.table.as_deref(), Some("users"));
    assert_eq!(event.rows, Some(3));
    assert!(event.timed);
    assert_eq!(event.result, "success");

    let event = QueryLog::new("rejected").with_rows(3).with_result(QueryResult::Rejected).log();
    assert_eq!(event.level, LogLevel::Warn);
    assert_eq!(event.message, "query_rejected");
    assert_eq!(event.table.as_deref(), Some("-"));
    assert_eq!(event.rows, None);
    assert!(event.timed);
    assert_eq!(event.result, "rejected");

    let event = QueryLog::new("rate_limited")
        .with_table("users")
        .with_result(QueryResult::RateLimited)
        .log();
    assert_eq!(event.level, LogLevel::Warn);
    assert_eq!(event.message, "rate_limit_exceeded");
    assert_eq!(event.table, None);
    assert_eq!(event.rows, None);
    assert!(!event.timed);
    assert_eq!(event.result, "rate_limited");

    let event = QueryLog::new("scan").with_result(QueryResult::RedisError).log();
    assert_eq!(event.level, LogLevel::Error);
    assert_eq!(event.message, "redis_error");
    assert_eq!(event.table.as_deref(), Some("-"));
    assert_eq!(event.rows, None);
    assert!(!event.timed);
    assert_eq!(event.result, "redis_error");
}

#[test]
fn log_level_by_name() {
    assert_eq!(LogLevel::parse("trace"), LogLevel::Trace);
    assert_eq!(LogLevel::parse("DEBUG"), LogLevel::Debug);
    assert_eq!(LogLevel::parse("Info"), LogLevel::Info);
    assert_eq!(LogLevel::parse("wArN"), LogLevel::Warn);
    assert_eq!(LogLevel::parse("ERROR"), LogLevel::Error);
    assert_eq!(LogLevel::parse("verbose"), LogLevel::Info);
    assert_eq!(LogLevel::parse(""), LogLevel::Info);
    assert_eq!(LogLevel::parse(" warn"), LogLevel::Info);
    assert_eq!(LogLevel::from_lowercase("warn"), LogLevel::Warn);
    assert_eq!(LogLevel::from_lowercase("WARN"), LogLevel::Info);
}

#[test]
fn default_config() {
    let config = Config::default();
    assert_eq!(config.port, 3306);
    assert_eq!(config.redis_url, "redis://127.0.0.1:6379");
    assert_eq!(config.scan_limit, 100);
    assert_eq!(config.rate_limit, 100);
    assert_eq!(config.rate_window, 60);
    assert!(config.allow_scan);
    assert_eq!(config.log_level, "info");
    assert!(config.scan_enabled());
}

#[test]
fn scans_need_the_flag_and_a_cap() {
    let with = |allow_scan: bool, scan_limit: usize| Config { allow_scan, scan_limit, ..Config::default() };
    assert!(with(true, 1).scan_enabled());
    assert!(!with(true, 0).scan_enabled());
    assert!(!with(false, 1).scan_enabled());
    assert!(!with(false, 0).scan_enabled());
}

#[test]
fn store_is_alive_when_it_answers_pong() {
    assert!(is_alive(Some("PONG")));
    assert!(!is_alive(Some("pong")));
    assert!(!is_alive(Some("PONG ")));
    assert!(!is_alive(Some("")));
    assert!(!is_alive(None));
}
