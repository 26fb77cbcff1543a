use cron_notifier::config::{Config, ParsedNotification, RawConfig, RawNotification};
use cron_notifier::scheduler::{
    is_due, next_occurrences, poll, tick, NotificationRequest, Poll,
};
use cron_notifier::time::Timestamp;

// 2024-01-15T12:00:00Z
const NOON: i64 = 1_705_320_000;

fn record(name: &str, body: &str, icon: Option<&str>, cron: &str) -> RawNotification {
    RawNotification {
        name: name.to_string(),
        body: body.to_string(),
        icon: icon.map(|icon| icon.to_string()),
        cron: cron.to_string(),
    }
}

fn store(records: Vec<RawNotification>) -> Config {
    Config::parse(RawConfig { notifications: records }).unwrap()
}

fn at(secs: i64, nanos: u32) -> Timestamp {
    Timestamp::new(secs, nanos).unwrap()
}

fn fields(requests: &[NotificationRequest]) -> Vec<(&str, &str, &str)> {
    requests
        .iter()
        .map(|request| (request.title.as_str(), request.body.as_str(), request.icon.as_str()))
        .collect()
}

#[test]
fn due_when_the_occurrence_is_the_current_second() {
    assert!(is_due(Some(NOON), at(NOON, 0)));
    assert!(is_due(Some(NOON), at(NOON, 400_000_000)));
    assert!(is_due(Some(NOON), at(NOON, 999_999_999)));
    assert!(is_due(Some(0), at(0, 0)));
}

#[test]
fn not_due_when_the_occurrence_is_another_second() {
    assert!(!is_due(Some(NOON + 1), at(NOON, 0)));
    assert!(!is_due(Some(NOON - 1), at(NOON, 0)));
    assert!(!is_due(Some(NOON + 86_400), at(NOON, 999_999_999)));
    assert!(!is_due(Some(i64::MAX), at(NOON, 0)));
    assert!(!is_due(Some(-1), at(0, 0)));
}

#[test]
fn not_due_without_a_next_occurrence() {
    assert!(!is_due(None, at(NOON, 0)));
    assert!(!is_due(None, at(0, 0)));
}

#[test]
fn lunch_is_due_at_noon_only() {
    let config = store(vec![record("lunch", "Eat something", None, "0 0 12 * * *")]);
    let requests = tick(&config, at(NOON, 400_000_000));
    assert_eq!(fields(&requests), vec![("lunch", "Eat something", "")]);
    assert!(tick(&config, at(NOON + 1, 0)).is_empty());
    assert!(tick(&config, at(NOON - 1, 0)).is_empty());
}

#[test]
fn minute_twelve_of_every_hour() {
    // In the six-field dialect the second field is the minute.
    let config = store(vec![record("lunch", "Eat something", None, "0 12 * * * *")]);
    let due = NOON + 12 * 60;
    let requests = tick(&config, at(due, 400_000_000));
    assert_eq!(fields(&requests), vec![("lunch", "Eat something", "")]);
    assert!(tick(&config, at(due + 1, 0)).is_empty());
    assert!(tick(&config, at(due - 1, 0)).is_empty());
    assert!(tick(&config, at(NOON, 400_000_000)).is_empty());
    assert_eq!(fields(&tick(&config, at(due + 3600, 0))), vec![("lunch", "Eat something", "")]);
}

#[test]
fn due_anywhere_within_the_second() {
    let config = store(vec![record("lunch", "Eat something", None, "0 0 12 * * *")]);
    for nanos in [0, 1, 400_000_000, 500_000_000, 999_999_999] {
        assert_eq!(tick(&config, at(NOON, nanos)).len(), 1);
        assert!(tick(&config, at(NOON - 1, nanos)).is_empty());
        assert!(tick(&config, at(NOON + 1, nanos)).is_empty());
    }
}

#[test]
fn rules_with_the_same_expression_fire_together() {
    let config = store(vec![
        record("lunch", "Eat something", Some("food"), "0 0 12 * * *"),
        record("walk", "Go outside", None, "0 0 12 * * *"),
    ]);
    let requests = tick(&config, at(NOON, 0));
    assert_eq!(
        fields(&requests),
        vec![("lunch", "Eat something", "food"), ("walk", "Go outside", "")]
    );
    assert!(tick(&config, at(NOON + 1, 0)).is_empty());
}

#[test]
fn only_the_due_rules_fire_in_order() {
    let config = store(vec![
        record("minute", "a", None, "0 * * * * *"),
        record("night", "b", None, "0 0 0 * * *"),
        record("second", "c", Some("clock"), "* * * * * *"),
        record("noon", "d", None, "0 0 12 * * *"),
    ]);
    assert_eq!(
        fields(&tick(&config, at(NOON, 0))),
        vec![("minute", "a", ""), ("second", "c", "clock"), ("noon", "d", "")]
    );
    assert_eq!(fields(&tick(&config, at(NOON + 1, 0))), vec![("second", "c", "clock")]);
    assert_eq!(
        fields(&tick(&config, at(NOON + 60, 0))),
        vec![("minute", "a", ""), ("second", "c", "clock")]
    );
}

#[test]
fn empty_store_requests_nothing() {
    let config = store(Vec::new());
    assert!(tick(&config, at(NOON, 0)).is_empty());
    assert!(next_occurrences(&config, at(NOON, 0)).is_empty());
}

#[test]
fn due_again_only_with_an_occurrence_in_the_next_second() {
    let every_second = store(vec![record("a", "", None, "* * * * * *")]);
    let every_other = store(vec![record("b", "", None, "*/2 * * * * *")]);
    for step in 0..6 {
        assert_eq!(tick(&every_second, at(NOON + step, 0)).len(), 1);
        let expected = if step % 2 == 0 { 1 } else { 0 };
        assert_eq!(tick(&every_other, at(NOON + step, 0)).len(), expected);
    }
}

#[test]
fn due_once_over_ticks_that_span_the_second() {
    let config = store(vec![record("lunch", "Eat something", None, "0 0 12 * * *")]);
    let mut fired = 0;
    for step in -3..4 {
        fired += tick(&config, at(NOON + step, 250_000_000)).len();
    }
    assert_eq!(fired, 1);
}

#[test]
fn exhausted_recurrence_is_not_due() {
    let config = store(vec![record("past", "", None, "0 0 12 15 1 * 2020")]);
    assert!(tick(&config, at(NOON, 0)).is_empty());
    assert_eq!(next_occurrences(&config, at(NOON, 0)), vec![None]);
}

#[test]
fn next_occurrences_look_one_second_back() {
    let config = store(vec![
        record("noon", "", None, "0 0 12 * * *"),
        record("second", "", None, "* * * * * *"),
        record("past", "", None, "0 0 0 1 1 * 1999"),
    ]);
    assert_eq!(
        next_occurrences(&config, at(NOON, 400_000_000)),
        vec![Some(NOON), Some(NOON), None]
    );
    assert_eq!(
        next_occurrences(&config, at(NOON + 1, 0)),
        vec![Some(NOON + 86_400), Some(NOON + 1), None]
    );
    assert_eq!(
        next_occurrences(&config, at(NOON - 1, 999_999_999)),
        vec![Some(NOON), Some(NOON - 1), None]
    );
}

#[test]
fn next_occurrence_is_the_same_when_asked_again() {
    let rule =
        ParsedNotification::parse(record("noon", "", None, "0 0 12 * * *")).unwrap();
    let copy = ParsedNotification::parse(record("other", "x", None, "0 0 12 * * *")).unwrap();
    let now = at(NOON - 7_200, 123);
    assert_eq!(rule.next_occurrence(now), Some(NOON));
    assert_eq!(rule.next_occurrence(now), rule.next_occurrence(now));
    assert_eq!(rule.next_occurrence(now), copy.next_occurrence(now));
}

#[test]
fn ticks_at_the_ends_of_time() {
    let config = store(vec![record("second", "", None, "* * * * * *")]);
    assert_eq!(tick(&config, at(0, 0)).len(), 1);
    assert_eq!(next_occurrences(&config, at(0, 0)), vec![Some(0)]);
    // Schedules end with the year 2100.
    assert_eq!(tick(&config, at(4_133_980_799, 0)).len(), 1);
    assert!(tick(&config, at(4_133_980_800, 0)).is_empty());
    assert!(tick(&config, at(253_402_300_799, 999_999_999)).is_empty());
}

#[test]
fn request_carries_the_rule() {
    let rule =
        ParsedNotification::parse(record("lunch", "Eat something", Some("food"), "@daily"))
            .unwrap();
    let request = rule.request();
    assert_eq!(request.title, "lunch");
    assert_eq!(request.body, "Eat something");
    assert_eq!(request.icon, "food");
    let plain = ParsedNotification::parse(record("lunch", "", None, "@daily")).unwrap();
    let request = plain.request();
    assert_eq!(request.title, "lunch");
    assert_eq!(request.body, "");
    assert_eq!(request.icon, "");
}

#[test]
fn request_only_if_due() {
    let rule =
        ParsedNotification::parse(record("lunch", "Eat something", None, "@daily")).unwrap();
    let request = rule.request_if_due(Some(NOON), at(NOON, 5)).unwrap();
    assert_eq!(request.title, "lunch");
    assert_eq!(request.body, "Eat something");
    assert_eq!(request.icon, "");
    assert!(rule.request_if_due(Some(NOON + 1), at(NOON, 5)).is_none());
    assert!(rule.request_if_due(Some(NOON - 1), at(NOON, 5)).is_none());
    assert!(rule.request_if_due(None, at(NOON, 5)).is_none());
}

#[test]
fn poll_runs_the_tick_at_the_time_of_the_clock() {
    let config = store(vec![
        record("second", "now", None, "* * * * * *"),
        record("past", "never", None, "0 0 0 1 1 * 1999"),
    ]);
    let polled = poll(&config);
    let now = polled.now.unwrap();
    assert!(now.whole_second() > NOON);
    assert_eq!(fields(&polled.requests), vec![("second", "now", "")]);
}

#[test]
fn poll_at_a_reading_is_the_tick_at_that_instant() {
    let config = store(vec![
        record("noon", "d", Some("sun"), "0 0 12 * * *"),
        record("second", "c", None, "* * * * * *"),
    ]);
    let polled = Poll::at(&config, Some(at(NOON, 400_000_000)));
    let now = polled.now.unwrap();
    assert_eq!(now.whole_second(), NOON);
    assert_eq!(now.nanosecond(), 400_000_000);
    assert_eq!(fields(&polled.requests), vec![("noon", "d", "sun"), ("second", "c", "")]);
    let polled = Poll::at(&config, Some(at(NOON + 1, 0)));
    assert_eq!(polled.now.unwrap().whole_second(), NOON + 1);
    assert_eq!(fields(&polled.requests), vec![("second", "c", "")]);
}

#[test]
fn poll_without_a_reading_requests_nothing() {
    let config = store(vec![record("second", "c", None, "* * * * * *")]);
    let polled = Poll::at(&config, None);
    assert!(polled.now.is_none());
    assert!(polled.requests.is_empty());
}
