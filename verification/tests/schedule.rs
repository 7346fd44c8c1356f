use job_scheduler::schedule::{accept_cron_hit, Schedule, CRON_END_MICROS};
use job_scheduler::time::{Instant, TimeDelta};

const T: i64 = 1_700_000_000;

fn at(seconds: i64) -> Instant {
    Instant::from_secs(seconds)
}

#[test]
fn once_fires_while_its_instant_is_ahead() {
    let schedule = Schedule::Once(at(T));
    assert_eq!(schedule.next_run(at(T - 1)), Some(at(T)));
    assert_eq!(schedule.next_run(at(0)), Some(at(T)));
    assert_eq!(schedule.next_run(Instant::from_micros(i64::MIN)), Some(at(T)));
    assert_eq!(
        schedule.next_run(Instant::from_micros(at(T).timestamp_micros() - 1)),
        Some(at(T))
    );
}

#[test]
fn once_never_fires_at_or_after_its_instant() {
    let schedule = Schedule::Once(at(T));
    assert_eq!(schedule.next_run(at(T)), None);
    assert_eq!(schedule.next_run(at(T + 1)), None);
    assert_eq!(schedule.next_run(Instant::from_micros(i64::MAX)), None);
}

#[test]
fn interval_fires_one_span_after_the_query() {
    let schedule = Schedule::Interval(TimeDelta::seconds(60));
    assert_eq!(schedule.next_run(at(T)), Some(at(T + 60)));
    assert_eq!(schedule.next_run(at(-30)), Some(at(30)));
    let tiny = Schedule::Interval(TimeDelta::microseconds(1));
    assert_eq!(tiny.next_run(Instant::from_micros(41)), Some(Instant::from_micros(42)));
}

#[test]
fn interval_followed_repeatedly_increases() {
    let schedule = Schedule::Interval(TimeDelta::minutes(5));
    let mut current = at(T);
    for step in 1..=50i64 {
        let next = schedule.next_run(current).expect("an interval always has a next run");
        assert!(next.is_after(current));
        assert_eq!(next, at(T + step * 300));
        current = next;
    }
}

#[test]
fn interval_that_is_not_positive_never_fires() {
    assert_eq!(Schedule::Interval(TimeDelta::seconds(0)).next_run(at(T)), None);
    assert_eq!(Schedule::Interval(TimeDelta::seconds(-60)).next_run(at(T)), None);
    assert_eq!(Schedule::Interval(TimeDelta::microseconds(i64::MIN)).next_run(at(T)), None);
}

#[test]
fn interval_beyond_the_last_instant_never_fires() {
    let schedule = Schedule::Interval(TimeDelta::seconds(60));
    let last = Instant::from_micros(i64::MAX);
    assert_eq!(schedule.next_run(last), None);
    let room = Instant::from_micros(i64::MAX - 60_000_000);
    assert_eq!(schedule.next_run(room), Some(last));
    let short = Instant::from_micros(i64::MAX - 59_999_999);
    assert_eq!(schedule.next_run(short), None);
}

#[test]
fn cron_fires_at_the_next_match() {
    // 1_700_000_000 is 2023-11-14 22:13:20 UTC
    let hourly = Schedule::Cron("0 0 * * * *".to_string());
    assert_eq!(hourly.next_run(at(T)), Some(at(1_700_002_800)));
    let every_ten_seconds = Schedule::Cron("0/10 * * * * *".to_string());
    assert_eq!(every_ten_seconds.next_run(at(T)), Some(at(T + 10)));
    let daily = Schedule::Cron("@daily".to_string());
    assert_eq!(daily.next_run(at(T)), Some(at(1_700_006_400)));
}

#[test]
fn cron_result_is_strictly_after_the_query() {
    let hourly = Schedule::Cron("0 0 * * * *".to_string());
    let on_the_hour = at(1_700_002_800);
    assert_eq!(hourly.next_run(on_the_hour), Some(at(1_700_006_400)));
    let just_before = Instant::from_micros(on_the_hour.timestamp_micros() - 1);
    assert_eq!(hourly.next_run(just_before), Some(on_the_hour));
    let just_after = Instant::from_micros(on_the_hour.timestamp_micros() + 1);
    assert_eq!(hourly.next_run(just_after), Some(at(1_700_006_400)));
    let every_second = Schedule::Cron("* * * * * *".to_string());
    let mut current = at(T);
    for _ in 0..20 {
        let next = every_second.next_run(current).expect("every second matches");
        assert!(next.is_after(current));
        current = next;
    }
    assert_eq!(current, at(T + 20));
}

#[test]
fn cron_that_is_malformed_never_fires() {
    for expr in ["", "not a cron expression", "* * *", "61 * * * * *", "* * * * * * * *", "0 0 25 * * *"] {
        let schedule = Schedule::Cron(expr.to_string());
        assert_eq!(schedule.next_run(at(T)), None, "{:?}", expr);
        assert_eq!(schedule.next_run(at(0)), None, "{:?}", expr);
    }
}

#[test]
fn cron_without_a_future_match_never_fires() {
    let only_2015 = Schedule::Cron("0 0 0 1 1 * 2015".to_string());
    assert_eq!(only_2015.next_run(at(T)), None);
    // 1_400_000_000 is in 2014
    assert_eq!(only_2015.next_run(at(1_400_000_000)), Some(at(1_420_070_400)));
}

#[test]
fn cron_has_no_answer_from_2101_on() {
    let every_second = Schedule::Cron("* * * * * *".to_string());
    let end = Instant::from_micros(CRON_END_MICROS);
    assert_eq!(every_second.next_run(end), None);
    assert_eq!(every_second.next_run(Instant::from_micros(i64::MAX)), None);
    let last_second = Instant::from_micros(CRON_END_MICROS - 1_000_000);
    assert_eq!(every_second.next_run(last_second), None);
    let one_before = Instant::from_micros(CRON_END_MICROS - 2_000_000);
    assert_eq!(every_second.next_run(one_before), Some(last_second));
}

#[test]
fn cron_before_the_epoch_starts_in_1970() {
    let every_second = Schedule::Cron("* * * * * *".to_string());
    assert_eq!(every_second.next_run(at(-86_400)), Some(at(0)));
}

#[test]
fn cron_hit_is_accepted_only_when_later() {
    let query = Instant::from_micros(100);
    assert_eq!(accept_cron_hit(query, Some(101)), Some(Instant::from_micros(101)));
    assert_eq!(accept_cron_hit(query, Some(100)), None);
    assert_eq!(accept_cron_hit(query, Some(99)), None);
    assert_eq!(accept_cron_hit(query, Some(i64::MIN)), None);
    assert_eq!(accept_cron_hit(query, None), None);
}

#[test]
fn next_run_is_a_function_of_its_inputs() {
    let schedules = [
        Schedule::Once(at(T + 5)),
        Schedule::Interval(TimeDelta::seconds(7)),
        Schedule::Cron("0 30 * * * *".to_string()),
    ];
    for schedule in schedules.iter() {
        let copy = schedule.clone();
        assert_eq!(schedule.next_run(at(T)), schedule.next_run(at(T)));
        assert_eq!(schedule.next_run(at(T)), copy.next_run(at(T)));
    }
}

#[test]
fn instant_arithmetic() {
    assert_eq!(at(1).timestamp_micros(), 1_000_000);
    assert_eq!(at(10).checked_add(TimeDelta::seconds(-20)), Some(at(-10)));
    assert_eq!(Instant::from_micros(i64::MIN).checked_add(TimeDelta::microseconds(-1)), None);
    assert!(at(2).is_after(at(1)));
    assert!(!at(1).is_after(at(1)));
    assert!(!at(0).is_after(at(1)));
}
