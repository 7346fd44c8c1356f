use job_scheduler::math::determine_level_rank;
use job_scheduler::models::{Avatar, CustomColor, CustomEmoji};
use job_scheduler::text::{comma_readable_number, decimal_string, get_first_part_of_string, normalize_level};
use job_scheduler::time::{get_long_date, get_relative_timestamp, pretty_time_delta, TimeDelta};

#[test]
fn test_pretty_time_delta() {
    assert_eq!(pretty_time_delta(&TimeDelta::seconds(1)), "1 second");
    assert_eq!(pretty_time_delta(&TimeDelta::seconds(2)), "2 seconds");
    assert_eq!(pretty_time_delta(&TimeDelta::seconds(60)), "1 minute");
    assert_eq!(pretty_time_delta(&TimeDelta::seconds(61)), "1 minute, 1 second");
    assert_eq!(pretty_time_delta(&TimeDelta::seconds(62)), "1 minute, 2 seconds");
    assert_eq!(pretty_time_delta(&TimeDelta::seconds(120)), "2 minutes");
    assert_eq!(pretty_time_delta(&TimeDelta::hours(1)), "1 hour");
    assert_eq!(pretty_time_delta(&TimeDelta::hours(2)), "2 hours");
    assert_eq!(pretty_time_delta(&TimeDelta::hours(24)), "1 day");
    assert_eq!(pretty_time_delta(&TimeDelta::hours(25)), "1 day, 1 hour");
    assert_eq!(pretty_time_delta(&TimeDelta::hours(26)), "1 day, 2 hours");
}

#[test]
fn test_level_rank() {
    assert_eq!(determine_level_rank(-1), 0);
    assert_eq!(determine_level_rank(0), 1);
    assert_eq!(determine_level_rank(9), 1);
    assert_eq!(determine_level_rank(10), 2);
    assert_eq!(determine_level_rank(19), 2);
    assert_eq!(determine_level_rank(419), 42);
    assert_eq!(determine_level_rank(420), 43);
    assert_eq!(determine_level_rank(499), 43);
    assert_eq!(determine_level_rank(500), 44);
    assert_eq!(determine_level_rank(999), 48);
    assert_eq!(determine_level_rank(1000), 49);
}

#[test]
fn test_get_first_part_of_string() {
    assert_eq!(get_first_part_of_string(&"hello world".to_string(), ' '), "hello");
    assert_eq!(get_first_part_of_string(&"hello world".to_string(), 'o'), "hell");
    assert_eq!(get_first_part_of_string(&"hello world".to_string(), 'z'), "hello world");
}

#[test]
fn test_comma_readable_number() {
    assert_eq!(comma_readable_number(0), "0");
    assert_eq!(comma_readable_number(100), "100");
    assert_eq!(comma_readable_number(1000), "1,000");
    assert_eq!(comma_readable_number(1000000), "1,000,000");
    assert_eq!(comma_readable_number(1000000000), "1,000,000,000");
    assert_eq!(comma_readable_number(-100), "-100");
    assert_eq!(comma_readable_number(-1000), "-1,000");
    assert_eq!(comma_readable_number(-0), "0");
}

#[test]
fn level_rank_is_bounded_at_the_extremes() {
    assert_eq!(determine_level_rank(i32::MIN), 0);
    assert_eq!(determine_level_rank(i32::MAX), 49);
    assert_eq!(determine_level_rank(600), 45);
    assert_eq!(determine_level_rank(899), 47);
}

#[test]
fn comma_readable_number_keeps_inner_zeros() {
    assert_eq!(comma_readable_number(1_002_003), "1,002,003");
    assert_eq!(comma_readable_number(999), "999");
    assert_eq!(comma_readable_number(12_345), "12,345");
    assert_eq!(comma_readable_number(-1_000_000), "-1,000,000");
}

#[test]
fn comma_readable_number_at_the_limits() {
    assert_eq!(comma_readable_number(i64::MAX), "9,223,372,036,854,775,807");
    assert_eq!(comma_readable_number(i64::MIN), "-9,223,372,036,854,775,808");
}

#[test]
fn decimal_string_matches_the_standard_rendering() {
    for n in [0i64, 7, 10, 99, 100, 12345, -1, -42, i64::MAX, i64::MIN] {
        assert_eq!(decimal_string(n), n.to_string());
    }
}

#[test]
fn first_part_of_an_empty_or_leading_delimiter_string() {
    assert_eq!(get_first_part_of_string(&String::new(), ','), "");
    assert_eq!(get_first_part_of_string(&",rest".to_string(), ','), "");
    assert_eq!(get_first_part_of_string(&"line one\nline two".to_string(), '\n'), "line one");
    assert_eq!(get_first_part_of_string(&"héllo wörld".to_string(), 'ö'), "héllo w");
}

#[test]
fn normalize_level_hides_negative_levels() {
    assert_eq!(normalize_level(-1), "?");
    assert_eq!(normalize_level(i32::MIN), "?");
    assert_eq!(normalize_level(0), "0");
    assert_eq!(normalize_level(137), "137");
}

#[test]
fn timestamp_markup() {
    assert_eq!(get_relative_timestamp(&1_700_000_000), "<t:1700000000:R>");
    assert_eq!(get_long_date(&1_700_000_000), "<t:1700000000:D>");
    assert_eq!(get_relative_timestamp(&0), "<t:0:R>");
    assert_eq!(get_long_date(&-86_400), "<t:-86400:D>");
}

#[test]
fn pretty_time_delta_of_nothing_and_of_negative_spans() {
    assert_eq!(pretty_time_delta(&TimeDelta::seconds(0)), "0 seconds");
    assert_eq!(pretty_time_delta(&TimeDelta::seconds(-1)), "-1 second");
    assert_eq!(pretty_time_delta(&TimeDelta::seconds(-61)), "-1 minute, 1 second");
    assert_eq!(pretty_time_delta(&TimeDelta::milliseconds(999)), "0 seconds");
    assert_eq!(pretty_time_delta(&TimeDelta::milliseconds(-999)), "0 seconds");
    assert_eq!(pretty_time_delta(&TimeDelta::milliseconds(-1_500)), "-1 second");
}

#[test]
fn pretty_time_delta_with_every_unit() {
    let span = TimeDelta::microseconds(
        TimeDelta::days(2).num_microseconds()
            + TimeDelta::hours(3).num_microseconds()
            + TimeDelta::minutes(4).num_microseconds()
            + TimeDelta::seconds(5).num_microseconds(),
    );
    assert_eq!(pretty_time_delta(&span), "2 days, 3 hours, 4 minutes, 5 seconds");
    assert_eq!(pretty_time_delta(&TimeDelta::days(1)), "1 day");
    assert_eq!(pretty_time_delta(&TimeDelta::minutes(1441)), "1 day, 1 minute");
}

#[test]
fn time_delta_units() {
    assert_eq!(TimeDelta::milliseconds(3).num_microseconds(), 3_000);
    assert_eq!(TimeDelta::seconds(3).num_microseconds(), 3_000_000);
    assert_eq!(TimeDelta::minutes(3).num_seconds(), 180);
    assert_eq!(TimeDelta::hours(3).num_seconds(), 10_800);
    assert_eq!(TimeDelta::days(3).num_seconds(), 259_200);
    assert_eq!(TimeDelta::microseconds(-1_999_999).num_seconds(), -1);
    assert_eq!(TimeDelta::microseconds(i64::MIN).num_seconds(), -9_223_372_036_854);
    assert!(TimeDelta::seconds(1).is_positive());
    assert!(!TimeDelta::seconds(0).is_positive());
    assert!(!TimeDelta::seconds(-1).is_positive());
}

#[test]
fn presentation_constants() {
    assert_eq!(CustomEmoji::SINGLE_ROSE, "single_rose");
    assert_eq!(CustomEmoji::LETS_PLAY, "lets_play");
    assert_eq!(CustomEmoji::LOADING, "loading");
    assert_eq!(CustomColor::CYAN, 0x00FFFF);
    let avatar = Avatar { height: 10, url: "https://example.org/a.png".to_string(), width: 20 };
    assert_eq!(avatar.height + avatar.width, 30);
}
