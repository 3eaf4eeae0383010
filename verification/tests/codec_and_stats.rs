use habit_streaks::date::{make_date, Date};
use habit_streaks::frequency::{
    deserialize_frequency, serialize_frequency, FrequencyDecodeError, FrequencyPattern,
};
use habit_streaks::iso::{iso_date_string, parse_iso_date};
use habit_streaks::stats::{completion_rate, compute_stats, expected_completions};

fn d(year: u32, month: u32, day: u32) -> Date {
    make_date(year, month, day).expect("valid date")
}

#[test]
fn serialize_each_pattern_kind() {
    assert_eq!(
        serialize_frequency(&FrequencyPattern::Daily),
        ("daily".to_string(), "{}".to_string())
    );
    assert_eq!(
        serialize_frequency(&FrequencyPattern::Weekly { days: vec![1, 3, 5] }),
        ("weekly".to_string(), "[1,3,5]".to_string())
    );
    assert_eq!(
        serialize_frequency(&FrequencyPattern::Monthly { days: vec![15] }),
        ("monthly".to_string(), "[15]".to_string())
    );
    assert_eq!(
        serialize_frequency(&FrequencyPattern::Interval { days: 3 }),
        ("interval".to_string(), "3".to_string())
    );
    assert_eq!(
        serialize_frequency(&FrequencyPattern::Custom { pattern: "every other tuesday".to_string() }),
        ("custom".to_string(), "\"every other tuesday\"".to_string())
    );
}

#[test]
fn deserialize_each_pattern_kind() {
    assert_eq!(deserialize_frequency("daily", "{}"), Ok(FrequencyPattern::Daily));
    assert_eq!(
        deserialize_frequency("weekly", "[1,3,5]"),
        Ok(FrequencyPattern::Weekly { days: vec![1, 3, 5] })
    );
    assert_eq!(
        deserialize_frequency("monthly", "[15]"),
        Ok(FrequencyPattern::Monthly { days: vec![15] })
    );
    assert_eq!(
        deserialize_frequency("interval", "3"),
        Ok(FrequencyPattern::Interval { days: 3 })
    );
    assert_eq!(
        deserialize_frequency("custom", "\"every other tuesday\""),
        Ok(FrequencyPattern::Custom { pattern: "every other tuesday".to_string() })
    );
}

#[test]
fn deserialize_rejects_unknown_tag() {
    assert_eq!(
        deserialize_frequency("yearly", "{}"),
        Err(FrequencyDecodeError::UnknownType)
    );
    assert_eq!(
        deserialize_frequency("", "{}"),
        Err(FrequencyDecodeError::UnknownType)
    );
}

#[test]
fn deserialize_rejects_malformed_payloads() {
    assert_eq!(
        deserialize_frequency("weekly", "not json"),
        Err(FrequencyDecodeError::InvalidPayload)
    );
    assert_eq!(
        deserialize_frequency("interval", "[3]"),
        Err(FrequencyDecodeError::InvalidPayload)
    );
    assert_eq!(
        deserialize_frequency("interval", "-2"),
        Err(FrequencyDecodeError::InvalidPayload)
    );
    assert_eq!(
        deserialize_frequency("custom", "12"),
        Err(FrequencyDecodeError::InvalidPayload)
    );
}

#[test]
fn frequency_round_trips_through_the_persisted_form() {
    let patterns = vec![
        FrequencyPattern::Daily,
        FrequencyPattern::Weekly { days: vec![2, 4] },
        FrequencyPattern::Monthly { days: vec![1, 15, 28] },
        FrequencyPattern::Interval { days: 10 },
        FrequencyPattern::Custom { pattern: "x".to_string() },
    ];
    for p in patterns {
        let (tag, data) = serialize_frequency(&p);
        assert_eq!(deserialize_frequency(&tag, &data), Ok(p));
    }
}

#[test]
fn expected_completions_per_pattern_kind() {
    assert_eq!(expected_completions(&FrequencyPattern::Daily), 30);
    assert_eq!(
        expected_completions(&FrequencyPattern::Weekly { days: vec![1, 3, 5] }),
        13
    );
    assert_eq!(expected_completions(&FrequencyPattern::Weekly { days: vec![] }), 1);
    assert_eq!(expected_completions(&FrequencyPattern::Monthly { days: vec![15] }), 1);
    assert_eq!(expected_completions(&FrequencyPattern::Interval { days: 3 }), 10);
    assert_eq!(expected_completions(&FrequencyPattern::Interval { days: 7 }), 4);
    assert_eq!(expected_completions(&FrequencyPattern::Interval { days: 40 }), 0);
    assert_eq!(
        expected_completions(&FrequencyPattern::Custom { pattern: "x".to_string() }),
        30
    );
}

#[test]
fn completion_rate_is_clamped_to_unit_interval() {
    assert_eq!(completion_rate(15, 30), (15, 30));
    assert_eq!(completion_rate(0, 30), (0, 30));
    // Far more completions than expected: clamped to 1.
    assert_eq!(completion_rate(100000, 30), (30, 30));
    // Nothing expected: rate 0.
    assert_eq!(completion_rate(42, 0), (0, 1));
    for (total, expected) in [(0u32, 0u32), (1, 1), (7, 3), (3, 7), (u32::MAX, 1)] {
        let (num, den) = completion_rate(total, expected);
        assert!(den >= 1);
        assert!(num <= den);
    }
}

#[test]
fn iso_rendering_is_zero_padded() {
    assert_eq!(iso_date_string(d(2024, 1, 5)), "2024-01-05");
    assert_eq!(iso_date_string(d(987, 12, 31)), "0987-12-31");
    assert_eq!(iso_date_string(d(1, 1, 1)), "0001-01-01");
}

#[test]
fn iso_parsing_accepts_real_dates_only() {
    assert_eq!(parse_iso_date("2024-01-05"), Some(d(2024, 1, 5)));
    assert_eq!(parse_iso_date("0001-01-01"), Some(d(1, 1, 1)));
    assert_eq!(parse_iso_date("2024-02-29"), Some(d(2024, 2, 29)));
    assert_eq!(parse_iso_date("2023-02-29"), None);
    assert_eq!(parse_iso_date("2024-00-05"), None);
    assert_eq!(parse_iso_date("2024-13-05"), None);
    assert_eq!(parse_iso_date("2024-1-5"), None);
    assert_eq!(parse_iso_date("2024/01/05"), None);
    assert_eq!(parse_iso_date("2024-01-0x"), None);
    assert_eq!(parse_iso_date(""), None);
}

#[test]
fn iso_text_round_trips() {
    for date in [d(2024, 2, 29), d(1, 1, 1), d(9999, 12, 31), d(987, 6, 5)] {
        assert_eq!(parse_iso_date(&iso_date_string(date)), Some(date));
    }
}

#[test]
fn stats_report_carries_counters_and_window() {
    let today = d(2024, 3, 15);
    let completions = vec![d(2024, 3, 15), d(2024, 3, 13), d(2024, 2, 20), d(2024, 1, 1)];
    let stats = compute_stats(
        7,
        &FrequencyPattern::Daily,
        4,
        2,
        5,
        &completions,
        today,
    );
    assert_eq!(stats.habit_id, 7);
    assert_eq!(stats.total_completions, 4);
    assert_eq!(stats.current_streak, 2);
    assert_eq!(stats.longest_streak, 5);
    assert_eq!(stats.completion_rate_num, 4);
    assert_eq!(stats.completion_rate_den, 30);
    assert_eq!(stats.last_30_days.len(), 30);
    // Today first, then day by day backwards.
    assert_eq!(stats.last_30_days[0], ("2024-03-15".to_string(), true));
    assert_eq!(stats.last_30_days[1], ("2024-03-14".to_string(), false));
    assert_eq!(stats.last_30_days[2], ("2024-03-13".to_string(), true));
    // 24 days before 2024-03-15 is 2024-02-20.
    assert_eq!(stats.last_30_days[24], ("2024-02-20".to_string(), true));
    // The window ends 29 days back, before 2024-01-01's completion.
    assert_eq!(stats.last_30_days[29], ("2024-02-15".to_string(), false));
    assert!(stats.last_30_days.iter().filter(|e| e.1).count() == 3);
}

#[test]
fn stats_rate_stays_in_bounds_with_huge_history() {
    let today = d(2024, 3, 15);
    let completions = vec![d(2024, 3, 15)];
    let stats = compute_stats(
        1,
        &FrequencyPattern::Monthly { days: vec![1] },
        50000,
        1,
        1,
        &completions,
        today,
    );
    assert_eq!(stats.completion_rate_den, 1);
    assert_eq!(stats.completion_rate_num, 1);
    assert!(stats.completion_rate_num <= stats.completion_rate_den);
}
