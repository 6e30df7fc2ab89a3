use form_biorhythm::{
    cycle_phase, days_between, days_between_dates, days_in_month, reference_date, sample_series,
    validate_date, validate_date_fields, CalendarDate, Cycle, CHART_DAYS,
};

#[test]
fn leap_day_is_valid_in_a_leap_year() {
    assert_eq!(validate_date(2024, 2, 29), Ok(()));
    assert_eq!(validate_date(2000, 2, 29), Ok(()));
}

#[test]
fn leap_day_is_invalid_otherwise() {
    assert_eq!(
        validate_date(2023, 2, 29),
        Err("Invalid day for month 2. Maximum is 28".to_string())
    );
    assert_eq!(
        validate_date(1900, 2, 29),
        Err("Invalid day for month 2. Maximum is 28".to_string())
    );
}

#[test]
fn year_out_of_range_is_reported() {
    assert_eq!(
        validate_date(1899, 1, 1),
        Err("Year must be between 1900 and 2100".to_string())
    );
    assert_eq!(
        validate_date(2101, 1, 1),
        Err("Year must be between 1900 and 2100".to_string())
    );
    assert_eq!(validate_date(1900, 1, 1), Ok(()));
    assert_eq!(validate_date(2100, 12, 31), Ok(()));
}

#[test]
fn only_the_first_problem_is_reported() {
    assert_eq!(
        validate_date(1800, 13, 40),
        Err("Year must be between 1900 and 2100".to_string())
    );
    assert_eq!(
        validate_date(1990, 0, 0),
        Err("Month must be between 1 and 12".to_string())
    );
    assert_eq!(
        validate_date(1990, 12, 32),
        Err("Day must be between 1 and 31".to_string())
    );
    assert_eq!(
        validate_date(1990, 12, 0),
        Err("Day must be between 1 and 31".to_string())
    );
}

#[test]
fn thirty_day_months_reject_the_thirty_first() {
    assert_eq!(
        validate_date(1990, 4, 31),
        Err("Invalid day for month 4. Maximum is 30".to_string())
    );
    assert_eq!(
        validate_date(1990, 11, 31),
        Err("Invalid day for month 11. Maximum is 30".to_string())
    );
    assert_eq!(validate_date(1990, 7, 31), Ok(()));
}

#[test]
fn month_lengths() {
    assert_eq!(days_in_month(2024, 2), 29);
    assert_eq!(days_in_month(2100, 2), 28);
    assert_eq!(days_in_month(2000, 2), 29);
    assert_eq!(days_in_month(2023, 9), 30);
    assert_eq!(days_in_month(2023, 1), 31);
}

#[test]
fn date_fields_parse_then_check() {
    assert_eq!(
        validate_date_fields("1990", "1", "1"),
        Ok(CalendarDate { year: 1990, month: 1, day: 1 })
    );
    assert_eq!(
        validate_date_fields("+2024", "02", "29"),
        Ok(CalendarDate { year: 2024, month: 2, day: 29 })
    );
    assert_eq!(
        validate_date_fields("19x0", "1", "1"),
        Err("Year must be a valid number".to_string())
    );
    assert_eq!(
        validate_date_fields("", "1", "1"),
        Err("Year must be a valid number".to_string())
    );
    assert_eq!(
        validate_date_fields("1990", "-1", "1"),
        Err("Month must be a valid number".to_string())
    );
    assert_eq!(
        validate_date_fields("1990", "1", " 1"),
        Err("Day must be a valid number".to_string())
    );
    assert_eq!(
        validate_date_fields("-5", "1", "1"),
        Err("Year must be between 1900 and 2100".to_string())
    );
    assert_eq!(
        validate_date_fields("99999999999", "x", "1"),
        Err("Year must be a valid number".to_string())
    );
    assert_eq!(
        validate_date_fields("2023", "2", "29"),
        Err("Invalid day for month 2. Maximum is 28".to_string())
    );
}

#[test]
fn day_counts_use_thirty_day_months() {
    let birth = CalendarDate { year: 1990, month: 1, day: 1 };
    assert_eq!(days_between(birth, reference_date()), 13075);
    assert_eq!(days_between_dates(1990, 1, 1), 13075);
    assert_eq!(days_between_dates(2025, 11, 1), 0);
    assert_eq!(days_between_dates(2025, 12, 1), -30);
    let later = CalendarDate { year: 1991, month: 1, day: 1 };
    assert_eq!(days_between(birth, later), 365);
    assert_eq!(days_between(later, birth), -365);
}

#[test]
fn cycle_periods() {
    assert_eq!(Cycle::Physical.period_days(), 23);
    assert_eq!(Cycle::Emotional.period_days(), 28);
    assert_eq!(Cycle::Intellectual.period_days(), 33);
    assert_eq!(CHART_DAYS, 33);
}

#[test]
fn phase_starts_at_zero_and_repeats() {
    assert_eq!(cycle_phase(0, Cycle::Physical), 0);
    assert_eq!(cycle_phase(23, Cycle::Physical), 0);
    assert_eq!(cycle_phase(24, Cycle::Physical), 1);
    for d in -100i64..100 {
        for c in [Cycle::Physical, Cycle::Emotional, Cycle::Intellectual] {
            let p = c.period_days() as i64;
            assert_eq!(cycle_phase(d, c), cycle_phase(d + p, c));
        }
    }
}

#[test]
fn phase_of_negative_days() {
    assert_eq!(cycle_phase(-1, Cycle::Physical), 22);
    assert_eq!(cycle_phase(-29, Cycle::Emotional), 27);
    assert_eq!(cycle_phase(-33, Cycle::Intellectual), 0);
    assert_eq!(cycle_phase(i64::MIN, Cycle::Emotional), 20);
}

#[test]
fn series_has_count_samples_in_order() {
    let samples = sample_series(0, Cycle::Physical, 33);
    assert_eq!(samples.len(), 33);
    for (i, s) in samples.iter().enumerate() {
        assert_eq!(s.offset as usize, i);
        assert_eq!(s.day, i as i64);
        assert_eq!(s.phase as usize, i % 23);
    }
    assert_eq!(samples[23].phase, 0);
    assert_eq!(samples[32].phase, 9);
}

#[test]
fn series_from_negative_start_and_empty_series() {
    let samples = sample_series(-2, Cycle::Intellectual, 3);
    let phases: Vec<u32> = samples.iter().map(|s| s.phase).collect();
    assert_eq!(phases, vec![31, 32, 0]);
    assert!(sample_series(100, Cycle::Emotional, 0).is_empty());
    let again = sample_series(-2, Cycle::Intellectual, 3);
    assert_eq!(samples, again);
}
