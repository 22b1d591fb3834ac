use ambient_alarm::days::{parse_custom_days, DaySet};
use ambient_alarm::evaluator::{cadences_may_collide, should_fire_today};
use ambient_alarm::model::{repeat_mode_of_name, validate_schedule, CoreError, RepeatMode};

fn days(list: &[i64]) -> Option<DaySet> {
    Some(DaySet::new(list.to_vec()))
}

#[test]
fn daily_fires_every_day() {
    for wd in 0..7 {
        assert!(should_fire_today(RepeatMode::Daily, &None, wd));
    }
}

#[test]
fn weekday_fires_monday_through_friday() {
    assert!(!should_fire_today(RepeatMode::Weekday, &None, 0));
    for wd in 1..6 {
        assert!(should_fire_today(RepeatMode::Weekday, &None, wd));
    }
    assert!(!should_fire_today(RepeatMode::Weekday, &None, 6));
}

#[test]
fn weekend_fires_saturday_and_sunday() {
    assert!(should_fire_today(RepeatMode::Weekend, &None, 0));
    for wd in 1..6 {
        assert!(!should_fire_today(RepeatMode::Weekend, &None, wd));
    }
    assert!(should_fire_today(RepeatMode::Weekend, &None, 6));
}

#[test]
fn custom_fires_only_on_member_days() {
    let ds = days(&[2, 4]);
    assert!(!should_fire_today(RepeatMode::Custom, &ds, 1));
    assert!(should_fire_today(RepeatMode::Custom, &ds, 2));
    assert!(!should_fire_today(RepeatMode::Custom, &ds, 3));
    assert!(should_fire_today(RepeatMode::Custom, &ds, 4));
}

#[test]
fn custom_without_days_never_fires() {
    for wd in 0..7 {
        assert!(!should_fire_today(RepeatMode::Custom, &None, wd));
    }
}

#[test]
fn once_always_eligible_for_the_evaluator() {
    for wd in 0..7 {
        assert!(should_fire_today(RepeatMode::Once, &None, wd));
    }
}

#[test]
fn once_and_daily_collide_with_everything() {
    let modes = [
        RepeatMode::Daily,
        RepeatMode::Weekday,
        RepeatMode::Weekend,
        RepeatMode::Custom,
        RepeatMode::Once,
    ];
    for m in modes {
        assert!(cadences_may_collide(RepeatMode::Once, &None, m, &None));
        assert!(cadences_may_collide(RepeatMode::Daily, &None, m, &None));
    }
}

#[test]
fn weekday_and_weekend_never_collide() {
    assert!(!cadences_may_collide(
        RepeatMode::Weekday,
        &None,
        RepeatMode::Weekend,
        &None
    ));
    assert!(!cadences_may_collide(
        RepeatMode::Weekend,
        &None,
        RepeatMode::Weekday,
        &None
    ));
}

#[test]
fn weekday_collides_with_custom_holding_a_workday() {
    assert!(cadences_may_collide(
        RepeatMode::Weekday,
        &None,
        RepeatMode::Custom,
        &days(&[0, 3])
    ));
    assert!(!cadences_may_collide(
        RepeatMode::Weekday,
        &None,
        RepeatMode::Custom,
        &days(&[0, 6])
    ));
}

#[test]
fn weekend_collides_with_custom_holding_a_weekend_day() {
    assert!(cadences_may_collide(
        RepeatMode::Weekend,
        &None,
        RepeatMode::Custom,
        &days(&[6])
    ));
    assert!(!cadences_may_collide(
        RepeatMode::Weekend,
        &None,
        RepeatMode::Custom,
        &days(&[1, 2, 3])
    ));
}

#[test]
fn custom_sets_collide_only_when_they_intersect() {
    assert!(cadences_may_collide(
        RepeatMode::Custom,
        &days(&[1, 3]),
        RepeatMode::Custom,
        &days(&[3, 5])
    ));
    assert!(!cadences_may_collide(
        RepeatMode::Custom,
        &days(&[1, 3]),
        RepeatMode::Custom,
        &days(&[2, 4])
    ));
}

#[test]
fn collision_is_symmetric_on_concrete_pairs() {
    let cases: Vec<(RepeatMode, Option<DaySet>)> = vec![
        (RepeatMode::Daily, None),
        (RepeatMode::Weekday, None),
        (RepeatMode::Weekend, None),
        (RepeatMode::Custom, days(&[0, 2])),
        (RepeatMode::Custom, days(&[1, 5])),
        (RepeatMode::Custom, None),
        (RepeatMode::Once, None),
    ];
    for (m1, d1) in &cases {
        for (m2, d2) in &cases {
            assert_eq!(
                cadences_may_collide(*m1, d1, *m2, d2),
                cadences_may_collide(*m2, d2, *m1, d1),
            );
        }
    }
}

#[test]
fn parse_custom_days_reads_a_json_list() {
    let ds = parse_custom_days(Some("[1, 2, 5]")).expect("list should parse");
    assert!(ds.contains_day(1));
    assert!(ds.contains_day(2));
    assert!(ds.contains_day(5));
    assert!(!ds.contains_day(0));
    assert!(!ds.contains_day(3));
}

#[test]
fn parse_custom_days_rejects_malformed_text() {
    assert!(parse_custom_days(Some("weekdays")).is_none());
    assert!(parse_custom_days(Some("[1, ]")).is_none());
    assert!(parse_custom_days(Some("{\"a\": 1}")).is_none());
    assert!(parse_custom_days(None).is_none());
}

#[test]
fn parse_custom_days_accepts_an_empty_list() {
    let ds = parse_custom_days(Some("[]")).expect("empty list should parse");
    for wd in 0..7 {
        assert!(!ds.contains_day(wd));
    }
}

#[test]
fn mode_names_round_trip() {
    let modes = [
        RepeatMode::Daily,
        RepeatMode::Weekday,
        RepeatMode::Weekend,
        RepeatMode::Custom,
        RepeatMode::Once,
    ];
    for m in modes {
        assert_eq!(repeat_mode_of_name(m.name()), Some(m));
    }
}

#[test]
fn unknown_mode_names_denote_no_cadence() {
    assert_eq!(repeat_mode_of_name("hourly"), None);
    assert_eq!(repeat_mode_of_name(""), None);
    assert_eq!(repeat_mode_of_name("Daily"), None);
    assert_eq!(repeat_mode_of_name("weekdays"), None);
}

#[test]
fn validate_schedule_requires_days_for_custom() {
    assert_eq!(
        validate_schedule(RepeatMode::Custom, &None),
        Err(CoreError::InvalidSchedule)
    );
    assert_eq!(validate_schedule(RepeatMode::Custom, &days(&[1])), Ok(()));
    assert_eq!(validate_schedule(RepeatMode::Daily, &None), Ok(()));
    assert_eq!(validate_schedule(RepeatMode::Once, &None), Ok(()));
}
