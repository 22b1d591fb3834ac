use ambient_alarm::conflict::{
    effective_duration_minutes, find_conflicts, minutes_ceil, playlist_total_seconds,
    CandidateSchedule, TaskWithLength,
};
use ambient_alarm::model::{PlaylistItem, RepeatMode, ScheduledTask};

fn item(audio_id: i64, duration: i64) -> PlaylistItem {
    PlaylistItem {
        id: audio_id,
        playlist_id: 1,
        audio_id,
        sort_order: audio_id,
        audio_name: format!("clip {}", audio_id),
        duration,
    }
}

fn existing(
    id: i64,
    hour: i64,
    minute: i64,
    mode: RepeatMode,
    duration_minutes: Option<i64>,
) -> TaskWithLength {
    TaskWithLength {
        task: ScheduledTask {
            id,
            name: format!("task {}", id),
            hour,
            minute,
            repeat_mode: mode,
            custom_days: None,
            playlist_id: 1,
            playlist_name: String::from("morning"),
            volume: 80,
            fade_in_duration: 0,
            duration_minutes,
            is_enabled: true,
            priority: 0,
            created_date: String::new(),
        },
        playlist_seconds: 0,
    }
}

fn candidate(
    hour: i64,
    minute: i64,
    mode: RepeatMode,
    duration_minutes: Option<i64>,
) -> CandidateSchedule {
    CandidateSchedule {
        hour,
        minute,
        repeat_mode: mode,
        custom_days: None,
        duration_minutes,
        playlist_seconds: 0,
    }
}

#[test]
fn sixty_seconds_round_to_one_minute() {
    let items = vec![item(1, 10), item(2, 20), item(3, 30)];
    let total = playlist_total_seconds(&items);
    assert_eq!(total, 60);
    assert_eq!(minutes_ceil(total), 1);
}

#[test]
fn sixty_one_seconds_round_to_two_minutes() {
    assert_eq!(minutes_ceil(61), 2);
}

#[test]
fn minutes_ceil_edge_values() {
    assert_eq!(minutes_ceil(0), 0);
    assert_eq!(minutes_ceil(1), 1);
    assert_eq!(minutes_ceil(59), 1);
    assert_eq!(minutes_ceil(60), 1);
    assert_eq!(minutes_ceil(120), 2);
    assert_eq!(minutes_ceil(121), 3);
}

#[test]
fn explicit_duration_overrides_the_playlist() {
    assert_eq!(effective_duration_minutes(&Some(45), 60), 45);
    assert_eq!(effective_duration_minutes(&None, 61), 2);
}

#[test]
fn overlapping_daily_and_weekday_tasks_conflict() {
    // task A runs 07:00 for 10 minutes; task B starts 07:05 for 5 minutes
    let a = candidate(7, 0, RepeatMode::Daily, Some(10));
    let b = existing(2, 7, 5, RepeatMode::Weekday, Some(5));
    let conflicts = find_conflicts(&a, &vec![b], None);
    assert_eq!(conflicts.len(), 1);
    assert_eq!(conflicts[0].task_id, 2);
    assert_eq!(conflicts[0].hour, 7);
    assert_eq!(conflicts[0].minute, 5);
}

#[test]
fn disjoint_times_do_not_conflict() {
    // task C at 08:00 against task A at 07:00 for 10 minutes
    let c = candidate(8, 0, RepeatMode::Weekday, Some(5));
    let a = existing(1, 7, 0, RepeatMode::Daily, Some(10));
    assert!(find_conflicts(&c, &vec![a], None).is_empty());
}

#[test]
fn weekday_against_weekend_never_conflicts() {
    let a = candidate(7, 0, RepeatMode::Weekday, Some(30));
    let b = existing(2, 7, 0, RepeatMode::Weekend, Some(30));
    assert!(find_conflicts(&a, &vec![b], None).is_empty());
}

#[test]
fn conflict_detection_is_symmetric_on_a_concrete_pair() {
    let a = existing(1, 7, 0, RepeatMode::Daily, Some(10));
    let b = existing(2, 7, 5, RepeatMode::Weekday, Some(5));
    let a_view = candidate(7, 0, RepeatMode::Daily, Some(10));
    let b_view = candidate(7, 5, RepeatMode::Weekday, Some(5));
    let from_a = find_conflicts(&a_view, &vec![b], Some(1));
    let from_b = find_conflicts(&b_view, &vec![a], Some(2));
    assert_eq!(from_a.len(), 1);
    assert_eq!(from_b.len(), 1);
    assert_eq!(from_a[0].task_id, 2);
    assert_eq!(from_b[0].task_id, 1);
}

#[test]
fn the_task_being_edited_is_skipped() {
    let a = candidate(7, 0, RepeatMode::Daily, Some(10));
    let same = existing(5, 7, 0, RepeatMode::Daily, Some(10));
    assert!(find_conflicts(&a, &vec![same], Some(5)).is_empty());
}

#[test]
fn disabled_tasks_are_skipped() {
    let a = candidate(7, 0, RepeatMode::Daily, Some(10));
    let mut b = existing(2, 7, 5, RepeatMode::Daily, Some(5));
    b.task.is_enabled = false;
    assert!(find_conflicts(&a, &vec![b], None).is_empty());
}

#[test]
fn playlist_duration_feeds_the_interval() {
    // 61 seconds of playlist round up to 2 minutes: 07:00-07:02
    let mut a = candidate(7, 0, RepeatMode::Daily, None);
    a.playlist_seconds = 61;
    let b = existing(2, 7, 1, RepeatMode::Daily, Some(5));
    assert_eq!(find_conflicts(&a, &vec![b], None).len(), 1);
    let c = existing(3, 7, 2, RepeatMode::Daily, Some(5));
    assert!(find_conflicts(&a, &vec![c], None).is_empty());
}

#[test]
fn intervals_past_midnight_are_not_wrapped() {
    // a long run from 23:30 for 90 minutes is not tested against 00:10
    let a = candidate(23, 30, RepeatMode::Daily, Some(90));
    let b = existing(2, 0, 10, RepeatMode::Daily, Some(10));
    assert!(find_conflicts(&a, &vec![b], None).is_empty());
}

#[test]
fn empty_playlist_sums_to_zero_seconds() {
    let items: Vec<PlaylistItem> = Vec::new();
    assert_eq!(playlist_total_seconds(&items), 0);
    assert_eq!(minutes_ceil(0), 0);
}
