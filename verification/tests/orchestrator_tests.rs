use ambient_alarm::model::CoreError;
use ambient_alarm::orchestrator::{
    fade_volume, OrchestrationRun, PlaybackAction, PlaybackEvent, PlaylistEntry, RunPhase,
};
use ambient_alarm::player::AudioPlayer;
use ambient_alarm::recorder::AudioRecorder;
use ambient_alarm::scheduler::poll_tick_now;
use ambient_alarm::history::ExecutionHistory;

fn entry(audio_id: i64, duration_seconds: i64) -> PlaylistEntry {
    PlaylistEntry {
        audio_id,
        file_path: format!("/audio/{}.mp3", audio_id),
        duration_seconds,
        audio_name: format!("clip {}", audio_id),
    }
}

/// Drives the run to completion with every action succeeding, collecting
/// the actions issued.
fn run_to_end(run: &mut OrchestrationRun) -> Vec<PlaybackAction> {
    let mut actions = Vec::new();
    loop {
        let a = run.next_action();
        if a == PlaybackAction::Idle {
            return actions;
        }
        actions.push(a);
        run.advance(PlaybackEvent::Done);
    }
}

#[test]
fn empty_playlist_is_refused() {
    let r = OrchestrationRun::new(Vec::new(), 80, 0, 1);
    match r {
        Err(e) => assert_eq!(e, CoreError::EmptyPlaylist),
        Ok(_) => panic!("an empty playlist must be refused"),
    }
}

#[test]
fn fade_volume_ramps_linearly() {
    assert_eq!(fade_volume(80, 4, 1), 20);
    assert_eq!(fade_volume(80, 4, 2), 40);
    assert_eq!(fade_volume(80, 4, 3), 60);
    assert_eq!(fade_volume(80, 4, 4), 80);
}

#[test]
fn fade_scenario_volume_sequence() {
    // volume 80, fade 4s: observed ramp at one-second steps is 20,40,60,80
    let mut run = OrchestrationRun::new(vec![entry(7, 30)], 80, 4, 1).unwrap();
    let actions = run_to_end(&mut run);
    let ramp: Vec<i64> = actions
        .iter()
        .filter_map(|a| match a {
            PlaybackAction::HoldRampStep { percent } => Some(*percent),
            _ => None,
        })
        .collect();
    assert_eq!(ramp, vec![20, 40, 60, 80]);
    assert_eq!(run.phase, RunPhase::Finished);
}

#[test]
fn fade_run_starts_silent() {
    let mut run = OrchestrationRun::new(vec![entry(7, 30)], 80, 4, 1).unwrap();
    assert_eq!(run.next_action(), PlaybackAction::SetVolume { percent: 0 });
    run.advance(PlaybackEvent::Done);
    assert_eq!(run.next_action(), PlaybackAction::StartEntry { index: 0 });
}

#[test]
fn plain_run_starts_at_target_volume() {
    let mut run = OrchestrationRun::new(vec![entry(7, 30)], 65, 0, 1).unwrap();
    assert_eq!(run.next_action(), PlaybackAction::SetVolume { percent: 65 });
    run.advance(PlaybackEvent::Done);
    assert_eq!(run.next_action(), PlaybackAction::StartEntry { index: 0 });
    run.advance(PlaybackEvent::Done);
    assert_eq!(run.next_action(), PlaybackAction::WaitTrack { seconds: 30 });
}

#[test]
fn entries_play_sequentially_and_commit_once_each() {
    let entries = vec![entry(1, 10), entry(2, 20), entry(3, 30)];
    let mut run = OrchestrationRun::new(entries, 50, 0, 1).unwrap();
    let actions = run_to_end(&mut run);
    let starts: Vec<usize> = actions
        .iter()
        .filter_map(|a| match a {
            PlaybackAction::StartEntry { index } => Some(*index),
            _ => None,
        })
        .collect();
    let waits: Vec<i64> = actions
        .iter()
        .filter_map(|a| match a {
            PlaybackAction::WaitTrack { seconds } => Some(*seconds),
            _ => None,
        })
        .collect();
    let plays: Vec<i64> = actions
        .iter()
        .filter_map(|a| match a {
            PlaybackAction::RecordPlay { audio_id } => Some(*audio_id),
            _ => None,
        })
        .collect();
    assert_eq!(starts, vec![0, 1, 2]);
    assert_eq!(waits, vec![10, 20, 30]);
    assert_eq!(plays, vec![1, 2, 3]);
    assert_eq!(run.phase, RunPhase::Finished);
}

#[test]
fn device_error_aborts_the_whole_run() {
    let entries = vec![entry(1, 10), entry(2, 20)];
    let mut run = OrchestrationRun::new(entries, 50, 0, 1).unwrap();
    run.advance(PlaybackEvent::Done); // volume set
    run.advance(PlaybackEvent::DeviceError); // open fails
    assert_eq!(run.phase, RunPhase::Failed);
    assert_eq!(run.next_action(), PlaybackAction::Idle);
    // terminal phases absorb further events
    run.advance(PlaybackEvent::Done);
    assert_eq!(run.phase, RunPhase::Failed);
}

#[test]
fn play_counts_committed_before_a_failure_stay_committed() {
    let entries = vec![entry(1, 10), entry(2, 20), entry(3, 30)];
    let mut run = OrchestrationRun::new(entries, 50, 0, 1).unwrap();
    let mut plays: Vec<i64> = Vec::new();
    loop {
        let a = run.next_action();
        let ev = match a {
            PlaybackAction::Idle => break,
            PlaybackAction::RecordPlay { audio_id } => {
                plays.push(audio_id);
                PlaybackEvent::Done
            },
            // opening the second entry fails
            PlaybackAction::StartEntry { index: 1 } => PlaybackEvent::DeviceError,
            _ => PlaybackEvent::Done,
        };
        run.advance(ev);
    }
    // the first entry's play stands; the run aborted before the others
    assert_eq!(plays, vec![1]);
    assert_eq!(run.phase, RunPhase::Failed);
}

#[test]
fn superseded_run_ends_without_bookkeeping() {
    let entries = vec![entry(1, 10), entry(2, 20)];
    let mut run = OrchestrationRun::new(entries, 50, 0, 7).unwrap();
    run.advance(PlaybackEvent::Done); // volume
    run.advance(PlaybackEvent::Done); // start entry 0
    run.advance(PlaybackEvent::Done); // wait done
    assert!(matches!(run.next_action(), PlaybackAction::RecordPlay { .. }));
    // after the wait the shell finds a newer session on the device
    assert!(!run.still_current(8));
    run.advance(PlaybackEvent::Superseded);
    assert_eq!(run.phase, RunPhase::Superseded);
    assert_eq!(run.next_action(), PlaybackAction::Idle);
}

#[test]
fn generation_check_matches_only_its_own_run() {
    let run = OrchestrationRun::new(vec![entry(1, 10)], 50, 0, 3).unwrap();
    assert!(run.still_current(3));
    assert!(!run.still_current(4));
}

#[test]
fn player_queue_walks_forward_and_back() {
    let mut p = AudioPlayer::new();
    p.set_playlist_queue(vec![10, 20, 30], true);
    assert_eq!(p.current_index, 0);
    assert_eq!(p.play_next(), Some(20));
    assert_eq!(p.play_next(), Some(30));
    assert_eq!(p.play_next(), None);
    assert_eq!(p.play_previous(), Some(20));
    assert_eq!(p.play_previous(), Some(10));
    assert_eq!(p.play_previous(), None);
}

#[test]
fn player_with_no_queue_steps_nowhere() {
    let mut p = AudioPlayer::new();
    assert_eq!(p.play_next(), None);
    assert_eq!(p.play_previous(), None);
}

#[test]
fn loading_a_queue_bumps_the_generation() {
    let mut p = AudioPlayer::new();
    assert_eq!(p.generation, 0);
    p.set_playlist_queue(vec![1], false);
    assert_eq!(p.generation, 1);
    p.set_playlist_queue(vec![2, 3], true);
    assert_eq!(p.generation, 2);
    p.stop();
    assert_eq!(p.generation, 3);
    assert!(p.playlist_queue.is_empty());
}

#[test]
fn player_volume_is_clamped() {
    let mut p = AudioPlayer::new();
    p.set_volume(150);
    assert_eq!(p.volume_percent, 100);
    p.set_volume(-3);
    assert_eq!(p.volume_percent, 0);
    p.set_volume(42);
    assert_eq!(p.volume_percent, 42);
}

#[test]
fn player_pause_resume_and_stop() {
    let mut p = AudioPlayer::new();
    p.set_playlist_queue(vec![5], false);
    p.note_playing(5, String::from("clip 5"));
    assert!(p.is_playing());
    p.pause();
    assert!(!p.is_playing());
    p.resume();
    assert!(p.is_playing());
    p.stop();
    assert!(!p.is_playing());
    assert_eq!(p.current_audio_id, None);
}

#[test]
fn recorder_round_trip() {
    let mut r = AudioRecorder::new();
    assert!(!r.is_recording());
    assert_eq!(r.get_output_path(), None);
    r.set_output_path(Some(String::from("/audio/rec/take1.wav")));
    r.set_recording(true);
    assert!(r.is_recording());
    assert_eq!(
        r.get_output_path(),
        Some(String::from("/audio/rec/take1.wav"))
    );
    r.set_recording(false);
    r.set_output_path(None);
    assert!(!r.is_recording());
    assert_eq!(r.get_output_path(), None);
}

#[test]
fn clock_reading_is_in_range() {
    let mut history = ExecutionHistory::new();
    let (now, fired) = poll_tick_now(&Vec::new(), &mut history);
    assert!((0..=23).contains(&now.hour));
    assert!((0..=59).contains(&now.minute));
    assert!((0..=6).contains(&now.weekday));
    assert!(fired.is_empty());
    assert!(history.rows.is_empty());
}

#[test]
fn error_descriptions_name_each_failure() {
    assert_eq!(CoreError::NotFound.describe(), "record not found");
    assert_eq!(CoreError::EmptyPlaylist.describe(), "playlist is empty");
    assert_eq!(
        CoreError::DeviceUnavailable.describe(),
        "audio device unavailable"
    );
    assert_eq!(
        CoreError::InvalidSchedule.describe(),
        "custom schedule has no usable day set"
    );
    assert_eq!(CoreError::StoreError.describe(), "store access failed");
}
