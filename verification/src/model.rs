//! Shared data model: the persisted entities and the error taxonomy.

use vstd::prelude::*;
use crate::days::DaySet;

verus! {

/// The cadence on which a scheduled task repeats.
#[derive(Clone, Copy, PartialEq, Eq, Structural, Debug)]
pub enum RepeatMode {
    /// Fires every day.
    Daily,
    /// Fires Monday through Friday (day indices 1 to 5, with 0 = Sunday).
    Weekday,
    /// Fires Saturday and Sunday (day indices 6 and 0).
    Weekend,
    /// Fires on the days listed in the task's custom day set.
    Custom,
    /// Fires at most once over the task's whole lifetime.
    Once,
}

/// The cadence a stored mode name denotes, if any. A name outside the five
/// known ones denotes no cadence, and a task carrying one never fires.
pub open spec fn spec_repeat_mode_of_name(s: Seq<char>) -> Option<RepeatMode> {
    if s == "daily"@ {
        Some(RepeatMode::Daily)
    } else if s == "weekday"@ {
        Some(RepeatMode::Weekday)
    } else if s == "weekend"@ {
        Some(RepeatMode::Weekend)
    } else if s == "custom"@ {
        Some(RepeatMode::Custom)
    } else if s == "once"@ {
        Some(RepeatMode::Once)
    } else {
        None
    }
}

/// Parses the stored text of a task's repeat mode.
pub fn repeat_mode_of_name(text: &str) -> (r: Option<RepeatMode>)
    ensures
        r == spec_repeat_mode_of_name(text@),
{
    let t = String::from_str(text);
    if t == String::from_str("daily") {
        Some(RepeatMode::Daily)
    } else if t == String::from_str("weekday") {
        Some(RepeatMode::Weekday)
    } else if t == String::from_str("weekend") {
        Some(RepeatMode::Weekend)
    } else if t == String::from_str("custom") {
        Some(RepeatMode::Custom)
    } else if t == String::from_str("once") {
        Some(RepeatMode::Once)
    } else {
        None
    }
}

impl RepeatMode {
    /// The text this cadence is stored under.
    pub open spec fn spec_name(&self) -> Seq<char> {
        match self {
            RepeatMode::Daily => "daily"@,
            RepeatMode::Weekday => "weekday"@,
            RepeatMode::Weekend => "weekend"@,
            RepeatMode::Custom => "custom"@,
            RepeatMode::Once => "once"@,
        }
    }

    /// The text this cadence is stored under.
    pub fn name(&self) -> (r: &'static str)
        ensures
            r@ == self.spec_name(),
    {
        match self {
            RepeatMode::Daily => "daily",
            RepeatMode::Weekday => "weekday",
            RepeatMode::Weekend => "weekend",
            RepeatMode::Custom => "custom",
            RepeatMode::Once => "once",
        }
    }
}

/// Every cadence's stored name reads back as that cadence.
pub proof fn lemma_mode_name_round_trip(m: RepeatMode)
    ensures
        spec_repeat_mode_of_name(m.spec_name()) == Some(m),
{
    reveal_strlit("daily");
    reveal_strlit("weekday");
    reveal_strlit("weekend");
    reveal_strlit("custom");
    reveal_strlit("once");
    assert("daily"@.len() == 5);
    assert("weekday"@.len() == 7);
    assert("weekend"@.len() == 7);
    assert("custom"@.len() == 6);
    assert("once"@.len() == 4);
    assert("weekend"@ != "weekday"@) by {
        assert("weekday"@[4] == 'd');
        assert("weekend"@[4] == 'e');
    }
    match m {
        RepeatMode::Daily => {
            assert(spec_repeat_mode_of_name("daily"@) == Some(RepeatMode::Daily));
        },
        RepeatMode::Weekday => {
            assert("weekday"@ != "daily"@);
            assert(spec_repeat_mode_of_name("weekday"@) == Some(RepeatMode::Weekday));
        },
        RepeatMode::Weekend => {
            assert("weekend"@ != "daily"@);
            assert(spec_repeat_mode_of_name("weekend"@) == Some(RepeatMode::Weekend));
        },
        RepeatMode::Custom => {
            assert("custom"@ != "daily"@);
            assert("custom"@ != "weekday"@);
            assert("custom"@ != "weekend"@);
            assert(spec_repeat_mode_of_name("custom"@) == Some(RepeatMode::Custom));
        },
        RepeatMode::Once => {
            assert("once"@ != "daily"@);
            assert("once"@ != "weekday"@);
            assert("once"@ != "weekend"@);
            assert("once"@ != "custom"@);
            assert(spec_repeat_mode_of_name("once"@) == Some(RepeatMode::Once));
        },
    }
}

/// An audio clip known to the store.
pub struct AudioFile {
    pub id: i64,
    pub file_path: String,
    pub original_name: String,
    /// Best-effort probed length in whole seconds.
    pub duration: i64,
    pub format: String,
    pub play_count: i64,
    pub last_played: Option<String>,
}

/// A named, ordered collection of audio clips.
pub struct Playlist {
    pub id: i64,
    pub name: String,
    pub play_mode: String,
    pub created_date: String,
    pub updated_date: String,
}

/// One slot of a playlist. Duplicates of the same audio are permitted and
/// play back as separate entries; order is by ascending `sort_order`.
pub struct PlaylistItem {
    pub id: i64,
    pub playlist_id: i64,
    pub audio_id: i64,
    pub sort_order: i64,
    pub audio_name: String,
    /// Length in whole seconds, copied from the audio file's metadata.
    pub duration: i64,
}

/// A user-defined schedule: at (hour, minute), on the days the cadence
/// selects, play the given playlist at the given volume.
pub struct ScheduledTask {
    pub id: i64,
    pub name: String,
    pub hour: i64,
    pub minute: i64,
    pub repeat_mode: RepeatMode,
    /// Day set for `RepeatMode::Custom`; `None` when absent or unparseable.
    pub custom_days: Option<DaySet>,
    pub playlist_id: i64,
    pub playlist_name: String,
    /// Target playback volume in percent, 0 to 100.
    pub volume: i64,
    /// Fade-in ramp length in seconds; 0 means no fade.
    pub fade_in_duration: i64,
    /// Explicit override of the estimated playback length, in minutes.
    /// Used only by conflict detection.
    pub duration_minutes: Option<i64>,
    pub is_enabled: bool,
    /// Higher priority is evaluated first among simultaneously due tasks.
    pub priority: i64,
    pub created_date: String,
}

impl ScheduledTask {
    /// Field ranges every task coming out of the store obeys.
    pub open spec fn wf(&self) -> bool {
        &&& 0 <= self.hour <= 23
        &&& 0 <= self.minute <= 59
        &&& 0 <= self.volume <= 100
        &&& 0 <= self.fade_in_duration
        &&& self.fade_in_duration * 100 <= i64::MAX
        &&& (self.duration_minutes matches Some(d) ==> 0 <= d <= i64::MAX - 1440)
    }
}

/// One conflict reported by the conflict detector: which enabled task
/// overlaps the candidate, and when it starts.
pub struct TaskConflict {
    pub task_id: i64,
    pub task_name: String,
    pub hour: i64,
    pub minute: i64,
}

/// The error taxonomy of the core.
#[derive(Clone, Copy, PartialEq, Eq, Structural, Debug)]
pub enum CoreError {
    /// A task, playlist or audio id is absent from the store.
    NotFound,
    /// The playlist to play resolves to no entries.
    EmptyPlaylist,
    /// No output device, or a device call failed.
    DeviceUnavailable,
    /// A custom-cadence task without a usable day set.
    InvalidSchedule,
    /// A persistence read or write failed.
    StoreError,
}

impl CoreError {
    /// A short human-readable description of the error.
    pub fn describe(&self) -> (r: &'static str)
        ensures
            r@ == self.spec_describe(),
    {
        match self {
            CoreError::NotFound => "record not found",
            CoreError::EmptyPlaylist => "playlist is empty",
            CoreError::DeviceUnavailable => "audio device unavailable",
            CoreError::InvalidSchedule => "custom schedule has no usable day set",
            CoreError::StoreError => "store access failed",
        }
    }

    pub open spec fn spec_describe(&self) -> Seq<char> {
        match self {
            CoreError::NotFound => "record not found"@,
            CoreError::EmptyPlaylist => "playlist is empty"@,
            CoreError::DeviceUnavailable => "audio device unavailable"@,
            CoreError::InvalidSchedule => "custom schedule has no usable day set"@,
            CoreError::StoreError => "store access failed"@,
        }
    }
}

/// A task is schedulable when a custom cadence carries a day set; the other
/// cadences need none.
pub open spec fn spec_schedule_valid(mode: RepeatMode, custom_days: Option<DaySet>) -> bool {
    mode is Custom ==> custom_days is Some
}

/// Rejects a custom-cadence task whose day set is absent (for instance
/// because the stored text was not a JSON list of integers).
pub fn validate_schedule(mode: RepeatMode, custom_days: &Option<DaySet>) -> (r: Result<(), CoreError>)
    ensures
        r is Ok <==> spec_schedule_valid(mode, *custom_days),
        r is Err ==> r->Err_0 == CoreError::InvalidSchedule,
{
    match mode {
        RepeatMode::Custom => {
            match custom_days {
                Some(_) => Ok(()),
                None => Err(CoreError::InvalidSchedule),
            }
        },
        _ => Ok(()),
    }
}

} // verus!
