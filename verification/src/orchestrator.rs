//! Playback orchestration: the sequencer that drives the device through a
//! resolved playlist.
//!
//! The orchestrator is a state machine. The shell around the library asks it
//! for the next device instruction, performs it (set volume, start an entry,
//! sleep, update play counts), and reports back what happened; the machine
//! then advances. Tracks are strictly sequential, a fade-in ramps the volume
//! linearly one step per second, and every entry waits out its recorded
//! duration before its play count is committed. Any device error aborts the
//! whole run; a run superseded by a newer playback session (detected by the
//! generation tag) terminates silently without touching the counts again.

use vstd::prelude::*;
use vstd::arithmetic::div_mod::lemma_div_is_ordered;
use vstd::arithmetic::div_mod::lemma_div_multiples_vanish;
use vstd::arithmetic::div_mod::lemma_div_pos_is_pos;
use vstd::arithmetic::mul::lemma_mul_inequality;
use vstd::arithmetic::mul::lemma_mul_is_commutative;
use vstd::arithmetic::mul::lemma_mul_nonnegative;
use crate::model::CoreError;

verus! {

/// One entry of a resolved playlist, in playback order.
pub struct PlaylistEntry {
    pub audio_id: i64,
    pub file_path: String,
    /// Recorded length in whole seconds; the wait after starting the entry,
    /// whatever the device actually does.
    pub duration_seconds: i64,
    pub audio_name: String,
}

/// The volume percent of a fade-in ramp at a given whole-second step: the
/// linear ramp from 0 up to the target over the fade length.
pub open spec fn spec_fade_volume(volume: int, fade_seconds: int, step: int) -> int {
    volume * step / fade_seconds
}

/// Computes one fade-in ramp step: after `step` of `fade_seconds` seconds
/// the volume stands at `volume * step / fade_seconds` percent, reaching the
/// target exactly at the last step.
pub fn fade_volume(volume: i64, fade_seconds: i64, step: i64) -> (r: i64)
    requires
        0 <= volume <= 100,
        1 <= fade_seconds,
        fade_seconds * 100 <= i64::MAX,
        0 <= step <= fade_seconds,
    ensures
        r == spec_fade_volume(volume as int, fade_seconds as int, step as int),
        0 <= r <= volume,
        step == fade_seconds ==> r == volume,
{
    proof {
        lemma_mul_nonnegative(volume as int, step as int);
        lemma_mul_inequality(volume as int, 100, step as int);
        lemma_div_pos_is_pos(volume as int * step as int, fade_seconds as int);
        lemma_mul_inequality(step as int, fade_seconds as int, volume as int);
        lemma_mul_is_commutative(volume as int, step as int);
        lemma_mul_is_commutative(volume as int, fade_seconds as int);
        lemma_div_is_ordered(
            volume as int * step as int,
            volume as int * fade_seconds as int,
            fade_seconds as int,
        );
        lemma_div_multiples_vanish(volume as int, fade_seconds as int);
    }
    volume * step / fade_seconds
}

/// One device-facing instruction of the sequencer.
#[derive(Clone, Copy, PartialEq, Eq, Structural, Debug)]
pub enum PlaybackAction {
    /// Set the device volume to this percent of full scale.
    SetVolume { percent: i64 },
    /// Open and start playing the entry at this index of the run.
    StartEntry { index: usize },
    /// Set the volume to this ramp value, then hold it for one second.
    HoldRampStep { percent: i64 },
    /// Block for the entry's recorded duration, in seconds.
    WaitTrack { seconds: i64 },
    /// Add one play to this audio file and stamp it last played.
    RecordPlay { audio_id: i64 },
    /// The run is over; nothing is left to do.
    Idle,
}

/// What the shell reports back after performing an action.
#[derive(Clone, Copy, PartialEq, Eq, Structural, Debug)]
pub enum PlaybackEvent {
    /// The action completed.
    Done,
    /// The device call failed; the whole run aborts.
    DeviceError,
    /// A newer playback session owns the device; this run steps aside.
    Superseded,
}

/// Where a run stands.
#[derive(Clone, Copy, PartialEq, Eq, Structural, Debug)]
pub enum RunPhase {
    /// About to set the starting volume for this entry.
    Starting { index: usize },
    /// About to open and start the entry on the device.
    Launching { index: usize },
    /// Ramping the volume up; `step` counts from 1 to the fade length.
    Fading { index: usize, step: i64 },
    /// Waiting out the entry's recorded duration.
    Waiting { index: usize },
    /// Committing the entry's play count before moving on.
    Bookkeeping { index: usize },
    /// Every entry played; the device keeps its last state.
    Finished,
    /// A device call failed; the run aborted.
    Failed,
    /// A newer session took the device; the run ended silently.
    Superseded,
}

/// Whether a phase is terminal: once there, the run issues no more device
/// instructions.
pub open spec fn spec_terminal(phase: RunPhase) -> bool {
    phase is Finished || phase is Failed || phase is Superseded
}

/// One playback run: a resolved playlist, its volume and fade settings, the
/// generation tag that identifies it on the device, and where it stands.
pub struct OrchestrationRun {
    pub entries: Vec<PlaylistEntry>,
    /// Target volume in percent, 0 to 100.
    pub volume: i64,
    /// Fade-in ramp length in seconds; 0 means no fade.
    pub fade_seconds: i64,
    /// Tag of this run on the device, for preemption detection.
    pub generation: u64,
    pub phase: RunPhase,
}

impl OrchestrationRun {
    pub open spec fn wf(&self) -> bool {
        &&& 0 <= self.volume <= 100
        &&& 0 <= self.fade_seconds
        &&& self.fade_seconds * 100 <= i64::MAX
        &&& self.entries@.len() > 0
        &&& (forall|i: int|
            0 <= i < self.entries@.len() ==> 0 <= (#[trigger] self.entries@[i]).duration_seconds)
        &&& match self.phase {
            RunPhase::Starting { index } => index < self.entries@.len(),
            RunPhase::Launching { index } => index < self.entries@.len(),
            RunPhase::Fading { index, step } => index < self.entries@.len() && 1 <= step
                <= self.fade_seconds,
            RunPhase::Waiting { index } => index < self.entries@.len(),
            RunPhase::Bookkeeping { index } => index < self.entries@.len(),
            _ => true,
        }
    }

    /// Opens a run over a resolved playlist. An empty playlist is refused:
    /// that is the one way starting a run can fail.
    pub fn new(
        entries: Vec<PlaylistEntry>,
        volume: i64,
        fade_seconds: i64,
        generation: u64,
    ) -> (r: Result<OrchestrationRun, CoreError>)
        requires
            0 <= volume <= 100,
            0 <= fade_seconds,
            fade_seconds * 100 <= i64::MAX,
            forall|i: int|
                0 <= i < entries@.len() ==> 0 <= (#[trigger] entries@[i]).duration_seconds,
        ensures
            r is Err <==> entries@.len() == 0,
            r matches Err(e) ==> e == CoreError::EmptyPlaylist,
            r matches Ok(run) ==> {
                &&& run.wf()
                &&& run.entries == entries
                &&& run.volume == volume
                &&& run.fade_seconds == fade_seconds
                &&& run.generation == generation
                &&& run.phase == (RunPhase::Starting { index: 0 })
            },
    {
        if entries.len() == 0 {
            Err(CoreError::EmptyPlaylist)
        } else {
            Ok(
                OrchestrationRun {
                    entries,
                    volume,
                    fade_seconds,
                    generation,
                    phase: RunPhase::Starting { index: 0 },
                },
            )
        }
    }

    /// The instruction the run wants performed next.
    pub open spec fn spec_next_action(&self) -> PlaybackAction {
        match self.phase {
            RunPhase::Starting { index } => PlaybackAction::SetVolume {
                percent: if self.fade_seconds > 0 {
                    0
                } else {
                    self.volume
                },
            },
            RunPhase::Launching { index } => PlaybackAction::StartEntry { index },
            RunPhase::Fading { index, step } => PlaybackAction::HoldRampStep {
                percent: spec_fade_volume(
                    self.volume as int,
                    self.fade_seconds as int,
                    step as int,
                ) as i64,
            },
            RunPhase::Waiting { index } => PlaybackAction::WaitTrack {
                seconds: self.entries@[index as int].duration_seconds,
            },
            RunPhase::Bookkeeping { index } => PlaybackAction::RecordPlay {
                audio_id: self.entries@[index as int].audio_id,
            },
            _ => PlaybackAction::Idle,
        }
    }

    /// Asks for the next instruction. With a fade configured, an entry
    /// starts silent and ramps up; without one it starts at the target
    /// volume directly.
    pub fn next_action(&self) -> (r: PlaybackAction)
        requires
            self.wf(),
        ensures
            r == self.spec_next_action(),
    {
        match self.phase {
            RunPhase::Starting { index: _ } => PlaybackAction::SetVolume {
                percent: if self.fade_seconds > 0 {
                    0
                } else {
                    self.volume
                },
            },
            RunPhase::Launching { index } => PlaybackAction::StartEntry { index },
            RunPhase::Fading { index: _, step } => PlaybackAction::HoldRampStep {
                percent: fade_volume(self.volume, self.fade_seconds, step),
            },
            RunPhase::Waiting { index } => PlaybackAction::WaitTrack {
                seconds: self.entries[index].duration_seconds,
            },
            RunPhase::Bookkeeping { index } => PlaybackAction::RecordPlay {
                audio_id: self.entries[index].audio_id,
            },
            _ => PlaybackAction::Idle,
        }
    }

    /// Where the run moves on an event. A device error fails the run from
    /// any active phase and a preemption ends it silently; on success the
    /// run walks each entry through start, optional ramp, wait and
    /// bookkeeping, then the next entry, then finishes. Terminal phases
    /// absorb every event.
    pub open spec fn spec_advance(&self, ev: PlaybackEvent) -> RunPhase {
        if spec_terminal(self.phase) {
            self.phase
        } else {
            match ev {
                PlaybackEvent::DeviceError => RunPhase::Failed,
                PlaybackEvent::Superseded => RunPhase::Superseded,
                PlaybackEvent::Done => match self.phase {
                    RunPhase::Starting { index } => RunPhase::Launching { index },
                    RunPhase::Launching { index } => if self.fade_seconds > 0 {
                        RunPhase::Fading { index, step: 1 }
                    } else {
                        RunPhase::Waiting { index }
                    },
                    RunPhase::Fading { index, step } => if step < self.fade_seconds {
                        RunPhase::Fading { index, step: (step + 1) as i64 }
                    } else {
                        RunPhase::Waiting { index }
                    },
                    RunPhase::Waiting { index } => RunPhase::Bookkeeping { index },
                    RunPhase::Bookkeeping { index } => if index + 1 < self.entries@.len() {
                        RunPhase::Starting { index: (index + 1) as usize }
                    } else {
                        RunPhase::Finished
                    },
                    _ => self.phase,
                },
            }
        }
    }

    /// Advances the run after the shell performed the current instruction
    /// and observed `ev`. Only the phase moves; the playlist and settings
    /// of the run never change.
    pub fn advance(&mut self, ev: PlaybackEvent)
        requires
            old(self).wf(),
        ensures
            final(self).wf(),
            final(self).phase == old(self).spec_advance(ev),
            final(self).entries == old(self).entries,
            final(self).volume == old(self).volume,
            final(self).fade_seconds == old(self).fade_seconds,
            final(self).generation == old(self).generation,
    {
        let next = match self.phase {
            RunPhase::Finished => self.phase,
            RunPhase::Failed => self.phase,
            RunPhase::Superseded => self.phase,
            _ => {
                match ev {
                    PlaybackEvent::DeviceError => RunPhase::Failed,
                    PlaybackEvent::Superseded => RunPhase::Superseded,
                    PlaybackEvent::Done => {
                        match self.phase {
                            RunPhase::Starting { index } => RunPhase::Launching { index },
                            RunPhase::Launching { index } => {
                                if self.fade_seconds > 0 {
                                    RunPhase::Fading { index, step: 1 }
                                } else {
                                    RunPhase::Waiting { index }
                                }
                            },
                            RunPhase::Fading { index, step } => {
                                if step < self.fade_seconds {
                                    RunPhase::Fading { index, step: step + 1 }
                                } else {
                                    RunPhase::Waiting { index }
                                }
                            },
                            RunPhase::Waiting { index } => RunPhase::Bookkeeping { index },
                            RunPhase::Bookkeeping { index } => {
                                let len = self.entries.len();
                                if index < len - 1 {
                                    RunPhase::Starting { index: index + 1 }
                                } else {
                                    RunPhase::Finished
                                }
                            },
                            _ => self.phase,
                        }
                    },
                }
            },
        };
        self.phase = next;
    }

    /// The generation check of the preemption guard: whether this run still
    /// owns the device session.
    pub fn still_current(&self, device_generation: u64) -> (r: bool)
        ensures
            r == (self.generation == device_generation),
    {
        self.generation == device_generation
    }
}

} // verus!
