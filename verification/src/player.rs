//! The player session: queue position, volume and the generation counter.
//!
//! The system owns exactly one playback device. This type models the
//! session state on it — which playlist queue is loaded, where in it the
//! session stands, what volume is set — while the audio sink itself lives
//! in the shell. "Who is currently playing" is an explicit generation
//! counter: loading a new queue or stopping bumps it, so a superseded
//! orchestration run can see that it lost the device.

use vstd::prelude::*;

verus! {

/// The modelled state of the single playback session.
pub struct AudioPlayer {
    /// Audio ids queued for playback, in order.
    pub playlist_queue: Vec<i64>,
    /// Position in the queue.
    pub current_index: usize,
    /// Whether the queue was loaded by a scheduled (automatic) run.
    pub is_auto_play: bool,
    /// The audio now loaded on the device, if any.
    pub current_audio_id: Option<i64>,
    pub current_audio_name: Option<String>,
    /// Device volume in percent, 0 to 100.
    pub volume_percent: i64,
    /// Bumped whenever a new session takes the device.
    pub generation: u64,
    /// Whether the device is playing rather than paused or stopped.
    pub playing: bool,
}

impl AudioPlayer {
    pub open spec fn wf(&self) -> bool {
        &&& 0 <= self.volume_percent <= 100
        &&& (self.playlist_queue@.len() > 0 ==> self.current_index < self.playlist_queue@.len())
    }

    /// A fresh player: no queue, half volume, nothing playing.
    pub fn new() -> (r: AudioPlayer)
        ensures
            r.wf(),
            r.playlist_queue@.len() == 0,
            r.current_index == 0,
            !r.is_auto_play,
            r.current_audio_id is None,
            r.current_audio_name is None,
            r.volume_percent == 50,
            r.generation == 0,
            !r.playing,
    {
        AudioPlayer {
            playlist_queue: Vec::new(),
            current_index: 0,
            is_auto_play: false,
            current_audio_id: None,
            current_audio_name: None,
            volume_percent: 50,
            generation: 0,
            playing: false,
        }
    }

    /// Replaces the session's queue, rewinding to its start. This is the
    /// preemption point: the generation moves, so any older run no longer
    /// matches the device.
    pub fn set_playlist_queue(&mut self, queue: Vec<i64>, is_auto_play: bool)
        requires
            old(self).wf(),
            old(self).generation < u64::MAX,
        ensures
            final(self).wf(),
            final(self).playlist_queue == queue,
            final(self).current_index == 0,
            final(self).is_auto_play == is_auto_play,
            final(self).generation == old(self).generation + 1,
            final(self).current_audio_id == old(self).current_audio_id,
            final(self).current_audio_name == old(self).current_audio_name,
            final(self).volume_percent == old(self).volume_percent,
            final(self).playing == old(self).playing,
    {
        self.playlist_queue = queue;
        self.current_index = 0;
        self.is_auto_play = is_auto_play;
        self.generation = self.generation + 1;
    }

    /// Notes which audio the device has just started playing.
    pub fn note_playing(&mut self, audio_id: i64, audio_name: String)
        requires
            old(self).wf(),
        ensures
            final(self).wf(),
            final(self).current_audio_id == Some(audio_id),
            final(self).current_audio_name == Some(audio_name),
            final(self).playing,
            final(self).playlist_queue == old(self).playlist_queue,
            final(self).current_index == old(self).current_index,
            final(self).is_auto_play == old(self).is_auto_play,
            final(self).volume_percent == old(self).volume_percent,
            final(self).generation == old(self).generation,
    {
        self.current_audio_id = Some(audio_id);
        self.current_audio_name = Some(audio_name);
        self.playing = true;
    }

    /// Steps forward in the queue: the next audio id when one is left,
    /// `None` at the end or with no queue, the position moving only on
    /// success.
    pub fn play_next(&mut self) -> (r: Option<i64>)
        requires
            old(self).wf(),
        ensures
            final(self).wf(),
            final(self).playlist_queue == old(self).playlist_queue,
            final(self).volume_percent == old(self).volume_percent,
            final(self).generation == old(self).generation,
            final(self).is_auto_play == old(self).is_auto_play,
            if old(self).playlist_queue@.len() > 0 && old(self).current_index + 1 < old(
                self,
            ).playlist_queue@.len() {
                &&& final(self).current_index == old(self).current_index + 1
                &&& r == Some(old(self).playlist_queue@[old(self).current_index + 1])
            } else {
                &&& final(self).current_index == old(self).current_index
                &&& r is None
            },
    {
        if self.playlist_queue.len() == 0 {
            return None;
        }
        if self.current_index + 1 < self.playlist_queue.len() {
            self.current_index = self.current_index + 1;
            Some(self.playlist_queue[self.current_index])
        } else {
            None
        }
    }

    /// Steps back in the queue: the previous audio id when not at the
    /// start, `None` otherwise, the position moving only on success.
    pub fn play_previous(&mut self) -> (r: Option<i64>)
        requires
            old(self).wf(),
        ensures
            final(self).wf(),
            final(self).playlist_queue == old(self).playlist_queue,
            final(self).volume_percent == old(self).volume_percent,
            final(self).generation == old(self).generation,
            final(self).is_auto_play == old(self).is_auto_play,
            if old(self).playlist_queue@.len() > 0 && old(self).current_index > 0 {
                &&& final(self).current_index == old(self).current_index - 1
                &&& r == Some(old(self).playlist_queue@[old(self).current_index - 1])
            } else {
                &&& final(self).current_index == old(self).current_index
                &&& r is None
            },
    {
        if self.playlist_queue.len() == 0 {
            return None;
        }
        if self.current_index > 0 {
            self.current_index = self.current_index - 1;
            Some(self.playlist_queue[self.current_index])
        } else {
            None
        }
    }

    /// Pauses the device; the session otherwise stands.
    pub fn pause(&mut self)
        requires
            old(self).wf(),
        ensures
            final(self).wf(),
            !final(self).playing,
            final(self).playlist_queue == old(self).playlist_queue,
            final(self).current_index == old(self).current_index,
            final(self).is_auto_play == old(self).is_auto_play,
            final(self).current_audio_id == old(self).current_audio_id,
            final(self).current_audio_name == old(self).current_audio_name,
            final(self).volume_percent == old(self).volume_percent,
            final(self).generation == old(self).generation,
    {
        self.playing = false;
    }

    /// Resumes a paused device; the session otherwise stands.
    pub fn resume(&mut self)
        requires
            old(self).wf(),
        ensures
            final(self).wf(),
            final(self).playing,
            final(self).playlist_queue == old(self).playlist_queue,
            final(self).current_index == old(self).current_index,
            final(self).is_auto_play == old(self).is_auto_play,
            final(self).current_audio_id == old(self).current_audio_id,
            final(self).current_audio_name == old(self).current_audio_name,
            final(self).volume_percent == old(self).volume_percent,
            final(self).generation == old(self).generation,
    {
        self.playing = true;
    }

    /// Ends the session: clears the queue and the loaded audio, and bumps
    /// the generation so any in-flight run sees the device was taken away.
    pub fn stop(&mut self)
        requires
            old(self).wf(),
            old(self).generation < u64::MAX,
        ensures
            final(self).wf(),
            final(self).playlist_queue@.len() == 0,
            final(self).current_index == 0,
            !final(self).is_auto_play,
            final(self).current_audio_id is None,
            final(self).current_audio_name is None,
            !final(self).playing,
            final(self).volume_percent == old(self).volume_percent,
            final(self).generation == old(self).generation + 1,
    {
        self.playlist_queue = Vec::new();
        self.current_index = 0;
        self.is_auto_play = false;
        self.current_audio_id = None;
        self.current_audio_name = None;
        self.playing = false;
        self.generation = self.generation + 1;
    }

    /// Sets the device volume, clamped into 0 to 100 percent.
    pub fn set_volume(&mut self, volume: i64)
        requires
            old(self).wf(),
        ensures
            final(self).wf(),
            final(self).volume_percent == if volume < 0 {
                0
            } else if volume > 100 {
                100
            } else {
                volume
            },
            final(self).playlist_queue == old(self).playlist_queue,
            final(self).current_index == old(self).current_index,
            final(self).is_auto_play == old(self).is_auto_play,
            final(self).current_audio_id == old(self).current_audio_id,
            final(self).current_audio_name == old(self).current_audio_name,
            final(self).playing == old(self).playing,
            final(self).generation == old(self).generation,
    {
        self.volume_percent = if volume < 0 {
            0
        } else if volume > 100 {
            100
        } else {
            volume
        };
    }

    /// Whether the device is playing.
    pub fn is_playing(&self) -> (r: bool)
        ensures
            r == self.playing,
    {
        self.playing
    }
}

} // verus!
