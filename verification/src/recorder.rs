//! State holder of the audio-capture feature: whether a capture is running
//! and where its output lands. The capture stream itself is the shell's
//! business; the core only tracks and hands out this state.

use vstd::prelude::*;

verus! {

/// The capture state.
pub struct AudioRecorder {
    pub is_recording: bool,
    pub output_path: Option<String>,
}

impl AudioRecorder {
    /// A fresh recorder: idle, with no output path.
    pub fn new() -> (r: AudioRecorder)
        ensures
            !r.is_recording,
            r.output_path is None,
    {
        AudioRecorder { is_recording: false, output_path: None }
    }

    /// Whether a capture is running.
    pub fn is_recording(&self) -> (r: bool)
        ensures
            r == self.is_recording,
    {
        self.is_recording
    }

    /// Marks a capture as running or stopped.
    pub fn set_recording(&mut self, recording: bool)
        ensures
            final(self).is_recording == recording,
            final(self).output_path == old(self).output_path,
    {
        self.is_recording = recording;
    }

    /// The file the capture writes to, if one is set.
    pub fn get_output_path(&self) -> (r: Option<String>)
        ensures
            r == self.output_path,
    {
        match &self.output_path {
            Some(p) => Some(p.clone()),
            None => None,
        }
    }

    /// Sets or clears the capture's output file.
    pub fn set_output_path(&mut self, path: Option<String>)
        ensures
            final(self).output_path == path,
            final(self).is_recording == old(self).is_recording,
    {
        self.output_path = path;
    }
}

} // verus!
