//! Scheduling and playback-orchestration core of an ambient audio alarm.
//!
//! Users define playlists of audio clips and scheduled tasks that trigger
//! playback at a given time of day on a repeat cadence, with a volume and an
//! optional fade-in. This crate holds the logic with verified contracts: the
//! repeat-mode evaluator, the task-conflict detector, the poll-tick firing
//! decision with its idempotency guarantees, the playback sequencer, and the
//! in-memory models of the player session and execution history. Persistence
//! and the audio device are external collaborators driven by a thin shell
//! around this crate.

pub mod conflict;
pub mod days;
pub mod evaluator;
pub mod history;
pub mod model;
pub mod orchestrator;
pub mod player;
pub mod recorder;
pub mod scheduler;
pub mod time;
