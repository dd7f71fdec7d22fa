//! Coordination of SCTE-35 ad-insertion signaling for a live transport stream:
//! event id allocation, splice section construction and the ad-window scheduler.
pub mod scheduler;
pub mod section;
pub mod sequencer;
