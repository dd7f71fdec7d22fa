//! Splice events: the content of a SCTE-35 splice information section.
use vstd::prelude::*;

verus! {

/// A splice command ready to be framed as a splice information section
/// (command type splice_insert) and injected on the signaling PID.
///
/// Times are running times in nanoseconds.
#[derive(Clone, Copy, Debug, PartialEq, Eq, Structural)]
pub enum SpliceEvent {
    /// Leave the network feed at `time` (out_of_network_indicator set); the
    /// break lasts `duration` when one is given.
    SpliceOut { id: u32, time: u64, duration: Option<u64> },
    /// Return to the network feed at `time` (out_of_network_indicator clear).
    SpliceIn { id: u32, time: u64 },
}

/// Why a splice section could not be built.
#[derive(Clone, Copy, Debug, PartialEq, Eq, Structural)]
pub enum SectionError {
    /// The requested break duration is negative.
    InvalidDuration,
}

impl SpliceEvent {
    pub open spec fn spec_id(self) -> u32 {
        match self {
            SpliceEvent::SpliceOut { id, .. } => id,
            SpliceEvent::SpliceIn { id, .. } => id,
        }
    }

    pub open spec fn spec_time(self) -> u64 {
        match self {
            SpliceEvent::SpliceOut { time, .. } => time,
            SpliceEvent::SpliceIn { time, .. } => time,
        }
    }

    /// The event identifier carried by the section.
    pub fn id(&self) -> (r: u32)
        ensures
            r == self.spec_id(),
    {
        match self {
            SpliceEvent::SpliceOut { id, .. } => *id,
            SpliceEvent::SpliceIn { id, .. } => *id,
        }
    }

    /// The running time at which the splice takes effect.
    pub fn time(&self) -> (r: u64)
        ensures
            r == self.spec_time(),
    {
        match self {
            SpliceEvent::SpliceOut { time, .. } => *time,
            SpliceEvent::SpliceIn { time, .. } => *time,
        }
    }

    /// Whether the section leaves the network feed.
    pub fn is_out_of_network(&self) -> (r: bool)
        ensures
            r == (*self is SpliceOut),
    {
        match self {
            SpliceEvent::SpliceOut { .. } => true,
            SpliceEvent::SpliceIn { .. } => false,
        }
    }
}

/// The splice-out section for `id` at `time`, with `duration` as its break
/// duration (nanoseconds) when one is given.
///
/// Fails with `InvalidDuration`, and builds nothing, when `duration` is negative.
pub fn build_splice_out(id: u32, time: u64, duration: Option<i64>) -> (r: Result<
    SpliceEvent,
    SectionError,
>)
    ensures
        match duration {
            Some(d) if d < 0 => r == Err::<SpliceEvent, SectionError>(SectionError::InvalidDuration),
            Some(d) => r == Ok::<SpliceEvent, SectionError>(
                SpliceEvent::SpliceOut { id, time, duration: Some(d as u64) },
            ),
            None => r == Ok::<SpliceEvent, SectionError>(
                SpliceEvent::SpliceOut { id, time, duration: None },
            ),
        },
{
    match duration {
        Some(d) => {
            if d < 0 {
                Err(SectionError::InvalidDuration)
            } else {
                Ok(SpliceEvent::SpliceOut { id, time, duration: Some(d as u64) })
            }
        },
        None => Ok(SpliceEvent::SpliceOut { id, time, duration: None }),
    }
}

/// The splice-in section for `id` at `time`.
pub fn build_splice_in(id: u32, time: u64) -> (r: SpliceEvent)
    ensures
        r == (SpliceEvent::SpliceIn { id, time }),
{
    SpliceEvent::SpliceIn { id, time }
}

} // verus!
