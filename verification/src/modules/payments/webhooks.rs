//! Idempotent recording of inbound gateway events.
use vstd::prelude::*;

verus! {

/// Outcome of recording a gateway event.
#[derive(Debug, Clone, Copy, PartialEq, Eq, Structural)]
pub enum RecordedEvent {
    /// First delivery (carries the new event row's ID): process it.
    New(u128),
    /// Redelivery of an event already recorded: acknowledge, do nothing.
    Duplicate,
}

impl RecordedEvent {
    /// Interprets the ID returned by the `ON CONFLICT DO NOTHING ... RETURNING id`
    /// insert: a row was inserted exactly when the event is new.
    pub fn from_inserted(inserted: Option<u128>) -> (r: RecordedEvent)
        ensures
            r == (match inserted {
                Some(id) => RecordedEvent::New(id),
                None => RecordedEvent::Duplicate,
            }),
    {
        match inserted {
            Some(id) => RecordedEvent::New(id),
            None => RecordedEvent::Duplicate,
        }
    }
}

} // verus!
