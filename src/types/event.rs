use crate::types::{named_view, EventId, FieldValue, FieldValueModel, LogLevel, Timestamp};
use vstd::prelude::*;

verus! {

/// A decoded event record.
#[derive(Clone, PartialEq, Debug)]
pub struct Event {
    pub id: EventId,
    pub name: String,
    pub timestamp: Timestamp,
    pub log_level: Option<LogLevel>,
    pub common_context: Vec<(String, FieldValue)>,
    pub specific_context: Vec<(String, FieldValue)>,
    pub payload: Vec<(String, FieldValue)>,
}

/// What an `Event` stands for.
pub struct EventModel {
    pub id: EventId,
    pub name: Seq<char>,
    pub timestamp: Timestamp,
    pub log_level: Option<LogLevel>,
    pub common_context: Seq<(Seq<char>, FieldValueModel)>,
    pub specific_context: Seq<(Seq<char>, FieldValueModel)>,
    pub payload: Seq<(Seq<char>, FieldValueModel)>,
}

impl View for Event {
    type V = EventModel;

    open spec fn view(&self) -> EventModel {
        EventModel {
            id: self.id,
            name: self.name@,
            timestamp: self.timestamp,
            log_level: self.log_level,
            common_context: named_view(self.common_context@),
            specific_context: named_view(self.specific_context@),
            payload: named_view(self.payload@),
        }
    }
}

/// The views of a list of events.
pub open spec fn events_view(s: Seq<Event>) -> Seq<EventModel> {
    s.map_values(|e: Event| e@)
}

} // verus!
