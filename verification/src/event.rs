//! Events published on the host event bus, and the fixed topics this
//! library publishes under.

use vstd::prelude::*;

verus! {

/// What one published event is, in specifications: a topic and a text
/// payload, each a sequence of characters.
#[verifier::ext_equal]
pub struct EventModel {
    pub topic: Seq<char>,
    pub payload: Seq<char>,
}

/// One event to publish on the host event bus: a topic and a text payload.
///
/// The library never publishes anything itself; it returns `Event` values,
/// and the unverified shell hands each one to the host runtime.
pub struct Event {
    pub topic: String,
    pub payload: String,
}

impl View for Event {
    type V = EventModel;

    open spec fn view(&self) -> EventModel {
        EventModel { topic: self.topic@, payload: self.payload@ }
    }
}

/// The host event bus, as specifications see it: the sequence of events
/// published so far. Publishing a batch appends it in order; the bus never
/// drops, reorders or deduplicates what a handler hands it.
pub open spec fn publish_all(bus: Seq<EventModel>, evs: Seq<EventModel>) -> Seq<EventModel> {
    bus + evs
}

/// The fixed topic under which editor messages are republished.
pub open spec fn editor_topic() -> Seq<char> {
    "editor-message"@
}

/// The fixed topic under which received deep-link URLs are republished.
pub open spec fn deep_link_topic() -> Seq<char> {
    "deep-link://new-url"@
}

/// The topic under which editor messages are republished, as a string the
/// shell can hand to the host runtime.
pub fn editor_topic_str() -> (s: &'static str)
    ensures
        s@ == editor_topic(),
{
    "editor-message"
}

/// The topic under which deep-link URLs are republished, as a string the
/// shell can hand to the host runtime.
pub fn deep_link_topic_str() -> (s: &'static str)
    ensures
        s@ == deep_link_topic(),
{
    "deep-link://new-url"
}

} // verus!
