//! The editor bridge: republishes a text payload received from the web view
//! on the host event bus, under the fixed editor topic.

use vstd::prelude::*;

use crate::event::{editor_topic, editor_topic_str, publish_all, Event, EventModel};

verus! {

/// The events the editor bridge publishes for one payload `m`: exactly one,
/// on the editor topic, with the payload unchanged.
pub open spec fn bridge_events_spec(m: Seq<char>) -> Seq<EventModel> {
    seq![EventModel { topic: editor_topic(), payload: m }]
}

/// The editor bridge. For one text payload from the web view — any text,
/// the empty string included — the events to publish on the host event bus:
/// exactly one, on the fixed editor topic, with the payload passed through
/// unchanged. The shell publishes each returned event and returns the
/// outcome of the publish to the web view.
pub fn bridge_events(message: String) -> (evs: Vec<Event>)
    ensures
        evs@.map_values(|e: Event| e@) == bridge_events_spec(message@),
        evs@.len() == 1,
        evs@[0]@.topic == editor_topic(),
        evs@[0]@.payload == message@,
{
    let topic = editor_topic_str().to_owned();
    let mut evs: Vec<Event> = Vec::new();
    evs.push(Event { topic, payload: message });
    proof {
        assert(evs@.map_values(|e: Event| e@) =~= bridge_events_spec(message@));
    }
    evs
}

/// Calling the bridge twice with the same payload publishes two independent
/// events: whatever the bus already held, it grows by two events, each on
/// the editor topic with that payload — no deduplication.
pub proof fn lemma_bridge_no_dedup(bus: Seq<EventModel>, m: Seq<char>)
    ensures
        ({
            let after = publish_all(publish_all(bus, bridge_events_spec(m)), bridge_events_spec(m));
            &&& after.len() == bus.len() + 2
            &&& after[bus.len() as int] == (EventModel { topic: editor_topic(), payload: m })
            &&& after[bus.len() as int + 1] == (EventModel { topic: editor_topic(), payload: m })
        }),
{
}

} // verus!
