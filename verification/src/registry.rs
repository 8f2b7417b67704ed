//! The registry of live-update subscribers: which channels are open, and
//! what is pushed to them when the catalog changes.
//!
//! The registry owns no transport. A broadcast yields one push per open
//! channel; the caller attempts each once and ignores failures.

use vstd::prelude::*;
use std::collections::HashSet;
use vstd::std_specs::iter::IteratorSpec;

verus! {

broadcast use vstd::std_specs::hash::group_hash_axioms;

/// The text of the JSON string that holds `text`, quotes and escapes
/// included, as `serde_json` renders a string value.
pub uninterp spec fn json_string(text: Seq<char>) -> Seq<char>;

/// `serde_json`'s `Display` for `Value::String`: the compact JSON text of the
/// string value that holds `text`.
#[verifier::external_body]
fn json_string_text(text: &str) -> (json: String)
    ensures
        json@ == json_string(text@),
{
    serde_json::Value::String(text.to_string()).to_string()
}

/// The text pushed to subscribers for the message `message`: a JSON object
/// whose `type` is `update` and whose `data` is the message.
pub open spec fn update_payload(message: Seq<char>) -> Seq<char> {
    "{\"type\":\"update\",\"data\":"@ + json_string(message) + "}"@
}

/// One notification for one subscriber.
#[derive(Debug)]
pub struct Push {
    pub channel_id: u32,
    pub payload: String,
}

/// The channels that a run of pushes is addressed to, in order.
pub open spec fn targets(pushes: Seq<Push>) -> Seq<u32> {
    Seq::new(pushes.len(), |i: int| pushes[i].channel_id)
}

/// The open subscriber channels.
#[derive(Debug)]
pub struct LiveUpdates {
    channels: HashSet<u32>,
}

impl View for LiveUpdates {
    type V = Set<u32>;

    closed spec fn view(&self) -> Set<u32> {
        self.channels@
    }
}

impl LiveUpdates {
    /// A registry with no subscriber.
    pub fn new() -> (registry: LiveUpdates)
        ensures
            registry@ == Set::<u32>::empty(),
    {
        LiveUpdates { channels: HashSet::new() }
    }

    /// Whether `channel_id` is open.
    pub fn is_open(&self, channel_id: u32) -> (open: bool)
        ensures
            open == self@.contains(channel_id),
    {
        self.channels.contains(&channel_id)
    }

    /// Registers `channel_id`; opening an open channel changes nothing.
    pub fn open(&mut self, channel_id: u32)
        ensures
            final(self)@ == old(self)@.insert(channel_id),
    {
        self.channels.insert(channel_id);
    }

    /// Forgets `channel_id`; closing a channel that is not open changes
    /// nothing.
    pub fn close(&mut self, channel_id: u32)
        ensures
            final(self)@ == old(self)@.remove(channel_id),
    {
        self.channels.remove(&channel_id);
    }

    /// The pushes that carry `message` to the subscribers: one for each open
    /// channel and none for any other, all with the same payload. Their
    /// order is not fixed.
    pub fn broadcast(&self, message: &str) -> (pushes: Vec<Push>)
        ensures
            targets(pushes@).no_duplicates(),
            targets(pushes@).to_set() == self@,
            forall|i: int| 0 <= i < pushes@.len() ==> (#[trigger] pushes@[i]).payload@ == update_payload(message@),
    {
        let payload = String::from_str("{\"type\":\"update\",\"data\":").concat(
            json_string_text(message).as_str(),
        ).concat("}");
        let mut pushes: Vec<Push> = Vec::new();
        let ghost walked: Seq<&u32> = self.channels.iter().remaining();
        for channel in iter: self.channels.iter()
            invariant
                walked == iter.seq(),
                payload@ == update_payload(message@),
                pushes@.len() == iter.index(),
                forall|i: int| 0 <= i < pushes@.len() ==> (#[trigger] pushes@[i]).channel_id == *iter.seq()[i],
                forall|i: int| 0 <= i < pushes@.len() ==> (#[trigger] pushes@[i]).payload@ == update_payload(message@),
        {
            pushes.push(Push { channel_id: *channel, payload: payload.clone() });
        }
        assert(targets(pushes@) =~= walked.unref());
        pushes
    }
}

} // verus!
