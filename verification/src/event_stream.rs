//! The event envelope: the batch record that the streaming endpoint sends,
//! one complete JSON document per batch. An envelope carries a sequence
//! counter, zero or more events, and an optional terminal error message.
//! Each event names a topic and carries a payload whose variant the payload
//! document announces itself, under one of five record tags.
//!
//! A parsed document (a `serde_json::Value`, as the
//! [`crate::chunked_response::Assembler`] produces them) is turned into an
//! envelope here. Optional collections that arrive as null or are absent
//! become empty sequences rather than errors; a field of the wrong shape, an
//! unknown topic name or an unknown payload tag is a decode error. An error
//! names what was wrong, so that one bad batch can be reported and the
//! stream read on.
//!
//! The whole batch is decoded or none of it: the first event that cannot be
//! decoded fails the envelope. A caller that wants to salvage the rest of a
//! batch can walk the document's event array itself and decode each element
//! with [`Event::from_json`].

use vstd::prelude::*;

use crate::json::{
    json_elements, json_integer, json_is_null, json_is_object, json_member, json_string,
    value_as_array, value_as_str, value_as_u64, value_get, value_is_null, value_is_object,
};
use crate::text::str_eq;

verus! {

/// The category of entity an event concerns; `All` is the subscription
/// wildcard.
#[derive(Debug, Clone, Copy, PartialEq, Eq)]
pub enum Topic {
    Deployment,
    Evaluation,
    Allocation,
    Job,
    Node,
    All,
}

/// The topic that a topic name on the wire denotes.
pub open spec fn spec_topic_of_name(s: Seq<char>) -> Option<Topic> {
    if s == "Deployment"@ {
        Some(Topic::Deployment)
    } else if s == "Evaluation"@ {
        Some(Topic::Evaluation)
    } else if s == "Allocation"@ {
        Some(Topic::Allocation)
    } else if s == "Job"@ {
        Some(Topic::Job)
    } else if s == "Node"@ {
        Some(Topic::Node)
    } else if s == "All"@ {
        Some(Topic::All)
    } else {
        None
    }
}

/// The name a topic carries on the wire.
pub open spec fn spec_topic_name(t: Topic) -> Seq<char> {
    match t {
        Topic::Deployment => "Deployment"@,
        Topic::Evaluation => "Evaluation"@,
        Topic::Allocation => "Allocation"@,
        Topic::Job => "Job"@,
        Topic::Node => "Node"@,
        Topic::All => "All"@,
    }
}

impl Topic {
    /// The topic that a topic name on the wire denotes; `None` for an
    /// unknown name.
    pub fn from_name(s: &str) -> (r: Option<Topic>)
        ensures
            r == spec_topic_of_name(s@),
    {
        if str_eq(s, "Deployment") {
            Some(Topic::Deployment)
        } else if str_eq(s, "Evaluation") {
            Some(Topic::Evaluation)
        } else if str_eq(s, "Allocation") {
            Some(Topic::Allocation)
        } else if str_eq(s, "Job") {
            Some(Topic::Job)
        } else if str_eq(s, "Node") {
            Some(Topic::Node)
        } else if str_eq(s, "All") {
            Some(Topic::All)
        } else {
            None
        }
    }

    /// The name this topic carries on the wire.
    pub fn name(&self) -> (r: String)
        ensures
            r@ == spec_topic_name(*self),
    {
        match self {
            Topic::Deployment => "Deployment".to_owned(),
            Topic::Evaluation => "Evaluation".to_owned(),
            Topic::Allocation => "Allocation".to_owned(),
            Topic::Job => "Job".to_owned(),
            Topic::Node => "Node".to_owned(),
            Topic::All => "All".to_owned(),
        }
    }
}

/// Every topic's wire name is read back as that topic.
pub proof fn lemma_topic_name_round_trip(t: Topic)
    ensures
        spec_topic_of_name(spec_topic_name(t)) == Some(t),
{
    reveal_strlit("Deployment");
    reveal_strlit("Evaluation");
    reveal_strlit("Allocation");
    reveal_strlit("Job");
    reveal_strlit("Node");
    reveal_strlit("All");
    assert("Deployment"@.len() == 10);
    assert("Evaluation"@.len() == 10);
    assert("Allocation"@.len() == 10);
    assert("Job"@.len() == 3);
    assert("Node"@.len() == 4);
    assert("All"@.len() == 3);
    assert("Evaluation"@[0] != "Deployment"@[0]);
    assert("Allocation"@[0] != "Deployment"@[0]);
    assert("Allocation"@[0] != "Evaluation"@[0]);
    assert("All"@[0] != "Job"@[0]);
}

/// An event's payload: one of the five record kinds, each carrying the
/// record as its parsed document. The record schemas themselves are the
/// plain data-transfer types elsewhere in this crate and are not inspected
/// here.
#[derive(Debug, Clone)]
pub enum EventPayload {
    Allocation(serde_json::Value),
    Deployment(serde_json::Value),
    Evaluation(serde_json::Value),
    Job(serde_json::Value),
    Node(serde_json::Value),
}

/// The topic a payload variant belongs to.
pub open spec fn spec_payload_topic(p: EventPayload) -> Topic {
    match p {
        EventPayload::Allocation(_) => Topic::Allocation,
        EventPayload::Deployment(_) => Topic::Deployment,
        EventPayload::Evaluation(_) => Topic::Evaluation,
        EventPayload::Job(_) => Topic::Job,
        EventPayload::Node(_) => Topic::Node,
    }
}

/// The record document a payload carries.
pub open spec fn spec_payload_record(p: EventPayload) -> serde_json::Value {
    match p {
        EventPayload::Allocation(v) => v,
        EventPayload::Deployment(v) => v,
        EventPayload::Evaluation(v) => v,
        EventPayload::Job(v) => v,
        EventPayload::Node(v) => v,
    }
}

/// Why a parsed document could not become an envelope or an event.
#[derive(Debug, Clone, Copy, PartialEq, Eq)]
pub enum EventDecodeError {
    /// The envelope document is not a JSON object.
    EnvelopeNotObject,
    /// The envelope's `Index` member is not an unsigned integer.
    BadEnvelopeIndex,
    /// The envelope's `Events` member is neither null nor an array.
    BadEnvelopeEvents,
    /// The envelope's `Err` member is neither null nor a string.
    BadEnvelopeError,
    /// An event is not a JSON object.
    EventNotObject,
    /// An event's `Topic` member is absent or not a string.
    BadTopic,
    /// An event's topic name is none of the six known topics.
    UnknownTopic,
    /// An event's `Type` member is absent or not a string.
    BadEventType,
    /// An event's `Key` member is absent or not a string.
    BadKey,
    /// An event's `FilterKeys` member is absent, or neither null nor an
    /// array of strings.
    BadFilterKeys,
    /// An event's `Index` member is absent or not an unsigned integer.
    BadEventIndex,
    /// An event's `Payload` member is absent.
    MissingPayload,
    /// An event's payload document carries none of the five record tags.
    UnknownPayload,
}

impl EventPayload {
    /// The topic this payload belongs to.
    pub fn topic(&self) -> (t: Topic)
        ensures
            t == spec_payload_topic(*self),
    {
        match self {
            EventPayload::Allocation(_) => Topic::Allocation,
            EventPayload::Deployment(_) => Topic::Deployment,
            EventPayload::Evaluation(_) => Topic::Evaluation,
            EventPayload::Job(_) => Topic::Job,
            EventPayload::Node(_) => Topic::Node,
        }
    }

    /// The record document this payload carries.
    pub fn record(&self) -> (r: &serde_json::Value)
        ensures
            *r == spec_payload_record(*self),
    {
        match self {
            EventPayload::Allocation(v) => v,
            EventPayload::Deployment(v) => v,
            EventPayload::Evaluation(v) => v,
            EventPayload::Job(v) => v,
            EventPayload::Node(v) => v,
        }
    }

    /// Read a payload document: a JSON object announcing its own kind under
    /// one of the five record tags. The tags are probed in a fixed order, so
    /// a document carrying several known tags yields the first; one carrying
    /// none is an unknown payload.
    pub fn from_json(p: &serde_json::Value) -> (r: Result<EventPayload, EventDecodeError>)
        ensures
            r == spec_payload_of(*p),
    {
        if !value_is_object(p) {
            return Err(EventDecodeError::UnknownPayload);
        }
        if let Some(rec) = value_get(p, "Allocation") {
            return Ok(EventPayload::Allocation(rec.clone()));
        }
        if let Some(rec) = value_get(p, "Deployment") {
            return Ok(EventPayload::Deployment(rec.clone()));
        }
        if let Some(rec) = value_get(p, "Evaluation") {
            return Ok(EventPayload::Evaluation(rec.clone()));
        }
        if let Some(rec) = value_get(p, "Job") {
            return Ok(EventPayload::Job(rec.clone()));
        }
        if let Some(rec) = value_get(p, "Node") {
            return Ok(EventPayload::Node(rec.clone()));
        }
        Err(EventDecodeError::UnknownPayload)
    }
}

/// The payload that a payload document denotes: the first of the five
/// record tags, in the order `EventPayload::from_json` probes them, wraps
/// its member; a document that is no object or carries no known tag is an
/// unknown payload.
pub open spec fn spec_payload_of(p: serde_json::Value) -> Result<EventPayload, EventDecodeError> {
    if !json_is_object(p) {
        Err(EventDecodeError::UnknownPayload)
    } else if json_member(p, "Allocation"@) is Some {
        Ok(EventPayload::Allocation(json_member(p, "Allocation"@)->0))
    } else if json_member(p, "Deployment"@) is Some {
        Ok(EventPayload::Deployment(json_member(p, "Deployment"@)->0))
    } else if json_member(p, "Evaluation"@) is Some {
        Ok(EventPayload::Evaluation(json_member(p, "Evaluation"@)->0))
    } else if json_member(p, "Job"@) is Some {
        Ok(EventPayload::Job(json_member(p, "Job"@)->0))
    } else if json_member(p, "Node"@) is Some {
        Ok(EventPayload::Node(json_member(p, "Node"@)->0))
    } else {
        Err(EventDecodeError::UnknownPayload)
    }
}

/// The text of a string member: `None` when the key is absent or its value
/// is no string.
pub open spec fn spec_string_member(v: serde_json::Value, key: Seq<char>) -> Option<Seq<char>> {
    match json_member(v, key) {
        None => None,
        Some(m) => json_string(m),
    }
}

/// The number of an unsigned integer member: `None` when the key is absent
/// or its value is no such number.
pub open spec fn spec_integer_member(v: serde_json::Value, key: Seq<char>) -> Option<u64> {
    match json_member(v, key) {
        None => None,
        Some(m) => json_integer(m),
    }
}

/// The texts of a sequence of string values: `None` when any element is no
/// string.
pub open spec fn spec_strings_of(elems: Seq<serde_json::Value>) -> Option<Seq<Seq<char>>>
    decreases elems.len(),
{
    if elems.len() == 0 {
        Some(Seq::empty())
    } else {
        match spec_strings_of(elems.drop_last()) {
            None => None,
            Some(prefix) => match json_string(elems.last()) {
                None => None,
                Some(s) => Some(prefix.push(s)),
            },
        }
    }
}

/// The filter keys an event document carries: a null member stands for no
/// keys; `None` when the member is absent, no array, or holds a non-string.
pub open spec fn spec_filter_keys(v: serde_json::Value) -> Option<Seq<Seq<char>>> {
    match json_member(v, "FilterKeys"@) {
        None => None,
        Some(fk) => if json_is_null(fk) {
            Some(Seq::empty())
        } else {
            match json_elements(fk) {
                None => None,
                Some(elems) => spec_strings_of(elems),
            }
        },
    }
}

/// One change that the stream reports: what kind of entity changed, which
/// entity, and the record behind it.
#[derive(Debug, Clone)]
pub struct Event {
    /// The category of the affected entity.
    pub topic: Topic,
    /// The specific sub-kind of change within the topic.
    pub event_type: String,
    /// The identifier of the affected entity.
    pub key: String,
    /// Auxiliary identifiers for client-side filtering; empty when none
    /// were given.
    pub filter_keys: Vec<String>,
    /// The index at which this event was recorded.
    pub index: u64,
    /// The record the event carries; its variant is announced by the
    /// payload document itself, so it can disagree with `topic`.
    pub payload: EventPayload,
}

/// The error `Event::from_json` reports for a document, `None` when the
/// document decodes; the members are examined in the order the decoder
/// reads them.
pub open spec fn spec_event_error(v: serde_json::Value) -> Option<EventDecodeError> {
    if !json_is_object(v) {
        Some(EventDecodeError::EventNotObject)
    } else if spec_string_member(v, "Topic"@) is None {
        Some(EventDecodeError::BadTopic)
    } else if spec_string_member(v, "Type"@) is None {
        Some(EventDecodeError::BadEventType)
    } else if spec_string_member(v, "Key"@) is None {
        Some(EventDecodeError::BadKey)
    } else if spec_filter_keys(v) is None {
        Some(EventDecodeError::BadFilterKeys)
    } else if spec_integer_member(v, "Index"@) is None {
        Some(EventDecodeError::BadEventIndex)
    } else if json_member(v, "Payload"@) is None {
        Some(EventDecodeError::MissingPayload)
    } else if spec_payload_of(json_member(v, "Payload"@)->0) is Err {
        Some(EventDecodeError::UnknownPayload)
    } else if spec_topic_of_name(spec_string_member(v, "Topic"@)->0) is None {
        Some(EventDecodeError::UnknownTopic)
    } else {
        None
    }
}

/// Whether `ev` is the event that the document `v` denotes, member by
/// member.
pub open spec fn event_matches(v: serde_json::Value, ev: Event) -> bool {
    &&& (spec_string_member(v, "Topic"@) matches Some(name) && spec_topic_of_name(name) == Some(
        ev.topic,
    ))
    &&& Some(ev.event_type@) == spec_string_member(v, "Type"@)
    &&& Some(ev.key@) == spec_string_member(v, "Key"@)
    &&& Some(ev.filter_keys@.map_values(|s: String| s@)) == spec_filter_keys(v)
    &&& Some(ev.index) == spec_integer_member(v, "Index"@)
    &&& (json_member(v, "Payload"@) matches Some(p) && spec_payload_of(p) == Ok::<
        EventPayload,
        EventDecodeError,
    >(ev.payload))
}

impl Event {
    /// Assemble an event from its decoded parts. The topic is the one the
    /// given name denotes; all other parts are taken as they are, and the
    /// payload's own tag is not held against the topic. An unknown topic
    /// name is the one error.
    pub fn assemble(
        topic_name: &str,
        event_type: String,
        key: String,
        filter_keys: Vec<String>,
        index: u64,
        payload: EventPayload,
    ) -> (r: Result<Event, EventDecodeError>)
        ensures
            (match r {
                Ok(ev) => {
                    &&& spec_topic_of_name(topic_name@) == Some(ev.topic)
                    &&& ev.event_type == event_type
                    &&& ev.key == key
                    &&& ev.filter_keys == filter_keys
                    &&& ev.index == index
                    &&& ev.payload == payload
                },
                Err(e) => e == EventDecodeError::UnknownTopic && spec_topic_of_name(topic_name@)
                    is None,
            }),
    {
        match Topic::from_name(topic_name) {
            Some(topic) => Ok(Event { topic, event_type, key, filter_keys, index, payload }),
            None => Err(EventDecodeError::UnknownTopic),
        }
    }

    /// Read one event from its parsed document. `Topic`, `Type`, `Key`,
    /// `FilterKeys`, `Index` and `Payload` must all be present; only
    /// `FilterKeys` may be null, which stands for no keys.
    pub fn from_json(v: &serde_json::Value) -> (r: Result<Event, EventDecodeError>)
        ensures
            (match r {
                Ok(ev) => spec_event_error(*v) is None && event_matches(*v, ev),
                Err(e) => spec_event_error(*v) == Some(e),
            }),
    {
        if !value_is_object(v) {
            return Err(EventDecodeError::EventNotObject);
        }
        let topic_text = match value_get(v, "Topic") {
            Some(t) => match value_as_str(t) {
                Some(s) => s,
                None => {
                    return Err(EventDecodeError::BadTopic);
                },
            },
            None => {
                return Err(EventDecodeError::BadTopic);
            },
        };
        let event_type = match value_get(v, "Type") {
            Some(t) => match value_as_str(t) {
                Some(s) => s.to_owned(),
                None => {
                    return Err(EventDecodeError::BadEventType);
                },
            },
            None => {
                return Err(EventDecodeError::BadEventType);
            },
        };
        let key = match value_get(v, "Key") {
            Some(t) => match value_as_str(t) {
                Some(s) => s.to_owned(),
                None => {
                    return Err(EventDecodeError::BadKey);
                },
            },
            None => {
                return Err(EventDecodeError::BadKey);
            },
        };
        let filter_keys = match value_get(v, "FilterKeys") {
            Some(fk) => if value_is_null(fk) {
                let no_keys: Vec<String> = Vec::new();
                proof {
                    assert(no_keys@.map_values(|s: String| s@) =~= Seq::<Seq<char>>::empty());
                }
                no_keys
            } else {
                match value_as_array(fk) {
                    Some(arr) => match strings_of_values(arr) {
                        Ok(keys) => keys,
                        Err(e) => {
                            return Err(e);
                        },
                    },
                    None => {
                        return Err(EventDecodeError::BadFilterKeys);
                    },
                }
            },
            None => {
                return Err(EventDecodeError::BadFilterKeys);
            },
        };
        let index = match value_get(v, "Index") {
            Some(x) => match value_as_u64(x) {
                Some(n) => n,
                None => {
                    return Err(EventDecodeError::BadEventIndex);
                },
            },
            None => {
                return Err(EventDecodeError::BadEventIndex);
            },
        };
        let payload = match value_get(v, "Payload") {
            Some(p) => match EventPayload::from_json(p) {
                Ok(p) => p,
                Err(e) => {
                    return Err(e);
                },
            },
            None => {
                return Err(EventDecodeError::MissingPayload);
            },
        };
        Event::assemble(topic_text, event_type, key, filter_keys, index, payload)
    }
}

/// One element that is no string makes the whole sequence denote no texts.
proof fn lemma_strings_of_none(elems: Seq<serde_json::Value>, i: int)
    requires
        0 <= i < elems.len(),
        json_string(elems[i]) is None,
    ensures
        spec_strings_of(elems) is None,
    decreases elems.len(),
{
    if i < elems.len() - 1 {
        assert(elems.drop_last()[i] == elems[i]);
        lemma_strings_of_none(elems.drop_last(), i);
    }
}

/// The strings of an array whose elements must all be strings; used for an
/// event's filter keys. One key comes out per element, in order.
fn strings_of_values(arr: &Vec<serde_json::Value>) -> (r: Result<Vec<String>, EventDecodeError>)
    ensures
        (match r {
            Ok(keys) => spec_strings_of(arr@) == Some(keys@.map_values(|s: String| s@)),
            Err(e) => e == EventDecodeError::BadFilterKeys && spec_strings_of(arr@) is None,
        }),
{
    let mut out: Vec<String> = Vec::new();
    proof {
        assert(arr@.subrange(0, 0) =~= Seq::<serde_json::Value>::empty());
        assert(out@.map_values(|s: String| s@) =~= Seq::<Seq<char>>::empty());
    }
    let mut i: usize = 0;
    while i < arr.len()
        invariant
            i <= arr@.len(),
            out@.len() == i,
            spec_strings_of(arr@.subrange(0, i as int)) == Some(
                out@.map_values(|s: String| s@),
            ),
        decreases arr@.len() - i,
    {
        match value_as_str(&arr[i]) {
            Some(s) => {
                let owned = s.to_owned();
                proof {
                    assert(arr@.subrange(0, i + 1).drop_last() =~= arr@.subrange(0, i as int));
                    assert(arr@.subrange(0, i + 1).last() == arr@[i as int]);
                    assert(out@.push(owned).map_values(|s: String| s@) =~= out@.map_values(
                        |s: String| s@,
                    ).push(owned@));
                }
                out.push(owned);
            },
            None => {
                proof {
                    lemma_strings_of_none(arr@, i as int);
                }
                return Err(EventDecodeError::BadFilterKeys);
            },
        }
        i = i + 1;
    }
    proof {
        assert(arr@.subrange(0, arr@.len() as int) =~= arr@);
    }
    Ok(out)
}

/// The error of the first document in a batch that cannot be decoded as an
/// event, in order; `None` when every document decodes.
pub open spec fn spec_first_event_error(elems: Seq<serde_json::Value>) -> Option<EventDecodeError>
    decreases elems.len(),
{
    if elems.len() == 0 {
        None
    } else if spec_event_error(elems[0]) is Some {
        spec_event_error(elems[0])
    } else {
        spec_first_event_error(elems.drop_first())
    }
}

/// The error an envelope's events member carries: `None` when the member is
/// absent, null, or an array whose documents all decode.
pub open spec fn spec_envelope_events_error(v: serde_json::Value) -> Option<EventDecodeError> {
    match json_member(v, "Events"@) {
        None => None,
        Some(e) => if json_is_null(e) {
            None
        } else {
            match json_elements(e) {
                None => Some(EventDecodeError::BadEnvelopeEvents),
                Some(elems) => spec_first_event_error(elems),
            }
        },
    }
}

/// The error `Events::from_json` reports for a document, `None` when the
/// document decodes; the members are examined in the order the decoder
/// reads them.
pub open spec fn spec_envelope_error(v: serde_json::Value) -> Option<EventDecodeError> {
    if !json_is_object(v) {
        Some(EventDecodeError::EnvelopeNotObject)
    } else if (json_member(v, "Index"@) matches Some(m) && json_integer(m) is None) {
        Some(EventDecodeError::BadEnvelopeIndex)
    } else if spec_envelope_events_error(v) is Some {
        spec_envelope_events_error(v)
    } else if (json_member(v, "Err"@) matches Some(e) && !json_is_null(e) && json_string(e)
        is None) {
        Some(EventDecodeError::BadEnvelopeError)
    } else {
        None
    }
}

/// Whether `evs` are the events that the documents `elems` denote, one for
/// one and in order.
pub open spec fn events_match(elems: Seq<serde_json::Value>, evs: Seq<Event>) -> bool {
    &&& evs.len() == elems.len()
    &&& forall|i: int| 0 <= i < elems.len() ==> event_matches(elems[i], #[trigger] evs[i])
}

/// Whether `out` is the batch that the document `v` denotes, member by
/// member: the index member or zero, the events in order, and the optional
/// error text.
pub open spec fn envelope_matches(v: serde_json::Value, out: Events) -> bool {
    &&& (match json_member(v, "Index"@) {
        None => out.index == 0,
        Some(m) => Some(out.index) == json_integer(m),
    })
    &&& (match json_member(v, "Events"@) {
        None => out.events@.len() == 0,
        Some(e) => if json_is_null(e) {
            out.events@.len() == 0
        } else {
            json_elements(e) matches Some(elems) && events_match(elems, out.events@)
        },
    })
    &&& (match json_member(v, "Err"@) {
        None => out.error is None,
        Some(e) => if json_is_null(e) {
            out.error is None
        } else {
            out.error matches Some(msg) && Some(msg@) == json_string(e)
        },
    })
}

/// When the first `i` documents of a batch decode and the next does not,
/// its error is the batch's first.
proof fn lemma_first_event_error_at(elems: Seq<serde_json::Value>, i: int)
    requires
        0 <= i < elems.len(),
        forall|j: int| 0 <= j < i ==> spec_event_error(#[trigger] elems[j]) is None,
        spec_event_error(elems[i]) is Some,
    ensures
        spec_first_event_error(elems) == spec_event_error(elems[i]),
    decreases i,
{
    if i > 0 {
        assert forall|j: int| 0 <= j < i - 1 implies spec_event_error(
            #[trigger] elems.drop_first()[j],
        ) is None by {
            assert(elems.drop_first()[j] == elems[j + 1]);
        }
        assert(elems.drop_first()[i - 1] == elems[i]);
        lemma_first_event_error_at(elems.drop_first(), i - 1);
    }
}

/// When every document of a batch decodes, the batch has no first error.
proof fn lemma_no_first_event_error(elems: Seq<serde_json::Value>)
    requires
        forall|j: int| 0 <= j < elems.len() ==> spec_event_error(#[trigger] elems[j]) is None,
    ensures
        spec_first_event_error(elems) is None,
    decreases elems.len(),
{
    if elems.len() > 0 {
        assert forall|j: int| 0 <= j < elems.len() - 1 implies spec_event_error(
            #[trigger] elems.drop_first()[j],
        ) is None by {
            assert(elems.drop_first()[j] == elems[j + 1]);
        }
        lemma_no_first_event_error(elems.drop_first());
    }
}

/// One batch from the stream: a sequence counter, the events of the batch,
/// and the source's terminal error message, if it declared one. An error
/// does not exclude events: both are surfaced together.
#[derive(Debug, Clone)]
pub struct Events {
    /// The batch's sequence counter; non-decreasing from batch to batch.
    pub index: u64,
    /// The events of this batch, in emission order; may be empty.
    pub events: Vec<Event>,
    /// The source's fatal condition, when it declared one.
    pub error: Option<String>,
}

impl Events {
    /// Read one envelope from its parsed document. `Index`, `Events` and
    /// `Err` may each be absent; an absent or null `Events` is an empty
    /// batch, an absent or null `Err` is no error, and an absent `Index` is
    /// zero. The batch is decoded whole: the first event that cannot be
    /// decoded fails the envelope.
    pub fn from_json(v: &serde_json::Value) -> (r: Result<Events, EventDecodeError>)
        ensures
            (match r {
                Ok(out) => spec_envelope_error(*v) is None && envelope_matches(*v, out),
                Err(e) => spec_envelope_error(*v) == Some(e),
            }),
    {
        if !value_is_object(v) {
            return Err(EventDecodeError::EnvelopeNotObject);
        }
        let index = match value_get(v, "Index") {
            Some(x) => match value_as_u64(x) {
                Some(n) => n,
                None => {
                    return Err(EventDecodeError::BadEnvelopeIndex);
                },
            },
            None => 0,
        };
        let events = match value_get(v, "Events") {
            Some(e) => if value_is_null(e) {
                Vec::new()
            } else {
                match value_as_array(e) {
                    Some(arr) => {
                        let mut out: Vec<Event> = Vec::new();
                        let mut i: usize = 0;
                        while i < arr.len()
                            invariant
                                i <= arr@.len(),
                                out@.len() == i,
                                forall|j: int|
                                    0 <= j < i ==> spec_event_error(#[trigger] arr@[j]) is None,
                                forall|j: int|
                                    0 <= j < i ==> event_matches(arr@[j], #[trigger] out@[j]),
                                json_is_object(*v),
                                (match json_member(*v, "Index"@) {
                                    None => true,
                                    Some(m) => json_integer(m) is Some,
                                }),
                                json_member(*v, "Events"@) == Some(*e),
                                !json_is_null(*e),
                                json_elements(*e) == Some(arr@),
                            decreases arr@.len() - i,
                        {
                            match Event::from_json(&arr[i]) {
                                Ok(ev) => out.push(ev),
                                Err(err) => {
                                    proof {
                                        lemma_first_event_error_at(arr@, i as int);
                                    }
                                    return Err(err);
                                },
                            }
                            i = i + 1;
                        }
                        proof {
                            lemma_no_first_event_error(arr@);
                        }
                        out
                    },
                    None => {
                        return Err(EventDecodeError::BadEnvelopeEvents);
                    },
                }
            },
            None => Vec::new(),
        };
        proof {
            assert(spec_envelope_events_error(*v) is None);
        }
        let error = match value_get(v, "Err") {
            Some(e) => if value_is_null(e) {
                None
            } else {
                match value_as_str(e) {
                    Some(s) => Some(s.to_owned()),
                    None => {
                        return Err(EventDecodeError::BadEnvelopeError);
                    },
                }
            },
            None => None,
        };
        Ok(Events { index, events, error })
    }
}

/// An envelope whose events member is null or absent is an empty batch,
/// never a decode error on that account: whatever batch the document
/// denotes has no events, and with its other members well shaped the
/// decode reports no error at all.
pub proof fn lemma_null_events_mean_empty_batch(v: serde_json::Value, out: Events)
    requires
        json_is_object(v),
        json_member(v, "Events"@) is None || json_is_null(json_member(v, "Events"@)->0),
        (match json_member(v, "Index"@) {
            None => true,
            Some(m) => json_integer(m) is Some,
        }),
        (match json_member(v, "Err"@) {
            None => true,
            Some(e) => json_is_null(e) || json_string(e) is Some,
        }),
    ensures
        spec_envelope_error(v) is None,
        envelope_matches(v, out) ==> out.events@.len() == 0,
{
}

/// An event's null filter-keys member stands for no keys, never a decode
/// error on that account: it denotes the empty key sequence, and whatever
/// event the document denotes carries no filter keys.
pub proof fn lemma_null_filter_keys_mean_no_keys(v: serde_json::Value, ev: Event)
    requires
        (json_member(v, "FilterKeys"@) matches Some(fk) && json_is_null(fk)),
    ensures
        spec_filter_keys(v) == Some(Seq::<Seq<char>>::empty()),
        event_matches(v, ev) ==> ev.filter_keys@.len() == 0,
{
    if event_matches(v, ev) {
        assert(ev.filter_keys@.map_values(|s: String| s@).len() == ev.filter_keys@.len());
    }
}

} // verus!
