use nomad_client::chunked_response::Assembler;
use nomad_client::event_stream::{Event, EventDecodeError, EventPayload, Events, Topic};

fn document(text: &str) -> serde_json::Value {
    serde_json::from_str::<serde_json::Value>(text).expect("test document must parse")
}

#[test]
fn envelope_with_one_event() {
    let doc = document(
        r#"{
            "Index": 7,
            "Events": [
                {
                    "Topic": "Job",
                    "Type": "JobRegistered",
                    "Key": "example",
                    "FilterKeys": ["one", "two"],
                    "Index": 7,
                    "Payload": { "Job": { "ID": "example" } }
                }
            ]
        }"#,
    );
    let events = Events::from_json(&doc).expect("envelope must decode");
    assert_eq!(events.index, 7);
    assert_eq!(events.error, None);
    assert_eq!(events.events.len(), 1);
    let event = &events.events[0];
    assert_eq!(event.topic, Topic::Job);
    assert_eq!(event.event_type, "JobRegistered");
    assert_eq!(event.key, "example");
    assert_eq!(event.filter_keys, vec!["one".to_string(), "two".to_string()]);
    assert_eq!(event.index, 7);
    assert_eq!(event.payload.topic(), Topic::Job);
}

#[test]
fn null_events_mean_an_empty_batch() {
    let doc = document(r#"{ "Index": 3, "Events": null }"#);
    let events = Events::from_json(&doc).expect("envelope must decode");
    assert_eq!(events.index, 3);
    assert!(events.events.is_empty());
}

#[test]
fn absent_members_take_their_defaults() {
    let doc = document(r#"{}"#);
    let events = Events::from_json(&doc).expect("envelope must decode");
    assert_eq!(events.index, 0);
    assert!(events.events.is_empty());
    assert_eq!(events.error, None);
}

#[test]
fn null_filter_keys_mean_no_keys() {
    let doc = document(
        r#"{
            "Topic": "Node",
            "Type": "NodeRegistered",
            "Key": "n1",
            "FilterKeys": null,
            "Index": 1,
            "Payload": { "Node": {} }
        }"#,
    );
    let event = Event::from_json(&doc).expect("event must decode");
    assert!(event.filter_keys.is_empty());
    assert_eq!(event.topic, Topic::Node);
}

#[test]
fn stream_error_is_surfaced_beside_events() {
    let doc = document(
        r#"{
            "Index": 9,
            "Events": [
                {
                    "Topic": "Evaluation",
                    "Type": "EvaluationUpdated",
                    "Key": "e1",
                    "FilterKeys": [],
                    "Index": 9,
                    "Payload": { "Evaluation": {} }
                }
            ],
            "Err": "stream closed by source"
        }"#,
    );
    let events = Events::from_json(&doc).expect("envelope must decode");
    assert_eq!(events.error.as_deref(), Some("stream closed by source"));
    assert_eq!(events.events.len(), 1);
}

#[test]
fn null_stream_error_means_none() {
    let doc = document(r#"{ "Err": null }"#);
    let events = Events::from_json(&doc).expect("envelope must decode");
    assert_eq!(events.error, None);
}

#[test]
fn topic_and_payload_may_disagree() {
    let doc = document(
        r#"{
            "Topic": "Job",
            "Type": "Odd",
            "Key": "k",
            "FilterKeys": [],
            "Index": 2,
            "Payload": { "Node": {} }
        }"#,
    );
    let event = Event::from_json(&doc).expect("event must decode");
    assert_eq!(event.topic, Topic::Job);
    assert_eq!(event.payload.topic(), Topic::Node);
}

#[test]
fn unknown_topic_is_an_error() {
    let doc = document(
        r#"{
            "Topic": "Volume",
            "Type": "T",
            "Key": "k",
            "FilterKeys": [],
            "Index": 2,
            "Payload": { "Node": {} }
        }"#,
    );
    assert_eq!(Event::from_json(&doc).unwrap_err(), EventDecodeError::UnknownTopic);
}

#[test]
fn unknown_payload_tag_is_an_error() {
    let doc = document(
        r#"{
            "Topic": "Job",
            "Type": "T",
            "Key": "k",
            "FilterKeys": [],
            "Index": 2,
            "Payload": { "Volume": {} }
        }"#,
    );
    assert_eq!(Event::from_json(&doc).unwrap_err(), EventDecodeError::UnknownPayload);
}

#[test]
fn event_member_errors_are_told_apart() {
    let base = r#""Type": "T", "Key": "k", "FilterKeys": [], "Index": 2, "Payload": { "Job": {} }"#;

    let no_topic = document(&format!("{{ {} }}", base));
    assert_eq!(Event::from_json(&no_topic).unwrap_err(), EventDecodeError::BadTopic);

    let numeric_topic = document(&format!("{{ \"Topic\": 4, {} }}", base));
    assert_eq!(Event::from_json(&numeric_topic).unwrap_err(), EventDecodeError::BadTopic);

    let no_type = document(
        r#"{ "Topic": "Job", "Key": "k", "FilterKeys": [], "Index": 2, "Payload": { "Job": {} } }"#,
    );
    assert_eq!(Event::from_json(&no_type).unwrap_err(), EventDecodeError::BadEventType);

    let no_key = document(
        r#"{ "Topic": "Job", "Type": "T", "FilterKeys": [], "Index": 2, "Payload": { "Job": {} } }"#,
    );
    assert_eq!(Event::from_json(&no_key).unwrap_err(), EventDecodeError::BadKey);

    let bad_filter_keys = document(
        r#"{ "Topic": "Job", "Type": "T", "Key": "k", "FilterKeys": [3], "Index": 2, "Payload": { "Job": {} } }"#,
    );
    assert_eq!(Event::from_json(&bad_filter_keys).unwrap_err(), EventDecodeError::BadFilterKeys);

    let bad_index = document(
        r#"{ "Topic": "Job", "Type": "T", "Key": "k", "FilterKeys": [], "Index": -2, "Payload": { "Job": {} } }"#,
    );
    assert_eq!(Event::from_json(&bad_index).unwrap_err(), EventDecodeError::BadEventIndex);

    let no_payload = document(
        r#"{ "Topic": "Job", "Type": "T", "Key": "k", "FilterKeys": [], "Index": 2 }"#,
    );
    assert_eq!(Event::from_json(&no_payload).unwrap_err(), EventDecodeError::MissingPayload);

    let not_an_object = document(r#"[1, 2]"#);
    assert_eq!(Event::from_json(&not_an_object).unwrap_err(), EventDecodeError::EventNotObject);
}

#[test]
fn envelope_member_errors_are_told_apart() {
    let not_an_object = document(r#""text""#);
    assert_eq!(Events::from_json(&not_an_object).unwrap_err(), EventDecodeError::EnvelopeNotObject);

    let bad_index = document(r#"{ "Index": null }"#);
    assert_eq!(Events::from_json(&bad_index).unwrap_err(), EventDecodeError::BadEnvelopeIndex);

    let bad_events = document(r#"{ "Events": 5 }"#);
    assert_eq!(Events::from_json(&bad_events).unwrap_err(), EventDecodeError::BadEnvelopeEvents);

    let bad_error = document(r#"{ "Err": 5 }"#);
    assert_eq!(Events::from_json(&bad_error).unwrap_err(), EventDecodeError::BadEnvelopeError);
}

#[test]
fn one_bad_event_fails_the_batch() {
    let doc = document(
        r#"{
            "Index": 4,
            "Events": [
                {
                    "Topic": "Job",
                    "Type": "T",
                    "Key": "k",
                    "FilterKeys": [],
                    "Index": 4,
                    "Payload": { "Job": {} }
                },
                {
                    "Topic": "Job",
                    "Type": "T",
                    "Key": "k",
                    "FilterKeys": [],
                    "Index": 4,
                    "Payload": { "Volume": {} }
                }
            ]
        }"#,
    );
    assert_eq!(Events::from_json(&doc).unwrap_err(), EventDecodeError::UnknownPayload);
}

#[test]
fn every_topic_name_round_trips() {
    let topics = [
        Topic::Deployment,
        Topic::Evaluation,
        Topic::Allocation,
        Topic::Job,
        Topic::Node,
        Topic::All,
    ];
    for topic in topics {
        assert_eq!(Topic::from_name(topic.name().as_str()), Some(topic));
    }
    assert_eq!(Topic::from_name("Volume"), None);
    assert_eq!(Topic::from_name(""), None);
}

#[test]
fn payload_keeps_its_record() {
    let doc = document(r#"{ "Allocation": { "ID": "a1" } }"#);
    let payload = EventPayload::from_json(&doc).expect("payload must decode");
    assert_eq!(payload.topic(), Topic::Allocation);
    assert_eq!(payload.record().get("ID").and_then(|v| v.as_str()), Some("a1"));
}

#[test]
fn chunked_envelope_reassembles_and_decodes() {
    let mut assembler = Assembler::new();
    assert_eq!(
        assembler
            .add_frame::<serde_json::Value>(r#"{ "Index": 11, "Events"#)
            .unwrap(),
        None
    );
    assert_eq!(assembler.add_frame::<serde_json::Value>("\n").unwrap(), None);
    let doc = assembler
        .add_frame::<serde_json::Value>(r#"s": null }"#)
        .expect("deserialized value")
        .expect("expected completed parse");
    let events = Events::from_json(&doc).expect("envelope must decode");
    assert_eq!(events.index, 11);
    assert!(events.events.is_empty());
}

#[test]
fn every_payload_tag_selects_its_variant() {
    let cases = [
        ("Allocation", Topic::Allocation),
        ("Deployment", Topic::Deployment),
        ("Evaluation", Topic::Evaluation),
        ("Job", Topic::Job),
        ("Node", Topic::Node),
    ];
    for (tag, topic) in cases {
        let doc = document(&format!(r#"{{ "{}": {{}} }}"#, tag));
        let payload = EventPayload::from_json(&doc).expect("payload must decode");
        assert_eq!(payload.topic(), topic);
    }
    let unknown = document(r#"{ "Volume": {} }"#);
    assert_eq!(EventPayload::from_json(&unknown).unwrap_err(), EventDecodeError::UnknownPayload);
    let not_an_object = document(r#"[]"#);
    assert_eq!(
        EventPayload::from_json(&not_an_object).unwrap_err(),
        EventDecodeError::UnknownPayload
    );
}

#[test]
fn assemble_builds_the_event_it_is_given() {
    let record = document(r#"{ "ID": "n1" }"#);
    let event = Event::assemble(
        "Node",
        "NodeRegistered".to_string(),
        "n1".to_string(),
        vec!["x".to_string()],
        5,
        EventPayload::Node(record),
    )
    .expect("known topic must assemble");
    assert_eq!(event.topic, Topic::Node);
    assert_eq!(event.event_type, "NodeRegistered");
    assert_eq!(event.key, "n1");
    assert_eq!(event.filter_keys, vec!["x".to_string()]);
    assert_eq!(event.index, 5);

    let rejected = Event::assemble(
        "Volume",
        String::new(),
        String::new(),
        Vec::new(),
        0,
        EventPayload::Node(document(r#"{}"#)),
    );
    assert_eq!(rejected.unwrap_err(), EventDecodeError::UnknownTopic);
}

#[test]
fn single_chunk_envelope_with_null_events() {
    let mut assembler = Assembler::new();
    let doc = assembler
        .add::<serde_json::Value>(r#"{"Index":7,"Events":null}"#)
        .expect("deserialized value")
        .expect("expected completed parse");
    let events = Events::from_json(&doc).expect("envelope must decode");
    assert_eq!(events.index, 7);
    assert!(events.events.is_empty());
    assert_eq!(events.error, None);
}
