use nomad_client::chunked_response::Assembler;
use std::collections::HashMap;

type IntMap = HashMap<String, i32>;
type StringMap = HashMap<String, String>;

#[test]
fn complete_object() {
    let chunk1 = r#"{ "one": 1 }"#;

    let mut assembler = Assembler::new();
    let value = assembler
        .add::<IntMap>(&chunk1)
        .expect("deserialized value");
    assert_eq!(value.unwrap().get("one"), Some(&1i32));
}

#[test]
fn partial_object() {
    let chunk1 = r#"{ "one": 1"#;
    let chunk2 = r#"}"#;
    let chunk3 = r#"{ "two": 2 }"#;

    let mut assembler = Assembler::new();
    let value = assembler.add::<IntMap>(&chunk1);
    assert!(value.is_ok());
    assert_eq!(value.unwrap(), None);

    if let Ok(Some(object)) = assembler.add::<IntMap>(&chunk2) {
        assert_eq!(object.get("one"), Some(&1i32));
    } else {
        panic!("expected completed parse");
    }

    if let Ok(Some(object)) = assembler.add::<IntMap>(&chunk3) {
        assert_eq!(object.get("two"), Some(&2i32));
    } else {
        panic!("expected completed parse");
    }
}

#[test]
fn syntax_error() {
    let chunk1 = r#"{ "two": 1 }"#;
    let mut assembler = Assembler::new();

    let value = assembler.add::<StringMap>(&chunk1);
    assert!(value.is_err());
    println!("Value: {:?}", value);
}

#[test]
fn three_way_split() {
    let mut assembler = Assembler::new();
    assert_eq!(assembler.add::<IntMap>(r#"{ "th"#).unwrap(), None);
    assert!(assembler.is_accumulating());
    assert_eq!(assembler.add::<IntMap>(r#"ree": 3"#).unwrap(), None);
    assert!(assembler.is_accumulating());
    let object = assembler
        .add::<IntMap>(r#" }"#)
        .expect("deserialized value")
        .expect("expected completed parse");
    assert_eq!(object.get("three"), Some(&3i32));
    assert!(!assembler.is_accumulating());
}

#[test]
fn buffer_clears_after_every_decode() {
    let mut assembler = Assembler::new();
    for round in 0..3 {
        let value = assembler
            .add::<IntMap>(r#"{ "n": 7 }"#)
            .expect("deserialized value")
            .expect("expected completed parse");
        assert_eq!(value.get("n"), Some(&7i32), "round {}", round);
        assert!(!assembler.is_accumulating());
    }
}

#[test]
fn hard_error_leaves_state_clean() {
    let mut assembler = Assembler::new();
    assert!(assembler.add::<IntMap>(r#"{ "a": "text" }"#).is_err());
    assert!(!assembler.is_accumulating());
    let value = assembler
        .add::<IntMap>(r#"{ "a": 1 }"#)
        .expect("deserialized value")
        .expect("expected completed parse");
    assert_eq!(value.get("a"), Some(&1i32));
}

#[test]
fn hard_error_carries_a_message() {
    let mut assembler = Assembler::new();
    let err = assembler
        .add::<StringMap>(r#"{ "two": 1 }"#)
        .expect_err("expected a decode error");
    assert!(!err.message().is_empty());
}

#[test]
fn empty_chunk_is_buffered_not_rejected() {
    let mut assembler = Assembler::new();
    assert_eq!(assembler.add::<IntMap>("").unwrap(), None);
    assert!(assembler.is_accumulating());
    let value = assembler
        .add::<IntMap>(r#"{ "e": 5 }"#)
        .expect("deserialized value")
        .expect("expected completed parse");
    assert_eq!(value.get("e"), Some(&5i32));
}

#[test]
fn delimiter_fragment_is_skipped() {
    let mut assembler = Assembler::new();
    assert_eq!(assembler.add_frame::<IntMap>("\n").unwrap(), None);
    assert!(!assembler.is_accumulating());

    assert_eq!(assembler.add_frame::<IntMap>(r#"{ "one": 1"#).unwrap(), None);
    assert!(assembler.is_accumulating());
    assert_eq!(assembler.add_frame::<IntMap>("\n").unwrap(), None);
    assert!(assembler.is_accumulating(), "a delimiter must not disturb the pending buffer");
    let value = assembler
        .add_frame::<IntMap>(r#" }"#)
        .expect("deserialized value")
        .expect("expected completed parse");
    assert_eq!(value.get("one"), Some(&1i32));
}

#[test]
fn failure_while_accumulating_keeps_waiting() {
    let mut assembler = Assembler::new();
    assert_eq!(assembler.add::<IntMap>(r#"{ "a""#).unwrap(), None);
    // A complete but wrongly-shaped concatenation is not reported against a
    // growing buffer; the assembler awaits more input.
    assert_eq!(assembler.add::<IntMap>(r#": "text" }"#).unwrap(), None);
    assert!(assembler.is_accumulating());
}

#[test]
fn every_split_point_reassembles() {
    let text = r#"{ "one": 1, "two": 22 }"#;
    for split in 1..text.len() {
        let (first, second) = text.split_at(split);
        let mut assembler = Assembler::new();
        assert_eq!(
            assembler.add::<IntMap>(first).expect("a prefix is never rejected"),
            None,
            "prefix {:?}",
            first
        );
        let value = assembler
            .add::<IntMap>(second)
            .expect("deserialized value")
            .expect("expected completed parse");
        assert_eq!(value.get("one"), Some(&1i32));
        assert_eq!(value.get("two"), Some(&22i32));
        assert!(!assembler.is_accumulating());
    }
}
