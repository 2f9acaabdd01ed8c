use pulse::form::Form;
use pulse::node::Node;
use pulse::signal::{PayloadKind, Quality, Sighting, Signal};
use pulse::teacher::find_teacher;

#[test]
fn ingest_sends_each_signal_to_its_ledger() {
    let mut node = Node::new();
    let h = [7u8; 32];
    let q = Quality { bits: 0.5f64.to_bits() };
    assert_eq!(node.ingest(h, Signal::Presence([1; 18], 42, true)), None);
    assert_eq!(node.ingest(h, Signal::Quality(q)), None);
    assert_eq!(node.ingest(h, Signal::Name("seven".to_string())), None);
    assert_eq!(node.ingest(h, Signal::TypedPayload(PayloadKind::Rust, b"fn main() {}".to_vec())), None);
    assert_eq!(node.presence_map.recall(h), Some(vec![Sighting { socket: [1; 18], time: 42 }]));
    assert_eq!(node.quality_map.recall(h), Some(vec![q]));
    assert_eq!(
        node.knowledge_map.recall(h),
        Some(vec![
            Signal::Name("seven".to_string()),
            Signal::TypedPayload(PayloadKind::Rust, b"fn main() {}".to_vec()),
        ])
    );
}

#[test]
fn ingesting_a_source_classifies_it() {
    let mut node = Node::new();
    let h = [8u8; 32];
    assert_eq!(node.ingest(h, Signal::Source(b"plain text".to_vec())), Some(Form::Ascii("plain text".to_string())));
    assert_eq!(node.ingest(h, Signal::Source(vec![0xff; 32])), Some(Form::Sha256([0xff; 32])));
    assert_eq!(node.ingest(h, Signal::Source(vec![0xff; 3])), Some(Form::Binary(vec![0xff; 3])));
    assert_eq!(node.knowledge_map.recall(h).map(|v| v.len()), Some(3));
}

#[test]
fn ingested_presence_feeds_teacher_selection() {
    let mut node = Node::new();
    let h = [9u8; 32];
    node.ingest(h, Signal::Presence([0xaa; 18], 1, true));
    node.ingest(h, Signal::Presence([0xaa; 18], 3, false));
    node.ingest(h, Signal::Presence([0xbb; 18], 5, true));
    assert_eq!(find_teacher(&node.presence_map, h), Some([0xaa; 18]));
    assert_eq!(find_teacher(&node.presence_map, [0u8; 32]), None);
}
