use pulse::form::{build, check, classify_payload, Condition, Form, FormKind, SignalFormTree};

#[test]
fn forty_ascii_bytes_are_text() {
    let b = vec![b'x'; 40];
    assert_eq!(classify_payload(&b), Form::Ascii("x".repeat(40)));
}

#[test]
fn thirty_two_non_ascii_bytes_are_a_digest() {
    let mut b = vec![0xffu8; 32];
    b[0] = 1;
    let mut h = [0xffu8; 32];
    h[0] = 1;
    assert_eq!(classify_payload(&b), Form::Sha256(h));
}

#[test]
fn thirty_two_ascii_bytes_are_a_digest() {
    let b = vec![b'a'; 32];
    assert_eq!(classify_payload(&b), Form::Sha256([b'a'; 32]));
}

#[test]
fn other_non_ascii_bytes_are_binary() {
    let b = vec![0x80, 0x00, 0xfe];
    assert_eq!(classify_payload(&b), Form::Binary(vec![0x80, 0x00, 0xfe]));
}

#[test]
fn empty_payload_is_empty_text() {
    assert_eq!(classify_payload(&vec![]), Form::Ascii(String::new()));
}

#[test]
fn text_form_decodes_the_bytes() {
    let b = b"hello, world".to_vec();
    assert_eq!(classify_payload(&b), Form::Ascii("hello, world".to_string()));
}

#[test]
fn standard_tree_processes_like_classify_payload() {
    let t = SignalFormTree::standard();
    assert_eq!(t.process(&vec![b'q'; 5]), Some(Form::Ascii("qqqqq".to_string())));
    assert_eq!(t.process(&vec![200; 31]), Some(Form::Binary(vec![200; 31])));
}

#[test]
fn failing_branch_gives_nothing() {
    let t = SignalFormTree::Branch(Condition::AllAscii, vec![SignalFormTree::Leaf(FormKind::Ascii)]);
    assert_eq!(t.process(&vec![0x90]), None);
    assert_eq!(t.process(&b"ok".to_vec()), Some(Form::Ascii("ok".to_string())));
}

#[test]
fn branch_order_decides_overlapping_matches() {
    let t = SignalFormTree::Branch(Condition::Always, vec![
        SignalFormTree::Branch(Condition::AllAscii, vec![SignalFormTree::Leaf(FormKind::Ascii)]),
        SignalFormTree::Branch(Condition::LengthIs(32), vec![SignalFormTree::Leaf(FormKind::Sha256)]),
    ]);
    assert_eq!(t.process(&vec![b'z'; 32]), Some(Form::Ascii("z".repeat(32))));
    assert_eq!(t.process(&vec![0xee; 32]), Some(Form::Sha256([0xee; 32])));
    assert_eq!(t.process(&vec![0xee; 3]), None);
}

#[test]
fn empty_branch_gives_nothing() {
    let t = SignalFormTree::Branch(Condition::Always, vec![]);
    assert_eq!(t.process(&vec![1, 2]), None);
}

#[test]
fn leaf_always_builds() {
    let t = SignalFormTree::Leaf(FormKind::Binary);
    assert_eq!(t.process(&vec![]), Some(Form::Binary(vec![])));
}

#[test]
fn conditions_and_leaves() {
    assert!(check(Condition::Always, &vec![]));
    assert!(check(Condition::LengthIs(2), &vec![1, 2]));
    assert!(!check(Condition::LengthIs(3), &vec![1, 2]));
    assert!(check(Condition::AllAscii, &vec![0, 127]));
    assert!(!check(Condition::AllAscii, &vec![0, 128]));
    assert_eq!(build(FormKind::Binary, &vec![7]), Form::Binary(vec![7]));
    assert_eq!(build(FormKind::Ascii, &b"A".to_vec()), Form::Ascii("A".to_string()));
}

#[test]
fn digest_leaf_alone_processes_thirty_two_bytes() {
    let t = SignalFormTree::Leaf(FormKind::Sha256);
    assert_eq!(t.process(&vec![4u8; 32]), Some(Form::Sha256([4u8; 32])));
}

#[test]
fn ascii_leaf_keeps_the_characters() {
    assert_eq!(build(FormKind::Ascii, &vec![b'a'; 40]), Form::Ascii("a".repeat(40)));
    assert_eq!(build(FormKind::Ascii, &vec![b'h', 0xff, b'i']), Form::Ascii("h\u{fffd}i".to_string()));
}
