use pulse::ledger::PresenceMap;
use pulse::signal::Sighting;
use pulse::teacher::{find_teacher, select_teacher, socket_eq};

const A: [u8; 18] = [0xaa; 18];
const B: [u8; 18] = [0xbb; 18];
const C: [u8; 18] = [0xcc; 18];

fn seen(socket: [u8; 18], time: i64) -> Sighting {
    Sighting { socket, time }
}

#[test]
fn more_observations_beat_a_later_one() {
    let mut p = PresenceMap::new();
    let h = [1u8; 32];
    p.commit(h, seen(A, 1));
    p.commit(h, seen(A, 3));
    p.commit(h, seen(B, 5));
    assert_eq!(find_teacher(&p, h), Some(A));
}

#[test]
fn equal_count_and_time_is_deterministic() {
    let mut p = PresenceMap::new();
    let h = [2u8; 32];
    p.commit(h, seen(A, 1));
    p.commit(h, seen(B, 1));
    let first = find_teacher(&p, h);
    assert_eq!(first, Some(A));
    for _ in 0..10 {
        assert_eq!(find_teacher(&p, h), first);
    }
    let reversed = vec![seen(B, 1), seen(A, 1)];
    assert_eq!(select_teacher(&reversed), Some(B));
    assert_eq!(select_teacher(&reversed), Some(B));
}

#[test]
fn no_presence_history_gives_no_teacher() {
    let mut p = PresenceMap::new();
    assert_eq!(find_teacher(&p, [3u8; 32]), None);
    p.commit([4u8; 32], seen(A, 1));
    assert_eq!(find_teacher(&p, [3u8; 32]), None);
    assert_eq!(select_teacher(&vec![]), None);
}

#[test]
fn equal_counts_go_to_the_latest() {
    let obs = vec![seen(A, 9), seen(B, 4), seen(C, 2), seen(B, 10), seen(A, 1), seen(C, 11)];
    assert_eq!(select_teacher(&obs), Some(C));
}

#[test]
fn latest_is_the_maximum_not_the_last() {
    let obs = vec![seen(A, 100), seen(A, 1), seen(B, 50), seen(B, 2)];
    assert_eq!(select_teacher(&obs), Some(A));
}

#[test]
fn negative_and_extreme_times() {
    let obs = vec![seen(A, i64::MIN), seen(B, -5)];
    assert_eq!(select_teacher(&obs), Some(B));
    let obs = vec![seen(A, i64::MIN)];
    assert_eq!(select_teacher(&obs), Some(A));
}

#[test]
fn sockets_compare_bytewise() {
    assert!(socket_eq(&A, &A));
    let mut d = A;
    d[17] = 0;
    assert!(!socket_eq(&A, &d));
}
