use pulse::network::{RootCommand, RootState, SignalRootNetwork};

#[test]
fn activating_twice_starts_one_worker() {
    let mut n = SignalRootNetwork::new();
    n.add_root();
    assert_eq!(n.activate_root(0), RootCommand::Start(0));
    assert_eq!(n.activate_root(0), RootCommand::Nothing);
    assert_eq!(n.state(0), RootState::Active(0));
}

#[test]
fn restart_uses_a_fresh_generation() {
    let mut n = SignalRootNetwork::new();
    n.add_root();
    assert_eq!(n.activate_root(0), RootCommand::Start(0));
    assert_eq!(n.deactivate_root(0), RootCommand::Stop(0));
    assert!(!n.is_live(0));
    assert_eq!(n.state(0), RootState::Registered);
    assert_eq!(n.activate_root(0), RootCommand::Start(1));
    assert!(n.is_live(1));
    assert!(!n.is_live(0));
}

#[test]
fn two_roots_run_side_by_side() {
    let mut n = SignalRootNetwork::new();
    n.add_root();
    n.add_root();
    assert_eq!(n.activate_root(1), RootCommand::Start(0));
    assert_eq!(n.activate_root(0), RootCommand::Start(1));
    assert!(n.is_live(0) && n.is_live(1));
    assert_eq!(n.len(), 2);
}

#[test]
fn deactivating_an_inactive_or_missing_root_does_nothing() {
    let mut n = SignalRootNetwork::new();
    assert_eq!(n.deactivate_root(0), RootCommand::Nothing);
    n.add_root();
    assert_eq!(n.deactivate_root(0), RootCommand::Nothing);
    assert_eq!(n.deactivate_root(5), RootCommand::Nothing);
}

#[test]
fn removing_stops_and_shifts() {
    let mut n = SignalRootNetwork::new();
    n.add_root();
    n.add_root();
    n.add_root();
    assert_eq!(n.activate_root(1), RootCommand::Start(0));
    assert_eq!(n.activate_root(2), RootCommand::Start(1));
    assert_eq!(n.remove_root(1), RootCommand::Stop(0));
    assert_eq!(n.len(), 2);
    assert_eq!(n.state(0), RootState::Registered);
    assert_eq!(n.state(1), RootState::Active(1));
    assert!(!n.is_live(0));
    assert_eq!(n.remove_root(0), RootCommand::Nothing);
    assert_eq!(n.len(), 1);
}
