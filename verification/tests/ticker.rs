use tick_scheduler::config::Config;
use tick_scheduler::ticker::{PeerTick, StoreTick, Ticker};

fn config(
    base: u64,
    log_gc: u64,
    split: u64,
    heartbeat: u64,
    stale: u64,
    store_heartbeat: u64,
    consistency: u64,
) -> Config {
    Config {
        raft_base_tick_interval: base,
        raft_log_gc_tick_interval: log_gc,
        split_region_check_tick_interval: split,
        pd_heartbeat_tick_interval: heartbeat,
        peer_stale_state_check_interval: stale,
        pd_store_heartbeat_tick_interval: store_heartbeat,
        consistency_check_interval: consistency,
    }
}

#[test]
fn construction_initial_state() {
    let cfg = config(100, 1000, 250, 100, 0, 300, 0);
    let replica = Ticker::new(7, &cfg);
    assert_eq!(replica.current_tick(), 1);
    assert_eq!(replica.region_id(), 7);
    let store = Ticker::new_store(&cfg);
    assert_eq!(store.current_tick(), 0);
    assert_eq!(store.region_id(), 0);
}

#[test]
fn clock_advances_by_one_per_call() {
    let cfg = config(100, 1000, 250, 100, 0, 300, 0);
    let mut t = Ticker::new(1, &cfg);
    for expected in 2..=10u64 {
        t.tick_clock();
        assert_eq!(t.current_tick(), expected);
    }
    let mut s = Ticker::new_store(&cfg);
    s.tick_clock();
    s.tick_clock();
    s.tick_clock();
    assert_eq!(s.current_tick(), 3);
}

#[test]
fn exact_multiple_duration_fires_after_that_many_ticks() {
    // base 100ms, log-GC 1000ms: derived interval 10. Armed at tick 1, the
    // action is due exactly at tick 11.
    let cfg = config(100, 1000, 250, 100, 0, 300, 0);
    let mut t = Ticker::new(2, &cfg);
    t.schedule(PeerTick::RaftLogGc);
    assert!(!t.is_on_tick(PeerTick::RaftLogGc));
    for _ in 0..9 {
        t.tick_clock();
        assert!(!t.is_on_tick(PeerTick::RaftLogGc));
    }
    assert_eq!(t.current_tick(), 10);
    t.tick_clock();
    assert_eq!(t.current_tick(), 11);
    assert!(t.is_on_tick(PeerTick::RaftLogGc));
}

#[test]
fn armed_action_fires_exactly_once() {
    let cfg = config(100, 1000, 250, 100, 0, 300, 0);
    let mut t = Ticker::new(2, &cfg);
    t.schedule(PeerTick::RaftLogGc);
    for _ in 0..10 {
        t.tick_clock();
    }
    assert!(t.is_on_tick(PeerTick::RaftLogGc));
    // Without re-arming, the action is never due again.
    for _ in 0..20 {
        t.tick_clock();
        assert!(!t.is_on_tick(PeerTick::RaftLogGc));
    }
}

#[test]
fn protocol_record_fires_every_tick_once_armed() {
    let cfg = config(100, 1000, 250, 100, 0, 300, 0);
    let mut t = Ticker::new(3, &cfg);
    // The protocol record's interval is fixed at 1: arm, advance, due; again.
    for _ in 0..5 {
        t.schedule(PeerTick::Raft);
        assert!(!t.is_on_tick(PeerTick::Raft));
        t.tick_clock();
        assert!(t.is_on_tick(PeerTick::Raft));
    }
}

#[test]
fn interval_derivation_truncates() {
    // 250ms over a 100ms base truncates to an interval of 2, not 3.
    let cfg = config(100, 1000, 250, 100, 0, 300, 0);
    let mut t = Ticker::new(4, &cfg);
    t.schedule(PeerTick::SplitCheck);
    t.tick_clock();
    assert_eq!(t.current_tick(), 2);
    assert!(!t.is_on_tick(PeerTick::SplitCheck));
    t.tick_clock();
    assert_eq!(t.current_tick(), 3);
    assert!(t.is_on_tick(PeerTick::SplitCheck));
}

#[test]
fn zero_interval_action_never_fires_under_replica_scope() {
    // A configured duration of 0 derives an interval of 0: permanently
    // disabled, and never due at any replica-scope tick.
    let cfg = config(100, 0, 250, 100, 0, 300, 0);
    let mut t = Ticker::new(5, &cfg);
    t.schedule(PeerTick::RaftLogGc);
    assert!(!t.is_on_tick(PeerTick::RaftLogGc));
    for _ in 0..50 {
        t.tick_clock();
        t.schedule(PeerTick::RaftLogGc);
        assert!(!t.is_on_tick(PeerTick::RaftLogGc));
    }
}

#[test]
fn duration_shorter_than_base_disables_the_action() {
    // 50ms over a 100ms base truncates to 0: the action is disabled.
    let cfg = config(100, 50, 250, 100, 0, 300, 0);
    let mut t = Ticker::new(6, &cfg);
    t.schedule(PeerTick::RaftLogGc);
    for _ in 0..30 {
        t.tick_clock();
        assert!(!t.is_on_tick(PeerTick::RaftLogGc));
    }
}

#[test]
fn store_scope_tick_zero_boundary() {
    // Known edge: the node-scope clock starts at 0, so an unarmed record's
    // sentinel due tick of 0 makes the action appear due before its first
    // scheduling — even one whose interval is 0. One advance clears it.
    let cfg = config(100, 1000, 250, 100, 0, 300, 0);
    let mut s = Ticker::new_store(&cfg);
    assert!(s.is_on_store_tick(StoreTick::PdHeartbeat));
    assert!(s.is_on_store_tick(StoreTick::ConsistencyCheck));
    s.schedule_store(StoreTick::ConsistencyCheck);
    // The consistency record's interval is 0 here, so scheduling keeps it
    // unarmed, and at tick 0 it still appears due.
    assert!(s.is_on_store_tick(StoreTick::ConsistencyCheck));
    s.tick_clock();
    assert!(!s.is_on_store_tick(StoreTick::PdHeartbeat));
    for _ in 0..20 {
        s.schedule_store(StoreTick::ConsistencyCheck);
        assert!(!s.is_on_store_tick(StoreTick::ConsistencyCheck));
        s.tick_clock();
    }
}

#[test]
fn store_scheduler_fires_on_schedule() {
    // base 100ms, node heartbeat 300ms: derived interval 3. Armed at tick 0,
    // the action is due exactly at tick 3.
    let cfg = config(100, 1000, 250, 100, 0, 300, 0);
    let mut s = Ticker::new_store(&cfg);
    s.schedule_store(StoreTick::PdHeartbeat);
    assert!(!s.is_on_store_tick(StoreTick::PdHeartbeat));
    s.tick_clock();
    assert!(!s.is_on_store_tick(StoreTick::PdHeartbeat));
    s.tick_clock();
    assert!(!s.is_on_store_tick(StoreTick::PdHeartbeat));
    s.tick_clock();
    assert!(s.is_on_store_tick(StoreTick::PdHeartbeat));
    s.tick_clock();
    assert!(!s.is_on_store_tick(StoreTick::PdHeartbeat));
}

#[test]
fn instances_do_not_observe_each_other() {
    let cfg = config(100, 1000, 250, 100, 400, 300, 0);
    let mut a = Ticker::new(1, &cfg);
    let mut b = Ticker::new(1, &cfg);
    a.schedule(PeerTick::PdHeartbeat);
    for _ in 0..7 {
        a.tick_clock();
    }
    // b has seen none of a's calls.
    assert_eq!(b.current_tick(), 1);
    assert!(!b.is_on_tick(PeerTick::PdHeartbeat));
    // Driven identically from here on, both answer identically.
    b.schedule(PeerTick::StaleStateCheck);
    a.schedule(PeerTick::StaleStateCheck);
    for _ in 0..4 {
        a.tick_clock();
        b.tick_clock();
    }
    assert_eq!(b.current_tick(), 5);
    assert_eq!(a.current_tick(), 12);
    assert!(b.is_on_tick(PeerTick::StaleStateCheck));
    assert!(a.is_on_tick(PeerTick::StaleStateCheck));
}
