use vstd::prelude::*;

verus! {

/// The configured durations that a scheduler is built from, all expressed in
/// the same unit (milliseconds).
///
/// `raft_base_tick_interval` is the length of one logical tick. At
/// construction time each action's recurrence interval is derived by dividing
/// that action's duration by the base duration, truncating any remainder; a
/// duration shorter than the base therefore derives an interval of `0`, which
/// permanently disables the action.
#[derive(Clone, Copy)]
pub struct Config {
    /// The length of one logical tick.
    pub raft_base_tick_interval: u64,
    /// How often the replica's log is garbage-collected (replica scope).
    pub raft_log_gc_tick_interval: u64,
    /// How often the region is checked for splitting (replica scope).
    pub split_region_check_tick_interval: u64,
    /// How often the replica reports to the coordinator (replica scope).
    pub pd_heartbeat_tick_interval: u64,
    /// How often the peer is checked for stale state (replica scope).
    pub peer_stale_state_check_interval: u64,
    /// How often the node reports to the coordinator (node scope).
    pub pd_store_heartbeat_tick_interval: u64,
    /// How often the node runs a consistency check (node scope).
    pub consistency_check_interval: u64,
}

} // verus!
