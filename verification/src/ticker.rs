use vstd::prelude::*;

use crate::config::Config;

verus! {

/// How many periodic actions a replica-scope scheduler tracks.
pub const REPLICA_TICK_COUNT: usize = 5;

/// How many periodic actions a node-scope scheduler tracks.
pub const STORE_TICK_COUNT: usize = 2;

/// Identifies one periodic action of a replica-scope scheduler.
///
/// Each identifier is bound to a fixed slot of the owning scheduler's record
/// sequence. Replica-scope and node-scope identifiers are disjoint namespaces:
/// a `PeerTick` must never be used against a node-scope scheduler.
#[derive(Clone, Copy)]
pub enum PeerTick {
    /// Protocol-progress advancement; its interval is fixed at `1`, so it
    /// fires on every loop iteration once armed.
    Raft,
    /// Log garbage collection.
    RaftLogGc,
    /// Split-region checking.
    SplitCheck,
    /// Heartbeat to the coordinator.
    PdHeartbeat,
    /// Stale-state detection.
    StaleStateCheck,
}

impl PeerTick {
    /// The record slot this identifier is bound to.
    pub open spec fn spec_idx(self) -> int {
        match self {
            PeerTick::Raft => 0,
            PeerTick::RaftLogGc => 1,
            PeerTick::SplitCheck => 2,
            PeerTick::PdHeartbeat => 3,
            PeerTick::StaleStateCheck => 4,
        }
    }

    /// The record slot this identifier is bound to.
    pub fn idx(self) -> (i: usize)
        ensures
            i == self.spec_idx(),
    {
        match self {
            PeerTick::Raft => 0,
            PeerTick::RaftLogGc => 1,
            PeerTick::SplitCheck => 2,
            PeerTick::PdHeartbeat => 3,
            PeerTick::StaleStateCheck => 4,
        }
    }
}

/// Identifies one periodic action of a node-scope scheduler.
///
/// A `StoreTick` must never be used against a replica-scope scheduler.
#[derive(Clone, Copy, PartialEq, Eq)]
pub enum StoreTick {
    /// Heartbeat from the node to the coordinator.
    PdHeartbeat,
    /// Consistency checking.
    ConsistencyCheck,
}

impl StoreTick {
    /// The record slot this identifier is bound to.
    pub open spec fn spec_idx(self) -> int {
        match self {
            StoreTick::PdHeartbeat => 0,
            StoreTick::ConsistencyCheck => 1,
        }
    }

    /// The record slot this identifier is bound to.
    pub fn idx(self) -> (i: usize)
        ensures
            i == self.spec_idx(),
    {
        match self {
            StoreTick::PdHeartbeat => 0,
            StoreTick::ConsistencyCheck => 1,
        }
    }
}

/// The recurrence record of one periodic action.
///
/// `run_at` is the absolute tick at which the action next fires, with `0`
/// meaning "not armed"; `interval` is the recurrence period in ticks, with `0`
/// meaning the action is permanently disabled.
pub struct TickSchedule {
    run_at: u64,
    interval: u64,
}

/// The mathematical model of one recurrence record.
pub struct RecordView {
    /// The absolute tick at which the action next fires; `0` means unarmed.
    pub run_at: u64,
    /// The recurrence period in ticks; `0` means permanently disabled.
    pub interval: u64,
}

impl View for TickSchedule {
    type V = RecordView;

    closed spec fn view(&self) -> RecordView {
        RecordView { run_at: self.run_at, interval: self.interval }
    }
}

impl TickSchedule {
    /// A fresh record with the given period, not yet armed.
    pub fn new(interval: u64) -> (s: Self)
        ensures
            s@ == (RecordView { run_at: 0, interval }),
    {
        Self { run_at: 0, interval }
    }
}

/// The mathematical model of a scheduler: its owner, the current logical tick,
/// and one recurrence record per action.
#[verifier::ext_equal]
pub struct TickerView {
    /// The owning replica (non-zero) or the node itself (zero).
    pub region_id: u64,
    /// The current logical tick.
    pub tick: u64,
    /// One record per action identifier, indexed by the identifier's slot.
    pub records: Seq<RecordView>,
}

impl TickerView {
    /// Action `k` is due exactly when its record's due tick equals the current
    /// tick.
    pub open spec fn is_due(self, k: int) -> bool {
        self.records[k].run_at == self.tick
    }

    /// A replica-scope scheduler holds one record per replica-scope action.
    pub open spec fn replica_scope(self) -> bool {
        self.records.len() == REPLICA_TICK_COUNT
    }

    /// A node-scope scheduler holds one record per node-scope action.
    pub open spec fn store_scope(self) -> bool {
        self.records.len() == STORE_TICK_COUNT
    }

    /// The invariant every scheduler maintains: a permanently disabled action
    /// (zero interval) is never armed.
    pub open spec fn wf(self) -> bool {
        forall|k: int|
            0 <= k < self.records.len() ==> ((#[trigger] self.records[k]).interval == 0
                ==> self.records[k].run_at == 0)
    }
}

/// The derived recurrence interval: the configured duration divided by the
/// base tick duration, truncating any remainder.
pub open spec fn derived_interval(duration: u64, base: u64) -> u64 {
    duration / base
}

/// The model state of a freshly constructed replica-scope scheduler: the clock
/// starts at tick `1`, the protocol record fires every tick once armed, every
/// other record's interval is derived from the configuration, and nothing is
/// armed yet.
pub open spec fn replica_init(region_id: u64, cfg: Config) -> TickerView {
    TickerView {
        region_id,
        tick: 1,
        records: seq![
            RecordView { run_at: 0, interval: 1 },
            RecordView {
                run_at: 0,
                interval: derived_interval(cfg.raft_log_gc_tick_interval, cfg.raft_base_tick_interval),
            },
            RecordView {
                run_at: 0,
                interval: derived_interval(
                    cfg.split_region_check_tick_interval,
                    cfg.raft_base_tick_interval,
                ),
            },
            RecordView {
                run_at: 0,
                interval: derived_interval(cfg.pd_heartbeat_tick_interval, cfg.raft_base_tick_interval),
            },
            RecordView {
                run_at: 0,
                interval: derived_interval(
                    cfg.peer_stale_state_check_interval,
                    cfg.raft_base_tick_interval,
                ),
            },
        ],
    }
}

/// The model state of a freshly constructed node-scope scheduler: the clock
/// starts at tick `0` (a historical asymmetry with the replica scope,
/// preserved deliberately), the owner is the node itself, and nothing is armed
/// yet.
pub open spec fn store_init(cfg: Config) -> TickerView {
    TickerView {
        region_id: 0,
        tick: 0,
        records: seq![
            RecordView {
                run_at: 0,
                interval: derived_interval(
                    cfg.pd_store_heartbeat_tick_interval,
                    cfg.raft_base_tick_interval,
                ),
            },
            RecordView {
                run_at: 0,
                interval: derived_interval(cfg.consistency_check_interval, cfg.raft_base_tick_interval),
            },
        ],
    }
}

/// The due tick written by arming a record at the given tick: a disabled
/// record (zero interval) stays unarmed, and any other action next fires
/// `interval` ticks from now.
pub open spec fn rearmed_run_at(tick: u64, interval: u64) -> u64 {
    if interval == 0 {
        0
    } else {
        (tick + interval) as u64
    }
}

/// `b` is `a` after `n` clock advances: the same owner and the same records,
/// with the tick greater by exactly `n`.
pub open spec fn advanced_by(a: TickerView, b: TickerView, n: nat) -> bool {
    &&& b.region_id == a.region_id
    &&& b.records == a.records
    &&& b.tick == a.tick + n
}

/// A logical-tick scheduler for one replica or for the node as a whole.
///
/// It is driven by one control loop, one call at a time, in the fixed order:
/// advance the clock, query which actions are due, re-arm any that fired.
pub struct Ticker {
    region_id: u64,
    tick: u64,
    schedules: Vec<TickSchedule>,
}

impl View for Ticker {
    type V = TickerView;

    closed spec fn view(&self) -> TickerView {
        TickerView {
            region_id: self.region_id,
            tick: self.tick,
            records: self.schedules@.map_values(|s: TickSchedule| s@),
        }
    }
}

impl Ticker {
    /// Builds the scheduler for one replica, deriving each action's interval
    /// from the configuration. The base duration must be positive, since the
    /// derivation divides by it.
    pub fn new(region_id: u64, config: &Config) -> (t: Self)
        requires
            config.raft_base_tick_interval > 0,
        ensures
            t@ == replica_init(region_id, *config),
            t@.wf(),
    {
        let base_interval = config.raft_base_tick_interval;
        let mut schedules: Vec<TickSchedule> = Vec::new();
        schedules.push(TickSchedule::new(1));
        schedules.push(TickSchedule::new(config.raft_log_gc_tick_interval / base_interval));
        schedules.push(TickSchedule::new(config.split_region_check_tick_interval / base_interval));
        schedules.push(TickSchedule::new(config.pd_heartbeat_tick_interval / base_interval));
        schedules.push(TickSchedule::new(config.peer_stale_state_check_interval / base_interval));
        let t = Ticker { region_id, tick: 1, schedules };
        proof {
            assert(t@ =~= replica_init(region_id, *config));
        }
        t
    }

    /// Builds the scheduler for the node as a whole, deriving each action's
    /// interval from the configuration. The base duration must be positive,
    /// since the derivation divides by it.
    pub fn new_store(config: &Config) -> (t: Self)
        requires
            config.raft_base_tick_interval > 0,
        ensures
            t@ == store_init(*config),
            t@.wf(),
    {
        let base_interval = config.raft_base_tick_interval;
        let mut schedules: Vec<TickSchedule> = Vec::new();
        schedules.push(TickSchedule::new(config.pd_store_heartbeat_tick_interval / base_interval));
        schedules.push(TickSchedule::new(config.consistency_check_interval / base_interval));
        let t = Ticker { region_id: 0, tick: 0, schedules };
        proof {
            assert(t@ =~= store_init(*config));
        }
        t
    }

    /// Advances the logical clock by exactly one tick. The counter only ever
    /// grows; a 64-bit tick leaves no practical wraparound horizon, and the
    /// precondition records the limit explicitly.
    pub fn tick_clock(&mut self)
        requires
            old(self)@.tick < u64::MAX,
        ensures
            advanced_by(old(self)@, final(self)@, 1),
            final(self)@.tick == old(self)@.tick + 1,
    {
        self.tick = self.tick + 1;
    }

    /// Re-arms the record addressed by `tick`: a permanently disabled action
    /// (zero interval) stays unarmed, and any other action next fires
    /// `interval` ticks from now. This is the only mutator of a due tick
    /// besides construction; the driver calls it after an action runs, or
    /// right after construction to arm the action for the first time.
    ///
    /// The identifier must be scope-correct: addressing a record that the
    /// instance does not have is a driver defect, not a runtime condition.
    pub fn schedule(&mut self, tick: PeerTick)
        requires
            old(self)@.replica_scope(),
            old(self)@.tick + old(self)@.records[tick.spec_idx()].interval <= u64::MAX,
        ensures
            final(self)@.region_id == old(self)@.region_id,
            final(self)@.tick == old(self)@.tick,
            final(self)@.records == old(self)@.records.update(
                tick.spec_idx(),
                (RecordView {
                    run_at: rearmed_run_at(
                        old(self)@.tick,
                        old(self)@.records[tick.spec_idx()].interval,
                    ),
                    interval: old(self)@.records[tick.spec_idx()].interval,
                }),
            ),
            old(self)@.wf() ==> final(self)@.wf(),
    {
        let i = tick.idx();
        let interval = self.schedules[i].interval;
        let run_at: u64 = if interval == 0 {
            0
        } else {
            self.tick + interval
        };
        self.schedules.set(i, TickSchedule { run_at, interval });
        proof {
            assert(self@.records =~= old(self)@.records.update(
                tick.spec_idx(),
                (RecordView {
                    run_at: rearmed_run_at(
                        old(self)@.tick,
                        old(self)@.records[tick.spec_idx()].interval,
                    ),
                    interval: old(self)@.records[tick.spec_idx()].interval,
                }),
            ));
        }
    }

    /// Reports whether the addressed action is due at the current tick: true
    /// exactly when its record's due tick equals the current tick. A pure
    /// query with no side effects.
    pub fn is_on_tick(&self, tick: PeerTick) -> (due: bool)
        requires
            self@.replica_scope(),
        ensures
            due == self@.is_due(tick.spec_idx()),
    {
        let i = tick.idx();
        self.schedules[i].run_at == self.tick
    }

    /// Re-arms the record addressed by `tick`, exactly as [`Self::schedule`]
    /// does for replica-scope actions.
    pub fn schedule_store(&mut self, tick: StoreTick)
        requires
            old(self)@.store_scope(),
            old(self)@.tick + old(self)@.records[tick.spec_idx()].interval <= u64::MAX,
        ensures
            final(self)@.region_id == old(self)@.region_id,
            final(self)@.tick == old(self)@.tick,
            final(self)@.records == old(self)@.records.update(
                tick.spec_idx(),
                (RecordView {
                    run_at: rearmed_run_at(
                        old(self)@.tick,
                        old(self)@.records[tick.spec_idx()].interval,
                    ),
                    interval: old(self)@.records[tick.spec_idx()].interval,
                }),
            ),
            old(self)@.wf() ==> final(self)@.wf(),
    {
        let i = tick.idx();
        let interval = self.schedules[i].interval;
        let run_at: u64 = if interval == 0 {
            0
        } else {
            self.tick + interval
        };
        self.schedules.set(i, TickSchedule { run_at, interval });
        proof {
            assert(self@.records =~= old(self)@.records.update(
                tick.spec_idx(),
                (RecordView {
                    run_at: rearmed_run_at(
                        old(self)@.tick,
                        old(self)@.records[tick.spec_idx()].interval,
                    ),
                    interval: old(self)@.records[tick.spec_idx()].interval,
                }),
            ));
        }
    }

    /// Reports whether the addressed action is due at the current tick,
    /// exactly as [`Self::is_on_tick`] does for replica-scope actions.
    pub fn is_on_store_tick(&self, tick: StoreTick) -> (due: bool)
        requires
            self@.store_scope(),
        ensures
            due == self@.is_due(tick.spec_idx()),
    {
        let i = tick.idx();
        self.schedules[i].run_at == self.tick
    }

    /// The current logical tick.
    pub fn current_tick(&self) -> (t: u64)
        ensures
            t == self@.tick,
    {
        self.tick
    }

    /// The owning replica (non-zero), or `0` for the node-scope instance.
    pub fn region_id(&self) -> (id: u64)
        ensures
            id == self@.region_id,
    {
        self.region_id
    }
}

/// Law: an action with a positive interval, armed at some tick, fires exactly
/// once per arming. At any state the clock later reaches, the action is due
/// exactly when the number of advances since arming equals the interval:
/// false at every tick strictly between the arming tick and the due tick,
/// true at the due tick itself, and false at every later tick until the
/// action is re-armed.
pub proof fn lemma_armed_fires_exactly_once(armed: TickerView, later: TickerView, k: int, n: nat)
    requires
        0 <= k < armed.records.len(),
        armed.records[k].interval > 0,
        armed.records[k].run_at == armed.tick + armed.records[k].interval,
        advanced_by(armed, later, n),
    ensures
        later.is_due(k) <==> n == armed.records[k].interval,
{
}

/// Law: a permanently disabled action (zero interval) is never due in a
/// well-formed scheduler once the clock has reached tick `1` — in particular,
/// in every reachable replica-scope state, whose clock starts at `1` and only
/// grows. (A node-scope scheduler starts at tick `0`, where an unarmed
/// record's sentinel due tick of `0` makes every unarmed action appear due;
/// that boundary state is inherited behavior, exercised in the tests.)
pub proof fn lemma_disabled_never_due(s: TickerView, k: int)
    requires
        s.wf(),
        0 <= k < s.records.len(),
        s.records[k].interval == 0,
        s.tick >= 1,
    ensures
        !s.is_due(k),
{
}

/// Law: clock advances accumulate — `m` advances followed by `n` more are
/// exactly `m + n` advances — and the tick never decreases.
pub proof fn lemma_advances_accumulate(
    a: TickerView,
    b: TickerView,
    c: TickerView,
    m: nat,
    n: nat,
)
    requires
        advanced_by(a, b, m),
        advanced_by(b, c, n),
    ensures
        advanced_by(a, c, m + n),
        c.tick >= a.tick,
{
}

/// Law: a configured duration that is an exact multiple of the base tick
/// duration derives exactly that multiple as the action's interval. In
/// particular, a log-GC duration of `k` times the base duration yields `k` as
/// the log-GC record's interval at construction.
pub proof fn lemma_exact_multiple_interval(region_id: u64, cfg: Config, k: u64)
    requires
        cfg.raft_base_tick_interval > 0,
        cfg.raft_log_gc_tick_interval == k * cfg.raft_base_tick_interval,
    ensures
        replica_init(region_id, cfg).records[PeerTick::RaftLogGc.spec_idx()].interval == k,
{
    assert(cfg.raft_log_gc_tick_interval / cfg.raft_base_tick_interval == k) by (nonlinear_arith)
        requires
            cfg.raft_base_tick_interval > 0,
            cfg.raft_log_gc_tick_interval == k * cfg.raft_base_tick_interval,
    ;
}

/// Law: scheduler instances are isolated. An instance's whole model state is
/// a function of its construction inputs alone, so two instances built from
/// the same configuration start in the same state and agree on every query.
/// Every operation borrows the one instance it is applied to exclusively, and
/// its contract constrains only that instance, so no instance ever observes
/// another's calls.
pub proof fn lemma_same_inputs_same_state(
    a: TickerView,
    b: TickerView,
    region_id: u64,
    cfg: Config,
)
    requires
        a == replica_init(region_id, cfg),
        b == replica_init(region_id, cfg),
    ensures
        a == b,
        forall|k: int| 0 <= k < a.records.len() ==> (#[trigger] a.is_due(k) <==> b.is_due(k)),
{
}

} // verus!
