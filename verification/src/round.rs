use vstd::prelude::*;
use vstd::string::StringExecFns;
use crate::config::StaticConfigParams;
use crate::policy::round_gates;

verus! {

/// Terminal outcome of one maintenance round. Soft failures never surface
/// here: a round either continues the loop or is fatal for the whole node.
#[derive(Debug)]
pub enum Outcome {
    Continue,
    Fatal(String),
}

/// A named metric value recorded through the telemetry sink.
#[derive(Debug)]
pub enum MetricValue {
    DhtConnectedPeers(u64),
    /// Bit pattern of the confidence fraction, carried through unchanged.
    BlockConfidenceThreshold(u64),
    DhtReplicationFactor(u16),
    DhtQueryTimeout(u32),
    Up,
}

/// The capability call a round is waiting on next. `Prune` and `Flush` are
/// soft, the rest are hard.
#[derive(Clone, Copy, PartialEq, Eq, Structural, Debug)]
pub enum ActionKind {
    Prune,
    Flush,
    Shrink,
    ReadMapSize,
    CountEntries,
    ListPeers,
}

/// The hard action whose failure ended a round.
#[derive(Clone, Copy, PartialEq, Eq, Structural, Debug)]
pub enum HardAction {
    Shrink,
    ReadMapSize,
    CountEntries,
    ListPeers,
}

/// The result of one capability call, handed back by the driver. Soft
/// results carry their error only so the driver can log it; they never
/// change what the round does next.
#[derive(Debug)]
pub enum ActionResult {
    /// Pruning finished with a count of pruned records, or failed (soft).
    Pruned(Result<u64, String>),
    /// Metrics flushing finished or failed (soft).
    Flushed(Result<(), String>),
    /// Routing-map shrink finished or failed (hard).
    Shrunk(Result<(), String>),
    /// Routing-map size read, or failed (hard).
    MapSize(Result<u64, String>),
    /// Total peers and peers with a public address counted, or failed (hard).
    DhtEntries(Result<(u64, u64), String>),
    /// Connected peers listed (the listing itself is only logged), or failed
    /// (hard).
    PeersListed(Result<(), String>),
}

/// Where a round stands: the soft steps in gate order, then the four hard
/// steps in their fixed order, then one of the two terminal steps.
#[derive(Debug)]
pub enum RoundStep {
    Prune { flush_due: bool },
    Flush,
    Shrink,
    ReadMapSize,
    CountEntries { map_size: u64 },
    ListPeers { map_size: u64, peers: u64, public_peers: u64 },
    /// All hard actions succeeded; telemetry is due and the outcome is
    /// `Continue`.
    Completed { map_size: u64, peers: u64, public_peers: u64 },
    /// A hard action failed; the round is fatal and nothing further runs.
    Failed { action: HardAction, error: String },
}

/// One maintenance round for one block. The driver asks `requested` which
/// capability to call, performs it, and feeds the result back through
/// `step`, until no action is requested.
#[derive(Debug)]
pub struct Round {
    pub block_number: u32,
    pub step: RoundStep,
}

/// The first step of a round, given which gates fired: due soft actions
/// first, then the hard sequence.
pub open spec fn start_step(prune: bool, flush: bool) -> RoundStep {
    if prune {
        RoundStep::Prune { flush_due: flush }
    } else if flush {
        RoundStep::Flush
    } else {
        RoundStep::Shrink
    }
}

/// The round's transition function. A soft result moves on regardless of
/// success or failure; a hard result moves on only on success and otherwise
/// ends the round in `Failed`. A result of a kind the round is not waiting
/// on leaves it unchanged, as do results fed to a terminal step.
pub open spec fn step_spec(s: RoundStep, r: ActionResult) -> RoundStep {
    match (s, r) {
        (RoundStep::Prune { flush_due }, ActionResult::Pruned(_)) => if flush_due {
            RoundStep::Flush
        } else {
            RoundStep::Shrink
        },
        (RoundStep::Flush, ActionResult::Flushed(_)) => RoundStep::Shrink,
        (RoundStep::Shrink, ActionResult::Shrunk(res)) => match res {
            Ok(_) => RoundStep::ReadMapSize,
            Err(e) => RoundStep::Failed { action: HardAction::Shrink, error: e },
        },
        (RoundStep::ReadMapSize, ActionResult::MapSize(res)) => match res {
            Ok(size) => RoundStep::CountEntries { map_size: size },
            Err(e) => RoundStep::Failed { action: HardAction::ReadMapSize, error: e },
        },
        (RoundStep::CountEntries { map_size }, ActionResult::DhtEntries(res)) => match res {
            Ok(counts) => RoundStep::ListPeers {
                map_size,
                peers: counts.0,
                public_peers: counts.1,
            },
            Err(e) => RoundStep::Failed { action: HardAction::CountEntries, error: e },
        },
        (RoundStep::ListPeers { map_size, peers, public_peers }, ActionResult::PeersListed(res)) => match res {
            Ok(_) => RoundStep::Completed { map_size, peers, public_peers },
            Err(e) => RoundStep::Failed { action: HardAction::ListPeers, error: e },
        },
        (other, _) => other,
    }
}

/// The capability call a step waits on; `None` on the terminal steps.
pub open spec fn spec_requested(s: RoundStep) -> Option<ActionKind> {
    match s {
        RoundStep::Prune { .. } => Some(ActionKind::Prune),
        RoundStep::Flush => Some(ActionKind::Flush),
        RoundStep::Shrink => Some(ActionKind::Shrink),
        RoundStep::ReadMapSize => Some(ActionKind::ReadMapSize),
        RoundStep::CountEntries { .. } => Some(ActionKind::CountEntries),
        RoundStep::ListPeers { .. } => Some(ActionKind::ListPeers),
        RoundStep::Completed { .. } => None,
        RoundStep::Failed { .. } => None,
    }
}

/// The human-readable reason a hard failure surfaces with: shrink and
/// size-read failures are wrapped with a context phrase naming the action;
/// entry-count and peer-listing failures are propagated as they came.
pub open spec fn reason_spec(action: HardAction, err: Seq<char>) -> Seq<char> {
    match action {
        HardAction::Shrink => "unable to perform routing-map shrink: "@ + err,
        HardAction::ReadMapSize => "unable to get routing-map size: "@ + err,
        HardAction::CountEntries => err,
        HardAction::ListPeers => err,
    }
}

/// The telemetry recorded at the end of every completed round: the current
/// peer count, the three informational config values, and a liveness signal,
/// in that order.
pub open spec fn telemetry_seq(peers: u64, config: StaticConfigParams) -> Seq<MetricValue> {
    seq![
        MetricValue::DhtConnectedPeers(peers),
        MetricValue::BlockConfidenceThreshold(config.block_confidence_treshold),
        MetricValue::DhtReplicationFactor(config.replication_factor),
        MetricValue::DhtQueryTimeout(config.query_timeout),
        MetricValue::Up,
    ]
}

impl Round {
    /// Starts the round for one block: due soft actions come first, in gate
    /// order, and the hard sequence follows whatever the gates said.
    pub fn start(
        block_number: u32,
        config: StaticConfigParams,
        pruning_enabled: bool,
    ) -> (r: Round)
        requires
            config.wf(),
        ensures
            r.block_number == block_number,
            r.step == start_step(
                pruning_enabled && block_number % config.pruning_interval == 0,
                block_number % config.telemetry_flush_interval == 0,
            ),
    {
        let gates = round_gates(block_number, config, pruning_enabled);
        let step = if gates.prune {
            RoundStep::Prune { flush_due: gates.flush }
        } else if gates.flush {
            RoundStep::Flush
        } else {
            RoundStep::Shrink
        };
        Round { block_number, step }
    }

    /// Feeds one capability result into the round.
    pub fn step(self, result: ActionResult) -> (next: Round)
        ensures
            next.block_number == self.block_number,
            next.step == step_spec(self.step, result),
    {
        let block_number = self.block_number;
        let step = match (self.step, result) {
            (RoundStep::Prune { flush_due }, ActionResult::Pruned(_)) => if flush_due {
                RoundStep::Flush
            } else {
                RoundStep::Shrink
            },
            (RoundStep::Flush, ActionResult::Flushed(_)) => RoundStep::Shrink,
            (RoundStep::Shrink, ActionResult::Shrunk(res)) => match res {
                Ok(_) => RoundStep::ReadMapSize,
                Err(e) => RoundStep::Failed { action: HardAction::Shrink, error: e },
            },
            (RoundStep::ReadMapSize, ActionResult::MapSize(res)) => match res {
                Ok(size) => RoundStep::CountEntries { map_size: size },
                Err(e) => RoundStep::Failed { action: HardAction::ReadMapSize, error: e },
            },
            (RoundStep::CountEntries { map_size }, ActionResult::DhtEntries(res)) => match res {
                Ok(counts) => RoundStep::ListPeers {
                    map_size,
                    peers: counts.0,
                    public_peers: counts.1,
                },
                Err(e) => RoundStep::Failed { action: HardAction::CountEntries, error: e },
            },
            (
                RoundStep::ListPeers { map_size, peers, public_peers },
                ActionResult::PeersListed(res),
            ) => match res {
                Ok(_) => RoundStep::Completed { map_size, peers, public_peers },
                Err(e) => RoundStep::Failed { action: HardAction::ListPeers, error: e },
            },
            (other, _) => other,
        };
        Round { block_number, step }
    }

    /// The capability call to perform next, or `None` once the round is
    /// over.
    pub fn requested(&self) -> (a: Option<ActionKind>)
        ensures
            a == spec_requested(self.step),
    {
        match &self.step {
            RoundStep::Prune { .. } => Some(ActionKind::Prune),
            RoundStep::Flush => Some(ActionKind::Flush),
            RoundStep::Shrink => Some(ActionKind::Shrink),
            RoundStep::ReadMapSize => Some(ActionKind::ReadMapSize),
            RoundStep::CountEntries { .. } => Some(ActionKind::CountEntries),
            RoundStep::ListPeers { .. } => Some(ActionKind::ListPeers),
            RoundStep::Completed { .. } => None,
            RoundStep::Failed { .. } => None,
        }
    }

    /// The round's outcome: `Continue` when every hard action succeeded,
    /// `Fatal` with the formatted reason when one failed, `None` while the
    /// round is still in progress.
    pub fn outcome(&self) -> (o: Option<Outcome>)
        ensures
            self.step matches RoundStep::Completed { .. } ==> o == Some(Outcome::Continue),
            (self.step matches RoundStep::Failed { action, error } ==> (
                o matches Some(out) && out matches Outcome::Fatal(m)
                    && m@ == reason_spec(action, error@)
            )),
            spec_requested(self.step) is Some ==> o is None,
    {
        match &self.step {
            RoundStep::Completed { .. } => Some(Outcome::Continue),
            RoundStep::Failed { action, error } => Some(
                Outcome::Fatal(fatal_reason(*action, error)),
            ),
            _ => None,
        }
    }

    /// The telemetry to record, present exactly when the round completed all
    /// its hard steps; a failed or unfinished round reports nothing.
    pub fn telemetry(&self, config: StaticConfigParams) -> (t: Option<Vec<MetricValue>>)
        ensures
            (self.step matches RoundStep::Completed { peers, .. } ==> (
                t matches Some(v) && v@ == telemetry_seq(peers, config)
            )),
            !(self.step is Completed) ==> t is None,
    {
        match &self.step {
            RoundStep::Completed { peers, .. } => {
                let mut v: Vec<MetricValue> = Vec::new();
                v.push(MetricValue::DhtConnectedPeers(*peers));
                v.push(MetricValue::BlockConfidenceThreshold(config.block_confidence_treshold));
                v.push(MetricValue::DhtReplicationFactor(config.replication_factor));
                v.push(MetricValue::DhtQueryTimeout(config.query_timeout));
                v.push(MetricValue::Up);
                proof {
                    assert(v@ =~= telemetry_seq(*peers, config));
                }
                Some(v)
            },
            _ => None,
        }
    }
}

/// A round whose hard actions all succeed ends in `Completed` — the outcome
/// is `Continue` — whatever the gates decided and whatever the soft prune
/// and flush results were.
pub proof fn lemma_hard_success_continues(
    prune: bool,
    flush: bool,
    prune_result: Result<u64, String>,
    flush_result: Result<(), String>,
    map_size: u64,
    counts: (u64, u64),
)
    ensures
        ({
            let s0 = start_step(prune, flush);
            let s1 = if prune {
                step_spec(s0, ActionResult::Pruned(prune_result))
            } else {
                s0
            };
            let s2 = if flush {
                step_spec(s1, ActionResult::Flushed(flush_result))
            } else {
                s1
            };
            let s3 = step_spec(s2, ActionResult::Shrunk(Ok(())));
            let s4 = step_spec(s3, ActionResult::MapSize(Ok(map_size)));
            let s5 = step_spec(s4, ActionResult::DhtEntries(Ok(counts)));
            let s6 = step_spec(s5, ActionResult::PeersListed(Ok(())));
            s6 == (RoundStep::Completed {
                map_size,
                peers: counts.0,
                public_peers: counts.1,
            })
        }),
{
}

/// A hard step whose action fails, whatever came before it in the round.
pub open spec fn hard_failure(s: RoundStep, r: ActionResult) -> bool {
    ||| (s is Shrink && r matches ActionResult::Shrunk(Err(_)))
    ||| (s is ReadMapSize && r matches ActionResult::MapSize(Err(_)))
    ||| (s is CountEntries && r matches ActionResult::DhtEntries(Err(_)))
    ||| (s is ListPeers && r matches ActionResult::PeersListed(Err(_)))
}

/// A round in which any hard action fails ends in `Failed` at once — the
/// outcome is `Fatal` — regardless of how the round got to that step: no
/// further action is requested, no telemetry is ever due, and feeding more
/// results changes nothing.
pub proof fn lemma_hard_failure_fatal(s: RoundStep, r: ActionResult)
    requires
        hard_failure(s, r),
    ensures
        step_spec(s, r) is Failed,
        spec_requested(step_spec(s, r)) is None,
        !(step_spec(s, r) is Completed),
        forall|later: ActionResult|
            (#[trigger] step_spec(step_spec(s, r), later)) == step_spec(s, r),
{
}

/// Formats the reason a hard failure surfaces with; see `reason_spec`.
pub fn fatal_reason(action: HardAction, error: &String) -> (s: String)
    ensures
        s@ == reason_spec(action, error@),
{
    match action {
        HardAction::Shrink => {
            "unable to perform routing-map shrink: ".to_owned().concat(error.as_str())
        },
        HardAction::ReadMapSize => {
            "unable to get routing-map size: ".to_owned().concat(error.as_str())
        },
        HardAction::CountEntries => error.clone(),
        HardAction::ListPeers => error.clone(),
    }
}

} // verus!
