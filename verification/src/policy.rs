use vstd::prelude::*;
use crate::config::StaticConfigParams;

verus! {

/// An interval-gated action is due exactly on the blocks its interval
/// divides. Total for `interval >= 1`; a zero interval is a configuration
/// error that never reaches this test.
pub fn is_due(block_number: u32, interval: u32) -> (due: bool)
    requires
        interval >= 1,
    ensures
        due == (block_number % interval == 0),
{
    block_number % interval == 0
}

/// Which of the two gated soft actions fire in one round. The gates are
/// evaluated independently: a block can trigger one, both, or neither.
#[derive(Clone, Copy, PartialEq, Eq, Structural, Debug)]
pub struct RoundGates {
    pub prune: bool,
    pub flush: bool,
}

/// Evaluates both gates for one block. Pruning can be disabled wholesale at
/// construction time (when the underlying store performs its own expiry), in
/// which case its gate is permanently inert.
pub fn round_gates(
    block_number: u32,
    config: StaticConfigParams,
    pruning_enabled: bool,
) -> (gates: RoundGates)
    requires
        config.wf(),
    ensures
        gates.prune == (pruning_enabled && block_number % config.pruning_interval == 0),
        gates.flush == (block_number % config.telemetry_flush_interval == 0),
{
    RoundGates {
        prune: pruning_enabled && is_due(block_number, config.pruning_interval),
        flush: is_due(block_number, config.telemetry_flush_interval),
    }
}

} // verus!
