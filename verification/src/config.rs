use vstd::prelude::*;

verus! {

/// Immutable configuration, fixed at process start and copied into the
/// scheduler.
///
/// The confidence threshold, replication factor and query timeout are
/// informational: the scheduler only re-reports them through telemetry every
/// round. The two interval fields gate the soft maintenance actions by a
/// modulus test on the block number.
#[derive(Clone, Copy)]
pub struct StaticConfigParams {
    /// Bit pattern of the block-confidence fraction. The scheduler never
    /// interprets it numerically; it is carried to telemetry unchanged.
    pub block_confidence_treshold: u64,
    pub replication_factor: u16,
    /// Query timeout in seconds.
    pub query_timeout: u32,
    /// Record pruning runs on blocks this interval divides.
    pub pruning_interval: u32,
    /// Metrics flushing runs on blocks this interval divides.
    pub telemetry_flush_interval: u32,
}

impl StaticConfigParams {
    /// Both interval fields are non-zero, so the modulus tests are defined.
    /// A zero interval is a configuration error to be rejected before the
    /// scheduler runs.
    pub open spec fn wf(self) -> bool {
        &&& self.pruning_interval >= 1
        &&& self.telemetry_flush_interval >= 1
    }
}

} // verus!
