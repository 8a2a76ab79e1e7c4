use maintenance::config::StaticConfigParams;
use maintenance::policy::{is_due, round_gates};

fn cfg(pruning_interval: u32, telemetry_flush_interval: u32) -> StaticConfigParams {
    StaticConfigParams {
        block_confidence_treshold: 0,
        replication_factor: 5,
        query_timeout: 60,
        pruning_interval,
        telemetry_flush_interval,
    }
}

#[test]
fn is_due_iff_interval_divides() {
    assert!(is_due(20, 10));
    assert!(is_due(15, 5));
    assert!(!is_due(15, 10));
    assert!(!is_due(7, 5));
    assert!(!is_due(7, 10));
    assert!(is_due(1, 1));
    assert!(is_due(7, 1));
    assert!(is_due(0, 10));
    assert!(is_due(u32::MAX, 1));
    assert!(!is_due(u32::MAX, 2));
}

#[test]
fn gates_fire_exactly_on_dividing_intervals() {
    let c = cfg(10, 5);
    let both = round_gates(20, c, true);
    assert!(both.prune);
    assert!(both.flush);

    let flush_only = round_gates(15, c, true);
    assert!(!flush_only.prune);
    assert!(flush_only.flush);

    let neither = round_gates(7, c, true);
    assert!(!neither.prune);
    assert!(!neither.flush);
}

#[test]
fn gates_are_independent() {
    // With co-prime intervals every combination of the two gates occurs.
    let c = cfg(4, 3);
    let g12 = round_gates(12, c, true);
    assert!(g12.prune && g12.flush);
    let g4 = round_gates(4, c, true);
    assert!(g4.prune && !g4.flush);
    let g9 = round_gates(9, c, true);
    assert!(!g9.prune && g9.flush);
    let g5 = round_gates(5, c, true);
    assert!(!g5.prune && !g5.flush);
}

#[test]
fn disabled_pruning_makes_its_gate_inert() {
    let c = cfg(10, 5);
    let g = round_gates(20, c, false);
    assert!(!g.prune);
    assert!(g.flush);
}
