use pulse_capture::capture::{EdgeReport, FilterState, IrqContext};
use pulse_capture::dead_zone::snap_to_dead_zone;
use pulse_capture::handoff::HandoffCell;
use pulse_capture::pulse_filter::filter_pulse;

#[test]
fn it_works() {
    assert_eq!(1 + 1, 2);
}

#[test]
fn first_sample_passes_through() {
    assert_eq!(filter_pulse(1500, None), Some(1500));
    assert_eq!(filter_pulse(1, None), Some(1));
    assert_eq!(filter_pulse(65535, None), Some(65535));
}

#[test]
fn first_sample_of_zero_is_absent() {
    assert_eq!(filter_pulse(0, None), None);
}

#[test]
fn tracking_update_is_truncating_weighted_average() {
    // (1500 * 2 + 2000) / 3 = 5000 / 3 = 1666
    assert_eq!(filter_pulse(2000, Some(1500)), Some(1666));
    // (1666 * 2 + 1500) / 3 = 4832 / 3 = 1610
    assert_eq!(filter_pulse(1500, Some(1666)), Some(1610));
    // (1500 * 2 + 1500) / 3 = 1500 exactly
    assert_eq!(filter_pulse(1500, Some(1500)), Some(1500));
}

#[test]
fn tracking_update_truncates_to_absent() {
    // (1 * 2 + 0) / 3 = 0: the zero result is the absence sentinel
    assert_eq!(filter_pulse(0, Some(1)), None);
}

#[test]
fn constant_input_converges_from_above() {
    // From a value above the target, repeated constant samples descend
    // monotonically and reach the target exactly within prev - target steps.
    let target: u32 = 1500;
    let mut prev: u32 = 2000;
    let mut steps: u32 = 0;
    while prev != target {
        let next = filter_pulse(target, Some(prev)).unwrap();
        assert!(next >= target, "overshot the target");
        assert!(next < prev, "failed to descend");
        prev = next;
        steps += 1;
        assert!(steps <= 500, "did not converge within prev - target steps");
    }
    // Once reached, the target is a fixpoint.
    assert_eq!(filter_pulse(target, Some(target)), Some(target));
}

#[test]
fn snap_boundaries() {
    // center and the edges of the dead zone collapse to the center
    assert_eq!(snap_to_dead_zone(1500), 1500);
    assert_eq!(snap_to_dead_zone(1504), 1500);
    assert_eq!(snap_to_dead_zone(1496), 1500);
    // one past the edge passes through unchanged
    assert_eq!(snap_to_dead_zone(1505), 1505);
    assert_eq!(snap_to_dead_zone(1495), 1495);
    // far values pass through unchanged
    assert_eq!(snap_to_dead_zone(2000), 2000);
    assert_eq!(snap_to_dead_zone(1), 1);
}

#[test]
fn snap_is_idempotent() {
    for v in [1, 1495, 1496, 1500, 1504, 1505, 2000, 65535] {
        let once = snap_to_dead_zone(v);
        assert_eq!(snap_to_dead_zone(once), once);
    }
}

#[test]
fn spurious_activation_is_a_no_op() {
    let mut state = FilterState::new();
    assert_eq!(state.handle_edge(true, 1500), Some(EdgeReport { raw: 1500, smoothed: 1500 }));
    // flag not set: no report, memory untouched
    assert_eq!(state.handle_edge(false, 4321), None);
    assert_eq!(state.last_filtered(), Some(1500));
    // the next qualifying edge behaves as if the spurious one never happened
    assert_eq!(state.handle_edge(true, 2000), Some(EdgeReport { raw: 2000, smoothed: 1666 }));
}

#[test]
fn end_to_end_scenario() {
    // raw captures [1500, 1500, 2000, 1500] filtered and snapped:
    // 1500 -> 1500, (1500*2+1500)/3 = 1500 -> 1500,
    // (1500*2+2000)/3 = 1666 -> 1666 (distance 166 > 4),
    // (1666*2+1500)/3 = 1610 -> 1610.
    let mut state = FilterState::new();
    let raws: [u16; 4] = [1500, 1500, 2000, 1500];
    let expected: [u32; 4] = [1500, 1500, 1666, 1610];
    for (raw, want) in raws.iter().zip(expected.iter()) {
        let report = state.handle_edge(true, *raw).unwrap();
        assert_eq!(report.raw, u32::from(*raw));
        assert_eq!(report.smoothed, *want);
    }
    assert_eq!(state.last_filtered(), Some(1610));
}

#[test]
fn jitter_around_center_reads_as_exact_center() {
    // small jitter around the neutral position: every report is exactly 1500
    let mut state = FilterState::new();
    for raw in [1500u16, 1502, 1498, 1501, 1499, 1500] {
        let report = state.handle_edge(true, raw).unwrap();
        assert_eq!(report.smoothed, 1500);
    }
}

#[test]
fn memory_keeps_the_filtered_value_not_the_snapped_one() {
    // the snap is stateless: a value inside the dead zone is reported as the
    // exact center, but the memory keeps the filter's own output
    let mut state = FilterState::new();
    assert_eq!(state.handle_edge(true, 1505), Some(EdgeReport { raw: 1505, smoothed: 1505 }));
    // (1505*2 + 1502) / 3 = 4512 / 3 = 1504: reported as 1500, remembered as 1504
    assert_eq!(state.handle_edge(true, 1502), Some(EdgeReport { raw: 1502, smoothed: 1500 }));
    assert_eq!(state.last_filtered(), Some(1504));
    // (1504*2 + 1520) / 3 = 4528 / 3 = 1509: outside the zone on both sides
    assert_eq!(state.handle_edge(true, 1520), Some(EdgeReport { raw: 1520, smoothed: 1509 }));
    assert_eq!(state.last_filtered(), Some(1509));
}

#[test]
fn zero_first_capture_reports_sentinel() {
    let mut state = FilterState::new();
    let report = state.handle_edge(true, 0).unwrap();
    assert_eq!(report, EdgeReport { raw: 0, smoothed: 0 });
    assert_eq!(state.last_filtered(), None);
}

#[test]
fn handoff_cell_transfers_exactly_once() {
    let mut cell: HandoffCell<u32> = HandoffCell::new();
    assert_eq!(cell.take(), None);
    cell.store(7);
    assert_eq!(cell.take(), Some(7));
    assert_eq!(cell.take(), None);
}

#[test]
fn context_claims_resources_once() {
    let mut cell: HandoffCell<&str> = HandoffCell::new();
    cell.store("bundle");
    let mut ctx: IrqContext<&str> = IrqContext::new();
    assert!(ctx.needs_resources());
    assert!(ctx.resources_ref().is_none());
    ctx.install(cell.take());
    assert!(!ctx.needs_resources());
    assert_eq!(ctx.resources_ref(), Some(&"bundle"));
    // the cell is spent; a later take yields nothing
    assert_eq!(cell.take(), None);
}

#[test]
fn context_handles_edges_after_claim() {
    let mut ctx: IrqContext<u8> = IrqContext::new();
    ctx.install(Some(1));
    assert_eq!(ctx.handle_edge(false, 999), None);
    assert_eq!(ctx.handle_edge(true, 2000), Some(EdgeReport { raw: 2000, smoothed: 2000 }));
    assert_eq!(ctx.handle_edge(true, 2000), Some(EdgeReport { raw: 2000, smoothed: 2000 }));
    // resources survive every activation
    assert_eq!(ctx.resources_ref(), Some(&1));
}

#[test]
fn empty_handoff_leaves_context_without_resources() {
    let mut cell: HandoffCell<u32> = HandoffCell::new();
    let mut ctx: IrqContext<u32> = IrqContext::new();
    // defensive path: the cell was never filled, the context must keep
    // asking and the caller must do nothing else
    ctx.install(cell.take());
    assert!(ctx.needs_resources());
}
