use co2_monitor::graph::graph_segments;
use co2_monitor::history::History;

#[test]
fn segments_scale_readings_across_the_plot() {
    let mut h = History::new(4);
    h.add_measurement(100);
    h.add_measurement(200);
    h.add_measurement(400);
    h.add_measurement(300);
    let segs = graph_segments(&h, 200, 100);
    assert_eq!(
        segs,
        vec![(0, 75, 66, 50), (66, 50, 133, 0), (133, 0, 200, 25)]
    );
}

#[test]
fn segments_follow_the_ring_after_eviction() {
    let mut h = History::new(2);
    h.add_measurement(500);
    h.add_measurement(100);
    h.add_measurement(200);
    // Retained: 100 then 200; the maximum 200 touches the top edge.
    let segs = graph_segments(&h, 10, 10);
    assert_eq!(segs, vec![(0, 5, 10, 0)]);
}

#[test]
fn too_short_or_unscalable_histories_yield_no_segments() {
    let mut h = History::new(4);
    assert!(graph_segments(&h, 200, 100).is_empty());
    h.add_measurement(600);
    assert!(graph_segments(&h, 200, 100).is_empty());
    let mut zeros = History::new(4);
    zeros.add_measurement(0);
    zeros.add_measurement(0);
    assert!(graph_segments(&zeros, 200, 100).is_empty());
}
