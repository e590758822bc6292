use co2_monitor::history::History;

#[test]
fn empty_history_reports_nothing() {
    let h = History::new(4);
    assert_eq!(h.len(), 0);
    assert_eq!(h.max_value(), None);
    let (positions, values) = h.data_for_display();
    assert!(positions.is_empty());
    assert!(values.is_empty());
}

#[test]
fn fill_below_capacity_keeps_insertion_order() {
    let mut h = History::new(4);
    h.add_measurement(400);
    h.add_measurement(420);
    h.add_measurement(410);
    assert_eq!(h.len(), 3);
    assert_eq!(h.at(0), 400);
    assert_eq!(h.at(1), 420);
    assert_eq!(h.at(2), 410);
}

#[test]
fn overfill_evicts_the_oldest() {
    let mut h = History::new(3);
    h.add_measurement(1);
    h.add_measurement(2);
    h.add_measurement(3);
    h.add_measurement(4);
    h.add_measurement(5);
    assert_eq!(h.len(), 3);
    assert_eq!(h.at(0), 3);
    assert_eq!(h.at(1), 4);
    assert_eq!(h.at(2), 5);
}

#[test]
fn scenario_capacity_five_with_fault_sentinel() {
    let mut h = History::new(5);
    h.add_measurement(400);
    h.add_measurement(420);
    h.add_measurement(410);
    h.add_measurement(0);
    h.add_measurement(450);
    assert_eq!(h.len(), 5);
    assert_eq!(h.at(0), 400);
    assert_eq!(h.at(4), 450);
    assert_eq!(h.max_value(), Some(450));
}

#[test]
fn scenario_seven_into_capacity_five_evicts_two() {
    let mut h = History::new(5);
    let inserted = [400u16, 420, 410, 430, 440, 450, 460];
    for v in inserted {
        h.add_measurement(v);
    }
    assert_eq!(h.len(), 5);
    assert_eq!(h.at(0), 410);
    assert_eq!(h.at(4), 460);
}

#[test]
fn max_value_absent_only_when_empty() {
    let mut h = History::new(3);
    assert_eq!(h.max_value(), None);
    h.add_measurement(0);
    assert_eq!(h.max_value(), Some(0));
    h.add_measurement(700);
    h.add_measurement(650);
    assert_eq!(h.max_value(), Some(700));
    h.add_measurement(600);
    assert_eq!(h.max_value(), Some(700));
    h.add_measurement(500);
    // 700 was evicted: the maximum follows the retained values.
    assert_eq!(h.max_value(), Some(650));
}

#[test]
fn wraparound_twice_keeps_latest_readings() {
    let mut h = History::new(2);
    for v in 1u16..=9 {
        h.add_measurement(v * 10);
    }
    assert_eq!(h.len(), 2);
    assert_eq!(h.at(0), 80);
    assert_eq!(h.at(1), 90);
}

#[test]
fn data_for_display_pairs_positions_with_values() {
    let mut h = History::new(3);
    h.add_measurement(500);
    h.add_measurement(510);
    h.add_measurement(520);
    h.add_measurement(530);
    let (positions, values) = h.data_for_display();
    assert_eq!(positions, vec![0, 1, 2]);
    assert_eq!(values, vec![510, 520, 530]);
    assert_eq!(*values.last().unwrap(), 530);
}

#[test]
fn capacity_is_preserved() {
    let mut h = History::new(5);
    for v in 0u16..20 {
        h.add_measurement(v);
    }
    assert_eq!(h.capacity_slots(), 5);
    assert_eq!(h.len(), 5);
}
