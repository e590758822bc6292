use co2_monitor::retention::{RetainedState, IMAGE_HEADER_LEN};

#[test]
fn power_cycle_restores_the_exact_retained_state() {
    let mut state = RetainedState::new(5);
    state.history.add_measurement(400);
    state.history.add_measurement(420);
    state.history.add_measurement(410);
    state.calibration.update_time_ms(600);
    state.calibration.update_time_ms(600);

    // Capture the image before "sleep", then reload from that exact image
    // without re-initialization.
    let image = state.to_image();
    let reloaded = RetainedState::from_image(&image).unwrap();

    assert_eq!(reloaded.history.capacity_slots(), state.history.capacity_slots());
    assert_eq!(reloaded.history.len(), state.history.len());
    for i in 0..state.history.len() {
        assert_eq!(reloaded.history.at(i), state.history.at(i));
    }
    assert_eq!(reloaded.history.max_value(), state.history.max_value());
    assert_eq!(
        reloaded.calibration.accumulated_time_ms(),
        state.calibration.accumulated_time_ms()
    );
    // Bit-for-bit: the reloaded state re-encodes to the very same image.
    assert_eq!(reloaded.to_image(), image);
}

#[test]
fn full_and_wrapped_history_survives_a_power_cycle() {
    let mut state = RetainedState::new(3);
    for v in [100u16, 200, 300, 400, 500] {
        state.history.add_measurement(v);
    }
    state.calibration.update_time_ms(u64::MAX);
    let image = state.to_image();
    let reloaded = RetainedState::from_image(&image).unwrap();
    assert_eq!(reloaded.history.len(), 3);
    assert_eq!(reloaded.history.at(0), 300);
    assert_eq!(reloaded.history.at(1), 400);
    assert_eq!(reloaded.history.at(2), 500);
    assert_eq!(reloaded.calibration.accumulated_time_ms(), u64::MAX);
    assert_eq!(reloaded.to_image(), image);
}

#[test]
fn empty_state_round_trips() {
    let state = RetainedState::new(7);
    let image = state.to_image();
    assert_eq!(image.len(), IMAGE_HEADER_LEN);
    let reloaded = RetainedState::from_image(&image).unwrap();
    assert_eq!(reloaded.history.len(), 0);
    assert_eq!(reloaded.history.capacity_slots(), 7);
    assert_eq!(reloaded.calibration.accumulated_time_ms(), 0);
}

#[test]
fn malformed_images_are_rejected() {
    // Too short to hold the header.
    assert!(RetainedState::from_image(&vec![0u8; 5]).is_none());
    // A zero capacity is never produced by a real state.
    assert!(RetainedState::from_image(&vec![0u8; IMAGE_HEADER_LEN]).is_none());
    // Count larger than capacity.
    let mut bad = RetainedState::new(2).to_image();
    bad[8] = 9;
    assert!(RetainedState::from_image(&bad).is_none());
    // Truncated reading bytes.
    let mut state = RetainedState::new(4);
    state.history.add_measurement(123);
    let mut img = state.to_image();
    img.pop();
    assert!(RetainedState::from_image(&img).is_none());
}
