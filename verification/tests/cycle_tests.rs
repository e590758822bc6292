use co2_monitor::cycle::{run_wake_cycle, SENTINEL_PPM};
use co2_monitor::history::History;
use co2_monitor::sunrise::{
    BusError, CalibrationData, DelayProvider, EnablePin, SensorBus, SensorError, MODE_SINGLE,
};

struct ScriptedBus {
    fail_writes: bool,
    writes_before_failure: usize,
    read_responses: Vec<Vec<u8>>,
}

impl SensorBus for ScriptedBus {
    fn write_register(&mut self, _reg: u8, _data: &Vec<u8>) -> Result<(), BusError> {
        if self.fail_writes && self.writes_before_failure == 0 {
            Err(BusError)
        } else {
            if self.fail_writes {
                self.writes_before_failure -= 1;
            }
            Ok(())
        }
    }

    fn read_register(&mut self, _reg: u8, _len: usize) -> Result<Vec<u8>, BusError> {
        if self.read_responses.is_empty() {
            Err(BusError)
        } else {
            Ok(self.read_responses.remove(0))
        }
    }
}

struct Pin;

impl EnablePin for Pin {
    fn set_high(&mut self) {}

    fn set_low(&mut self) {}
}

struct Delay;

impl DelayProvider for Delay {
    fn delay_ms(&mut self, _ms: u32) {}
}

#[test]
fn successful_cycle_records_the_reading_and_charges_calibration() {
    let bus = ScriptedBus {
        fail_writes: false,
        writes_before_failure: 0,
        read_responses: vec![vec![MODE_SINGLE], vec![0x00, 0x01, 0xA4, 0x08, 0xCA]],
    };
    let mut history = History::new(5);
    let mut cal = CalibrationData::new();
    let report = run_wake_cycle(bus, Pin, Delay, Delay, 2, &mut history, &mut cal);
    assert_eq!(report.recorded_ppm, 420);
    assert_eq!(report.error, None);
    assert!(report.measurement_completed);
    assert_eq!(report.temperature_centi, Some(2250));
    assert_eq!(history.len(), 1);
    assert_eq!(history.at(0), 420);
    assert_eq!(cal.accumulated_time_ms(), 600);
}

#[test]
fn failed_init_records_the_sentinel_and_leaves_calibration_alone() {
    let bus = ScriptedBus { fail_writes: true, writes_before_failure: 0, read_responses: vec![] };
    let mut history = History::new(5);
    let mut cal = CalibrationData::new();
    cal.update_time_ms(1000);
    let report = run_wake_cycle(bus, Pin, Delay, Delay, 2, &mut history, &mut cal);
    assert_eq!(report.recorded_ppm, SENTINEL_PPM);
    assert_eq!(report.error, Some(SensorError::Init));
    assert!(!report.measurement_completed);
    assert_eq!(history.len(), 1);
    assert_eq!(history.at(0), SENTINEL_PPM);
    assert_eq!(cal.accumulated_time_ms(), 1000);
}

#[test]
fn failed_result_read_records_the_sentinel_but_still_charges_calibration() {
    let bus = ScriptedBus { fail_writes: false, writes_before_failure: 0, read_responses: vec![vec![MODE_SINGLE]] };
    let mut history = History::new(5);
    let mut cal = CalibrationData::new();
    let report = run_wake_cycle(bus, Pin, Delay, Delay, 2, &mut history, &mut cal);
    assert_eq!(report.recorded_ppm, SENTINEL_PPM);
    assert_eq!(report.error, Some(SensorError::Measurement));
    assert!(report.measurement_completed);
    assert_eq!(history.len(), 1);
    assert_eq!(history.at(0), SENTINEL_PPM);
    assert_eq!(cal.accumulated_time_ms(), 600);
}

#[test]
fn failed_measurement_trigger_records_the_sentinel_and_leaves_calibration_alone() {
    // Both init writes and the init echo succeed; the first write of
    // `start_measurement` (the calibration payload) fails.
    let bus = ScriptedBus {
        fail_writes: true,
        writes_before_failure: 2,
        read_responses: vec![vec![MODE_SINGLE]],
    };
    let mut history = History::new(5);
    let mut cal = CalibrationData::new();
    cal.update_time_ms(777);
    let report = run_wake_cycle(bus, Pin, Delay, Delay, 2, &mut history, &mut cal);
    assert_eq!(report.recorded_ppm, SENTINEL_PPM);
    assert_eq!(report.error, Some(SensorError::Measurement));
    assert!(!report.measurement_completed);
    assert_eq!(history.len(), 1);
    assert_eq!(history.at(0), SENTINEL_PPM);
    assert_eq!(cal.accumulated_time_ms(), 777);
}

#[test]
fn short_result_block_counts_as_a_failed_transaction() {
    let bus = ScriptedBus {
        fail_writes: false,
        writes_before_failure: 0,
        read_responses: vec![vec![MODE_SINGLE], vec![0x00, 0x01]],
    };
    let mut history = History::new(5);
    let mut cal = CalibrationData::new();
    let report = run_wake_cycle(bus, Pin, Delay, Delay, 1, &mut history, &mut cal);
    assert_eq!(report.recorded_ppm, SENTINEL_PPM);
    assert_eq!(report.error, Some(SensorError::Measurement));
    assert!(report.measurement_completed);
    assert_eq!(report.temperature_centi, None);
    assert_eq!(cal.accumulated_time_ms(), 300);
}

#[test]
fn cycles_advance_history_on_schedule_despite_faults() {
    let mut history = History::new(3);
    let mut cal = CalibrationData::new();
    let good = |ppm_hi: u8, ppm_lo: u8| ScriptedBus {
        fail_writes: false,
        writes_before_failure: 0,
        read_responses: vec![vec![MODE_SINGLE], vec![0x00, ppm_hi, ppm_lo, 0x08, 0xCA]],
    };
    run_wake_cycle(good(0x01, 0x90), Pin, Delay, Delay, 1, &mut history, &mut cal);
    let faulty = ScriptedBus {
        fail_writes: false,
        writes_before_failure: 0,
        read_responses: vec![vec![MODE_SINGLE], vec![0x09, 0x01, 0xA4, 0x08, 0xCA]],
    };
    run_wake_cycle(faulty, Pin, Delay, Delay, 1, &mut history, &mut cal);
    run_wake_cycle(good(0x01, 0xC2), Pin, Delay, Delay, 1, &mut history, &mut cal);
    assert_eq!(history.len(), 3);
    assert_eq!(history.at(0), 400);
    assert_eq!(history.at(1), SENTINEL_PPM);
    assert_eq!(history.at(2), 450);
    assert_eq!(cal.accumulated_time_ms(), 900);
}
