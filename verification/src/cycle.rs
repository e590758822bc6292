//! One wake cycle's acquisition sequence: power the sensor, configure it,
//! trigger a measurement, wait out the sample duration, read the result
//! while charging the calibration record, append to the history, and power
//! the sensor back off. Every sensor failure degrades the cycle to a
//! sentinel reading instead of aborting it, so the history advances on
//! schedule and the next wake is the natural retry.

use vstd::prelude::*;

use crate::history::History;
use crate::sunrise::{
    block_temp_centi, decode_outcome, measurement_duration_of, sat_add_u64, spec_calibration_hours,
    u16_be_bytes, CalibrationData, DelayProvider, EnablePin, PortOp, SensorBus, SensorError,
    SunriseSensor, BOOT_DELAY_MS, CMD_START_MEASUREMENT, MODE_SINGLE, REG_CALIBRATION_HOURS,
    REG_ERROR_STATUS, REG_MEASUREMENT_MODE, REG_NUMBER_OF_SAMPLES, REG_START_MEASUREMENT,
    RESULT_BLOCK_LEN,
};

verus! {

/// Reading recorded when a cycle fails to obtain a genuine sample,
/// preserving the history's regular cadence.
pub const SENTINEL_PPM: u16 = 0;

/// The full port trace of one completed measurement: power-up, boot delay,
/// configuration and its echo, calibration payload and trigger, the result
/// read, and power-down.
pub open spec fn protocol_trace(
    sample_count: u16,
    cal_time_ms: u64,
    response: Option<Seq<u8>>,
) -> Seq<PortOp> {
    seq![
        PortOp::EnableHigh,
        PortOp::DelayMs(BOOT_DELAY_MS),
        PortOp::Write(REG_MEASUREMENT_MODE, seq![MODE_SINGLE]),
        PortOp::Write(REG_NUMBER_OF_SAMPLES, u16_be_bytes(sample_count)),
        PortOp::Read(REG_MEASUREMENT_MODE, 1, Some(seq![MODE_SINGLE])),
        PortOp::Write(REG_CALIBRATION_HOURS, u16_be_bytes(spec_calibration_hours(cal_time_ms))),
        PortOp::Write(REG_START_MEASUREMENT, seq![CMD_START_MEASUREMENT]),
        PortOp::Read(REG_ERROR_STATUS, RESULT_BLOCK_LEN, response),
        PortOp::EnableLow,
    ]
}

/// What one wake cycle's acquisition produced, for the caller to render
/// and log.
pub struct CycleReport {
    /// The value appended to the history: the genuine reading, or the
    /// sentinel when the cycle degraded.
    pub recorded_ppm: u16,
    /// The failure that degraded the cycle, if any.
    pub error: Option<SensorError>,
    /// Whether the protocol reached the result read; exactly then the
    /// calibration record was charged with the measurement's duration.
    pub measurement_completed: bool,
    /// Temperature from the result block, hundredths of a degree Celsius.
    pub temperature_centi: Option<i32>,
    /// The bytes the result read returned, kept for specification: the
    /// recorded reading, the error and the temperature are exactly what
    /// they decode to.
    pub response: Ghost<Option<Seq<u8>>>,
    /// Every port operation the cycle's sensor instance performed, kept for
    /// specification: a completed measurement shows the full protocol trace.
    pub port_log: Ghost<Seq<PortOp>>,
}

/// Runs one wake cycle's sensor acquisition against the given platform
/// handles. Exactly one reading is appended to `history` — the decoded one,
/// or the sentinel on any failure — and `calibration` accumulates the
/// measurement's duration exactly when the result read ran.
pub fn run_wake_cycle<B: SensorBus, P: EnablePin, D: DelayProvider, W: DelayProvider>(
    bus: B,
    enable: P,
    delay: D,
    sleeper: W,
    sample_count: u16,
    history: &mut History,
    calibration: &mut CalibrationData,
) -> (r: CycleReport)
    requires
        old(history).wf(),
        sample_count >= 1,
    ensures
        final(history).wf(),
        final(history).capacity() == old(history).capacity(),
        old(history)@.len() < old(history).capacity() ==> final(history)@ == old(history)@.push(
            r.recorded_ppm,
        ),
        old(history)@.len() == old(history).capacity() ==> final(history)@ == old(
            history,
        )@.subrange(1, old(history)@.len() as int).push(r.recorded_ppm),
        r.error is Some ==> r.recorded_ppm == SENTINEL_PPM,
        r.error is None ==> r.measurement_completed && r.temperature_centi is Some,
        r.measurement_completed ==> final(calibration).time_ms() == sat_add_u64(
            old(calibration).time_ms(),
            measurement_duration_of(sample_count) as u64,
        ),
        !r.measurement_completed ==> final(calibration).time_ms() == old(calibration).time_ms()
            && r.error is Some,
        r.measurement_completed ==> r.port_log@ == protocol_trace(
            sample_count,
            old(calibration).time_ms(),
            r.response@,
        ),
        r.measurement_completed ==> match r.response@ {
            Some(b) => {
                &&& (decode_outcome(b) matches Ok(ppm) ==> r.error is None && r.recorded_ppm
                    == ppm)
                &&& (decode_outcome(b) matches Err(e) ==> r.error == Some(e))
                &&& (b.len() == RESULT_BLOCK_LEN ==> (r.temperature_centi matches Some(t) && t
                    == block_temp_centi(b)))
                &&& (b.len() != RESULT_BLOCK_LEN ==> r.temperature_centi is None)
            },
            None => r.error == Some(SensorError::Measurement) && r.temperature_centi is None,
        },
{
    let mut sleeper = sleeper;
    let mut sensor = SunriseSensor::new(bus, enable, delay);
    match sensor.init(sample_count) {
        Ok(()) => {},
        Err(e) => {
            history.add_measurement(SENTINEL_PPM);
            sensor.turn_off();
            return CycleReport {
                recorded_ppm: SENTINEL_PPM,
                error: Some(e),
                measurement_completed: false,
                temperature_centi: None,
                response: Ghost(None),
                port_log: Ghost(sensor.transcript()),
            };
        },
    }
    let calibration_snapshot = *calibration;
    match sensor.start_measurement(Some(&calibration_snapshot)) {
        Ok(()) => {},
        Err(e) => {
            history.add_measurement(SENTINEL_PPM);
            sensor.turn_off();
            return CycleReport {
                recorded_ppm: SENTINEL_PPM,
                error: Some(e),
                measurement_completed: false,
                temperature_centi: None,
                response: Ghost(None),
                port_log: Ghost(sensor.transcript()),
            };
        },
    }
    sleeper.delay_ms(sensor.measurement_duration_ms());
    let result = sensor.get_co2(calibration);
    let temperature = sensor.get_temperature();
    sensor.turn_off();
    proof {
        assert(sensor.transcript() =~= protocol_trace(
            sample_count,
            old(calibration).time_ms(),
            sensor.last_response(),
        ));
    }
    match result {
        Ok(ppm) => {
            history.add_measurement(ppm);
            CycleReport {
                recorded_ppm: ppm,
                error: None,
                measurement_completed: true,
                temperature_centi: temperature,
                response: Ghost(sensor.last_response()),
                port_log: Ghost(sensor.transcript()),
            }
        },
        Err(e) => {
            history.add_measurement(SENTINEL_PPM);
            CycleReport {
                recorded_ppm: SENTINEL_PPM,
                error: Some(e),
                measurement_completed: true,
                temperature_centi: temperature,
                response: Ghost(sensor.last_response()),
                port_log: Ghost(sensor.transcript()),
            }
        },
    }
}

} // verus!
