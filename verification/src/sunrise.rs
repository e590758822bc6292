//! Acquisition driver for a register-oriented CO2 sensor, together with the
//! persistent calibration record it maintains. The platform supplies the bus,
//! the enable line and the delay source through the small traits below; the
//! protocol itself — register writes, result decoding, calibration
//! bookkeeping, and the power state machine — is verified here. The driver
//! keeps a ghost transcript of every port operation it performs, and its
//! contracts state the exact traffic each successful step produced.

use vstd::prelude::*;

verus! {

/// Result block layout: a status byte, the CO2 reading (big-endian ppm),
/// and the temperature (big-endian, signed, hundredths of a degree Celsius).
pub const RESULT_BLOCK_LEN: usize = 5;

/// First register of the result block (the status byte).
pub const REG_ERROR_STATUS: u8 = 0x00;

/// Measurement mode register; the driver runs the sensor in single-shot mode.
pub const REG_MEASUREMENT_MODE: u8 = 0x95;

/// Number of sub-samples averaged per measurement (16-bit, big-endian).
pub const REG_NUMBER_OF_SAMPLES: u8 = 0x96;

/// Single-shot measurement trigger register.
pub const REG_START_MEASUREMENT: u8 = 0xC3;

/// Accumulated operating hours handed to the sensor's self-calibration
/// algorithm (16-bit, big-endian).
pub const REG_CALIBRATION_HOURS: u8 = 0xC4;

/// Value of `REG_MEASUREMENT_MODE` selecting single-shot mode.
pub const MODE_SINGLE: u8 = 0x01;

/// Value written to `REG_START_MEASUREMENT` to trigger one measurement.
pub const CMD_START_MEASUREMENT: u8 = 0x01;

/// Time the sensor needs after power-up before it accepts transactions.
pub const BOOT_DELAY_MS: u32 = 35;

/// Integration time of one sub-sample; a measurement of n samples is ready
/// after n times this interval.
pub const MS_PER_SAMPLE: u32 = 300;

pub const MS_PER_HOUR: u64 = 3_600_000;

/// Register-oriented bus the sensor answers on. The platform implements it
/// (an I2C adapter on the device, a scripted bus in tests); the driver's
/// contracts hold for every implementation.
pub trait SensorBus {
    /// Writes `data` into the sensor registers starting at `reg`.
    fn write_register(&mut self, reg: u8, data: &Vec<u8>) -> Result<(), BusError>;

    /// Reads `len` bytes from the sensor registers starting at `reg`.
    fn read_register(&mut self, reg: u8, len: usize) -> Result<Vec<u8>, BusError>;
}

/// Discrete line gating sensor power, independent of bus traffic.
pub trait EnablePin {
    fn set_high(&mut self);

    fn set_low(&mut self);
}

/// Blocking timed wait, supplied by the platform.
pub trait DelayProvider {
    fn delay_ms(&mut self, ms: u32);
}

/// A failed bus transaction (for instance a missing acknowledgment).
#[derive(Clone, Copy, Debug, PartialEq, Eq, Structural)]
pub struct BusError;

#[derive(Clone, Copy, Debug, PartialEq, Eq, Structural)]
pub enum SensorError {
    /// The sensor rejected its configuration during `init`.
    Init,
    /// A bus transaction failed while triggering or reading a measurement.
    Measurement,
    /// The sensor itself reported a fault; the payload is its fault code.
    SensorInternal(u8),
}

/// Power and protocol state of one driver instance. An instance is
/// constructed fresh each wake cycle and never reused after `Off`.
#[derive(Clone, Copy, Debug, PartialEq, Eq, Structural)]
pub enum SensorState {
    Off,
    Enabled,
    Initialized,
    MeasurementStarted,
    ResultReady,
}

/// One operation the driver performed on its platform ports, recorded in a
/// ghost transcript so the contracts can state what the sensor was told and
/// what it answered. A read carries the response bytes, or nothing if the
/// transaction failed.
pub enum PortOp {
    Write(u8, Seq<u8>),
    Read(u8, usize, Option<Seq<u8>>),
    DelayMs(u32),
    EnableHigh,
    EnableLow,
}

/// Big-endian bytes of a 16-bit register value, as the sensor takes them.
pub open spec fn u16_be_bytes(x: u16) -> Seq<u8> {
    seq![(x / 256) as u8, (x % 256) as u8]
}

/// Saturating 64-bit addition: the accumulated-time counter never wraps.
pub open spec fn sat_add_u64(a: u64, b: u64) -> u64 {
    if a + b > u64::MAX {
        u64::MAX
    } else {
        (a + b) as u64
    }
}

/// Operating hours a calibration record reports, saturated to the 16-bit
/// register the sensor takes.
pub open spec fn spec_calibration_hours(time_ms: u64) -> u16 {
    if time_ms as int / MS_PER_HOUR as int > u16::MAX {
        u16::MAX
    } else {
        (time_ms as int / MS_PER_HOUR as int) as u16
    }
}

/// Accumulated sensor drift-correction state. Created zeroed at cold boot,
/// it lives in the retention region and is updated once per wake cycle.
#[derive(Clone, Copy, Debug, PartialEq, Eq, Structural)]
pub struct CalibrationData {
    time_ms: u64,
}

impl CalibrationData {
    /// Accumulated operating time in milliseconds.
    pub closed spec fn time_ms(&self) -> u64 {
        self.time_ms
    }

    /// The zeroed record a cold boot leaves in the retention region.
    pub fn new() -> (c: CalibrationData)
        ensures
            c.time_ms() == 0,
    {
        CalibrationData { time_ms: 0 }
    }

    /// Exec mirror of `time_ms`.
    pub fn accumulated_time_ms(&self) -> (t: u64)
        ensures
            t == self.time_ms(),
    {
        self.time_ms
    }

    /// Adds `delta_ms` to the accumulated operating time, saturating instead
    /// of wrapping. Safe to call unconditionally, including on the error path
    /// of a failed measurement.
    pub fn update_time_ms(&mut self, delta_ms: u64)
        ensures
            final(self).time_ms() == sat_add_u64(old(self).time_ms(), delta_ms),
    {
        if delta_ms > u64::MAX - self.time_ms {
            self.time_ms = u64::MAX;
        } else {
            self.time_ms = self.time_ms + delta_ms;
        }
    }

    /// The calibration payload handed to the sensor: accumulated operating
    /// hours, saturated to the 16-bit register value.
    pub fn calibration_hours(&self) -> (h: u16)
        ensures
            h == spec_calibration_hours(self.time_ms()),
    {
        let hours = self.time_ms / MS_PER_HOUR;
        if hours > u16::MAX as u64 {
            u16::MAX
        } else {
            hours as u16
        }
    }
}

/// Accumulated operating time is additive and order-independent: applying
/// deltas `d1` then `d2` reaches the same total as `d2` then `d1`, and the
/// exact sum wherever it fits in the counter.
pub proof fn lemma_update_time_order_independent(t: u64, d1: u64, d2: u64)
    ensures
        sat_add_u64(sat_add_u64(t, d1), d2) == sat_add_u64(sat_add_u64(t, d2), d1),
        t + d1 + d2 <= u64::MAX ==> sat_add_u64(sat_add_u64(t, d1), d2) == t + d1 + d2,
{
}

/// Status byte of a result block.
pub open spec fn block_status(b: Seq<u8>) -> u8 {
    b[0]
}

/// CO2 reading of a result block: big-endian ppm.
pub open spec fn block_co2(b: Seq<u8>) -> u16 {
    ((b[1] as int) * 256 + (b[2] as int)) as u16
}

/// Temperature of a result block: big-endian, signed, hundredths of a
/// degree Celsius.
pub open spec fn block_temp_centi(b: Seq<u8>) -> int {
    let raw = (b[3] as int) * 256 + (b[4] as int);
    if raw >= 0x8000 {
        raw - 0x10000
    } else {
        raw
    }
}

/// What a result block yields: a block of the wrong size counts as a failed
/// transaction, a nonzero status byte is a device-reported fault, and
/// otherwise the CO2 reading is returned.
pub open spec fn decode_outcome(b: Seq<u8>) -> Result<u16, SensorError> {
    if b.len() != RESULT_BLOCK_LEN {
        Err(SensorError::Measurement)
    } else if block_status(b) != 0 {
        Err(SensorError::SensorInternal(block_status(b)))
    } else {
        Ok(block_co2(b))
    }
}

/// Milliseconds one measurement of `sample_count` sub-samples takes.
pub open spec fn measurement_duration_of(sample_count: u16) -> int {
    sample_count * MS_PER_SAMPLE
}

/// Decodes the status byte and CO2 reading of a result block.
pub fn decode_co2_result(block: &Vec<u8>) -> (r: Result<u16, SensorError>)
    ensures
        r == decode_outcome(block@),
{
    if block.len() != RESULT_BLOCK_LEN {
        Err(SensorError::Measurement)
    } else if block[0] != 0 {
        Err(SensorError::SensorInternal(block[0]))
    } else {
        Ok((block[1] as u16) * 256 + (block[2] as u16))
    }
}

/// Decodes the temperature of a result block.
pub fn decode_temperature_centi(block: &Vec<u8>) -> (t: i32)
    requires
        block@.len() == RESULT_BLOCK_LEN,
    ensures
        t == block_temp_centi(block@),
{
    let raw: u32 = (block[3] as u32) * 256 + (block[4] as u32);
    if raw >= 0x8000 {
        (raw as i32) - 0x10000
    } else {
        raw as i32
    }
}

/// One wake cycle's sensor instance: transient, holding no state across
/// cycles beyond what it writes back into the passed `CalibrationData`.
pub struct SunriseSensor<B, P, D> {
    bus: B,
    enable: P,
    delay: D,
    state: SensorState,
    sample_count: u16,
    last_temperature: Option<i32>,
    last_response: Ghost<Option<Seq<u8>>>,
    transcript: Ghost<Seq<PortOp>>,
}

impl<B: SensorBus, P: EnablePin, D: DelayProvider> SunriseSensor<B, P, D> {
    /// Protocol state of this instance.
    pub closed spec fn state(&self) -> SensorState {
        self.state
    }

    /// Sub-sample count configured by `init`.
    pub closed spec fn sample_count(&self) -> u16 {
        self.sample_count
    }

    /// Temperature decoded from the last successful result read, hundredths
    /// of a degree Celsius.
    pub closed spec fn temperature_centi(&self) -> Option<i32> {
        self.last_temperature
    }

    /// The bytes the bus returned for the last result read, if it succeeded.
    pub closed spec fn last_response(&self) -> Option<Seq<u8>> {
        self.last_response@
    }

    /// Every operation this instance performed on its ports, oldest first.
    pub closed spec fn transcript(&self) -> Seq<PortOp> {
        self.transcript@
    }

    /// Asserts the enable line, powering the sensor. No bus traffic yet.
    pub fn new(bus: B, enable: P, delay: D) -> (s: SunriseSensor<B, P, D>)
        ensures
            s.state() == SensorState::Enabled,
            s.temperature_centi() is None,
            s.transcript() == seq![PortOp::EnableHigh],
    {
        let mut enable = enable;
        enable.set_high();
        let ghost transcript: Seq<PortOp> = seq![PortOp::EnableHigh];
        SunriseSensor {
            bus,
            enable,
            delay,
            state: SensorState::Enabled,
            sample_count: 0,
            last_temperature: None,
            last_response: Ghost(None),
            transcript: Ghost(transcript),
        }
    }

    /// Waits out the sensor's post-power boot delay, then configures
    /// single-shot mode with `sample_count` sub-samples and checks that the
    /// device acknowledged the configuration: success means exactly that the
    /// boot delay passed, the two configuration registers received their
    /// values, and the mode register echoed the single-shot mode back.
    /// Touches no calibration state.
    pub fn init(&mut self, sample_count: u16) -> (r: Result<(), SensorError>)
        requires
            old(self).state() == SensorState::Enabled,
            sample_count >= 1,
        ensures
            final(self).temperature_centi() == old(self).temperature_centi(),
            match r {
                Ok(()) => final(self).state() == SensorState::Initialized
                    && final(self).sample_count() == sample_count && final(self).transcript()
                    == old(self).transcript() + seq![
                    PortOp::DelayMs(BOOT_DELAY_MS),
                    PortOp::Write(REG_MEASUREMENT_MODE, seq![MODE_SINGLE]),
                    PortOp::Write(REG_NUMBER_OF_SAMPLES, u16_be_bytes(sample_count)),
                    PortOp::Read(REG_MEASUREMENT_MODE, 1, Some(seq![MODE_SINGLE])),
                ],
                Err(e) => e == SensorError::Init && final(self).state() == SensorState::Enabled
                    && final(self).sample_count() == old(self).sample_count(),
            },
    {
        self.delay.delay_ms(BOOT_DELAY_MS);
        self.transcript = Ghost(self.transcript@.push(PortOp::DelayMs(BOOT_DELAY_MS)));
        let mut mode: Vec<u8> = Vec::new();
        mode.push(MODE_SINGLE);
        match self.bus.write_register(REG_MEASUREMENT_MODE, &mode) {
            Ok(()) => {
                self.transcript = Ghost(
                    self.transcript@.push(PortOp::Write(REG_MEASUREMENT_MODE, mode@)),
                );
            },
            Err(_) => {
                return Err(SensorError::Init);
            },
        }
        let mut samples: Vec<u8> = Vec::new();
        samples.push((sample_count / 256) as u8);
        samples.push((sample_count % 256) as u8);
        match self.bus.write_register(REG_NUMBER_OF_SAMPLES, &samples) {
            Ok(()) => {
                self.transcript = Ghost(
                    self.transcript@.push(PortOp::Write(REG_NUMBER_OF_SAMPLES, samples@)),
                );
            },
            Err(_) => {
                return Err(SensorError::Init);
            },
        }
        match self.bus.read_register(REG_MEASUREMENT_MODE, 1) {
            Ok(echo) => {
                self.transcript = Ghost(
                    self.transcript@.push(PortOp::Read(REG_MEASUREMENT_MODE, 1, Some(echo@))),
                );
                if echo.len() == 1 && echo[0] == MODE_SINGLE {
                    self.state = SensorState::Initialized;
                    self.sample_count = sample_count;
                    proof {
                        assert(mode@ =~= seq![MODE_SINGLE]);
                        assert(samples@ =~= u16_be_bytes(sample_count));
                        assert(echo@ =~= seq![MODE_SINGLE]);
                        assert(self.transcript@ =~= old(self).transcript@ + seq![
                            PortOp::DelayMs(BOOT_DELAY_MS),
                            PortOp::Write(REG_MEASUREMENT_MODE, seq![MODE_SINGLE]),
                            PortOp::Write(REG_NUMBER_OF_SAMPLES, u16_be_bytes(sample_count)),
                            PortOp::Read(REG_MEASUREMENT_MODE, 1, Some(seq![MODE_SINGLE])),
                        ]);
                    }
                    Ok(())
                } else {
                    Err(SensorError::Init)
                }
            },
            Err(_) => Err(SensorError::Init),
        }
    }

    /// Writes the calibration payload, if one is supplied, then triggers a
    /// single-shot measurement: success means exactly that the calibration
    /// register received the record's operating hours (when a payload was
    /// supplied) and the trigger register received the start command. Does
    /// not wait for the result: the caller waits out
    /// `measurement_duration_ms` before reading.
    pub fn start_measurement(&mut self, calibration: Option<&CalibrationData>) -> (r: Result<
        (),
        SensorError,
    >)
        requires
            old(self).state() == SensorState::Initialized,
        ensures
            final(self).sample_count() == old(self).sample_count(),
            final(self).temperature_centi() == old(self).temperature_centi(),
            match r {
                Ok(()) => final(self).state() == SensorState::MeasurementStarted
                    && final(self).transcript() == old(self).transcript() + match calibration {
                    Some(cal) => seq![
                        PortOp::Write(
                            REG_CALIBRATION_HOURS,
                            u16_be_bytes(spec_calibration_hours(cal.time_ms())),
                        ),
                        PortOp::Write(REG_START_MEASUREMENT, seq![CMD_START_MEASUREMENT]),
                    ],
                    None => seq![PortOp::Write(REG_START_MEASUREMENT, seq![CMD_START_MEASUREMENT])],
                },
                Err(e) => e == SensorError::Measurement && final(self).state()
                    == SensorState::Initialized,
            },
    {
        match calibration {
            Some(cal) => {
                let hours = cal.calibration_hours();
                let mut payload: Vec<u8> = Vec::new();
                payload.push((hours / 256) as u8);
                payload.push((hours % 256) as u8);
                match self.bus.write_register(REG_CALIBRATION_HOURS, &payload) {
                    Ok(()) => {
                        proof {
                            assert(payload@ =~= u16_be_bytes(spec_calibration_hours(cal.time_ms())));
                        }
                        self.transcript = Ghost(
                            self.transcript@.push(PortOp::Write(REG_CALIBRATION_HOURS, payload@)),
                        );
                    },
                    Err(_) => {
                        return Err(SensorError::Measurement);
                    },
                }
            },
            None => {},
        }
        let mut trigger: Vec<u8> = Vec::new();
        trigger.push(CMD_START_MEASUREMENT);
        match self.bus.write_register(REG_START_MEASUREMENT, &trigger) {
            Ok(()) => {
                proof {
                    assert(trigger@ =~= seq![CMD_START_MEASUREMENT]);
                }
                self.transcript = Ghost(
                    self.transcript@.push(PortOp::Write(REG_START_MEASUREMENT, trigger@)),
                );
                self.state = SensorState::MeasurementStarted;
                proof {
                    match calibration {
                        Some(cal) => {
                            assert(self.transcript@ =~= old(self).transcript@ + seq![
                                PortOp::Write(
                                    REG_CALIBRATION_HOURS,
                                    u16_be_bytes(spec_calibration_hours(cal.time_ms())),
                                ),
                                PortOp::Write(REG_START_MEASUREMENT, seq![CMD_START_MEASUREMENT]),
                            ]);
                        },
                        None => {
                            assert(self.transcript@ =~= old(self).transcript@.push(
                                PortOp::Write(REG_START_MEASUREMENT, seq![CMD_START_MEASUREMENT]),
                            ));
                        },
                    }
                }
                Ok(())
            },
            Err(_) => Err(SensorError::Measurement),
        }
    }

    /// Milliseconds the configured measurement takes to integrate; the
    /// externally-known sample duration the caller must wait out.
    pub fn measurement_duration_ms(&self) -> (d: u32)
        ensures
            d == measurement_duration_of(self.sample_count()),
    {
        (self.sample_count as u32) * MS_PER_SAMPLE
    }

    /// Reads and decodes the result block. Whatever the outcome, the
    /// measurement's duration is first added to the accumulated operating
    /// time of `calibration`: a transient bus failure never leaves the
    /// calibration record inconsistent with "some time elapsed". The result
    /// is exactly `decode_outcome` of whatever bytes the bus returned, and a
    /// bus failure yields `Measurement`.
    pub fn get_co2(&mut self, calibration: &mut CalibrationData) -> (r: Result<u16, SensorError>)
        requires
            old(self).state() == SensorState::MeasurementStarted,
        ensures
            final(self).state() == SensorState::ResultReady,
            final(self).sample_count() == old(self).sample_count(),
            final(self).transcript() == old(self).transcript().push(
                PortOp::Read(REG_ERROR_STATUS, RESULT_BLOCK_LEN, final(self).last_response()),
            ),
            final(calibration).time_ms() == sat_add_u64(
                old(calibration).time_ms(),
                measurement_duration_of(old(self).sample_count()) as u64,
            ),
            match final(self).last_response() {
                Some(b) => r == decode_outcome(b) && if b.len() == RESULT_BLOCK_LEN {
                    final(self).temperature_centi() matches Some(t) && t == block_temp_centi(b)
                } else {
                    final(self).temperature_centi() is None
                },
                None => r == Err::<u16, SensorError>(SensorError::Measurement)
                    && final(self).temperature_centi() is None,
            },
    {
        let duration = self.measurement_duration_ms();
        calibration.update_time_ms(duration as u64);
        self.state = SensorState::ResultReady;
        match self.bus.read_register(REG_ERROR_STATUS, RESULT_BLOCK_LEN) {
            Ok(block) => {
                self.last_response = Ghost(Some(block@));
                self.transcript = Ghost(
                    self.transcript@.push(
                        PortOp::Read(REG_ERROR_STATUS, RESULT_BLOCK_LEN, Some(block@)),
                    ),
                );
                if block.len() == RESULT_BLOCK_LEN {
                    self.last_temperature = Some(decode_temperature_centi(&block));
                } else {
                    self.last_temperature = None;
                }
                decode_co2_result(&block)
            },
            Err(_) => {
                self.last_response = Ghost(None);
                self.transcript = Ghost(
                    self.transcript@.push(PortOp::Read(REG_ERROR_STATUS, RESULT_BLOCK_LEN, None)),
                );
                self.last_temperature = None;
                Err(SensorError::Measurement)
            },
        }
    }

    /// Temperature from the last result read, hundredths of a degree
    /// Celsius; absent if the transaction that would supply it failed.
    pub fn get_temperature(&self) -> (t: Option<i32>)
        ensures
            t == self.temperature_centi(),
    {
        self.last_temperature
    }

    /// Deasserts the enable line. No further protocol calls are valid on
    /// this instance; the next cycle constructs a new one.
    pub fn turn_off(&mut self)
        ensures
            final(self).state() == SensorState::Off,
            final(self).sample_count() == old(self).sample_count(),
            final(self).temperature_centi() == old(self).temperature_centi(),
            final(self).last_response() == old(self).last_response(),
            final(self).transcript() == old(self).transcript().push(PortOp::EnableLow),
    {
        self.enable.set_low();
        self.transcript = Ghost(self.transcript@.push(PortOp::EnableLow));
        self.state = SensorState::Off;
    }
}

} // verus!
