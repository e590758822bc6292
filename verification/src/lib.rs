//! Core of a battery-powered CO2 monitor: a bounded reading history, the
//! sensor calibration record, the sensor acquisition driver, and the
//! wake-cycle sequencing that ties them together. Hardware access goes
//! through small traits so that the logic itself carries full contracts.

pub mod cycle;
pub mod graph;
pub mod history;
pub mod retention;
pub mod sunrise;
