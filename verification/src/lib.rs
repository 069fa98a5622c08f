//! Driver for the BMP180 barometric sensor: calibration handling, the
//! trigger/wait/read conversion sequence, and the manufacturer's fixed-point
//! compensation arithmetic, verified end to end against integer models.

pub mod arith;
pub mod bus;
pub mod calibration;
pub mod compensation;
pub mod driver;
pub mod error;
pub mod oversampling;
pub mod sequence;
pub mod sim;
