//! Verified core of a sensor-processing pipeline: anomaly detection against fixed
//! limits, per-channel sliding windows for smoothing, the spike-channel choice of the
//! sensor simulator, the schedule of the sensor stream, and the rows of the timing log
//! that the analysis counts.

pub mod reading;
pub mod types;
pub mod processor;
pub mod sensor;
pub mod stream;
pub mod analyze;
