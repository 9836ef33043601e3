//! Real-time pulse-oximetry estimation: heart rate and blood-oxygen saturation
//! derived from paired reflectance / infrared intensity samples, in integer
//! arithmetic only.

pub mod filter;
pub mod heart_rate;
pub mod spo2;
pub mod monitor;
