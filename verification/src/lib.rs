//! Verified core of a hardware-telemetry and thermal-gating subsystem for
//! heterogeneous multi-core processors.
//!
//! The crate holds the decision and accounting logic of the subsystem:
//! processor topology detection with layered fallbacks, trapezoidal energy
//! integration, short-window thermal-trend classification, sensor
//! categorization, snapshot merging, and a cancellable cooldown gate.
//! Platform I/O (sensor enumeration, the external sampling process, timers)
//! lives outside the library and hands plain values in.
//!
//! All quantities are fixed-point integers: power in milliwatts,
//! temperatures in millidegrees Celsius, frequencies in kilohertz, core
//! utilization in hundredths of a percent, and energy in nanojoules.

pub mod aggregator;
pub mod cooldown;
pub mod energy;
pub mod errors;
pub mod parse;
pub mod platform;
pub mod records;
pub mod sensors;
pub mod snapshot;
pub mod topology;
pub mod trend;
pub mod utilization;
