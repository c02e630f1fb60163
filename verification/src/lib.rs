//! Connection, message and query metrics for a service that tells internal
//! traffic from external traffic.

pub mod family;
pub mod labels;
pub mod metrics;
pub mod prom;

pub use family::Family;
pub use metrics::{Metrics, MetricsConfig, RegisterError, SeededSeries};
pub use prom::{CounterSeries, GaugeSeries};
