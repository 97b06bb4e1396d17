//! A small structured-logging core: severity filtering, template rendering
//! and ordered fan-out of each rendered line to a list of sinks.
pub mod level;
pub mod log_field;
pub mod message;
pub mod sink;
pub mod logger;
pub mod clock;
