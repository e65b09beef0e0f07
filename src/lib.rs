//! A compact, time-sortable identifier: a millisecond timestamp and a 16-bit
//! random value, packed into 64 bits or laid out as a 128-bit UUID that the
//! larger `Timeflake` identifier shares.
pub mod error;
pub mod outside;
pub mod text;
pub mod tiny;

pub use error::TinyError;
pub use tiny::TimeflakeTiny;
