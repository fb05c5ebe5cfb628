//! Snowflake-style 64-bit identifiers: a 41-bit count of milliseconds since a
//! chosen epoch, a 10-bit machine id and a 12-bit sequence number, packed into
//! one `u64`, and the inverse decomposition.
pub mod builder;
pub mod epoch;
pub mod error;
pub mod flake;
pub mod id;
pub mod laws;
pub mod time;

pub use builder::TiltflakeBuilder;
pub use epoch::EpochType;
pub use error::TiltflakeError;
pub use flake::Tiltflake;
pub use id::TiltflakeId;
pub use time::Timestamp;
