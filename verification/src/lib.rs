//! Snowflake IDs: unique, monotonic 64-bit identifiers made of a millisecond timestamp and a
//! sequence number, with configurable layouts and epochs.
//!
//! - [`layout`]: the [`Layout`] and [`Epoch`] traits and the laws that layouts obey;
//! - [`classic`]: the classic layout (41-bit timestamp, 10-bit machine ID, 12-bit sequence);
//! - [`snowflake`]: the [`Snowflake`] type;
//! - [`comparator`]: [`SnowflakeComparator`], which compares snowflakes with timestamps;
//! - [`generator`]: the thread-safe [`Generator`] and the laws of generation;
//! - [`clock`]: readings of the system clock;
//! - [`error`]: the [`Error`] type.
use vstd::prelude::*;

pub mod classic;
pub mod clock;
pub mod comparator;
pub mod decimal;
pub mod error;
pub mod generator;
pub mod layout;
pub mod snowflake;
mod sync;

pub use classic::{ClassicLayout, ClassicLayoutSnowflakeExtension, MachineId};
pub use clock::ElapsedTime;
pub use comparator::SnowflakeComparator;
pub use error::Error;
pub use generator::{CasStep, Generator};
pub use layout::{Epoch, Layout};
pub use snowflake::Snowflake;

verus! {

} // verus!
