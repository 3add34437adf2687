//! A durable task's context: checkpointed steps, sleeps and events.

pub mod context;
pub mod error;
pub mod events;
pub mod laws;
pub mod model;
pub mod names;
pub mod options;
pub mod outside;
pub mod request;
pub mod time;

pub use context::{AwaitStep, Checkpoint, ClaimedTask, SleepStep, TaskContext};
pub use error::TaskError;
pub use events::AwaitEventRow;
pub use options::AwaitEventOptions;
pub use outside::{DbError, Json};
pub use request::{Param, Request};
pub use time::Timestamp;
