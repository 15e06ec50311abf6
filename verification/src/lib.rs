//! A multi-topic fuzz publisher core: an entropy source read through a
//! cursor, generators of randomized messages kept in a registry by
//! message type, and the per-topic and scheduler state machines that decide
//! what the surrounding program asks of the messaging bus.

pub mod entropy;
pub mod error;
pub mod message;
pub mod generator;
pub mod registry;
pub mod topic;
pub mod scheduler;

pub use crate::entropy::{EntropySource, Exhausted};
pub use crate::error::FuzzError;
pub use crate::generator::{Generator, TypedMessage};
pub use crate::message::{R2RInt32Wrapper, R2RStringWrapper, Rgb, Test};
pub use crate::registry::GeneratorRegistry;
pub use crate::scheduler::{LoopPhase, Scheduler, SchedulerAction};
pub use crate::topic::{
    ErrorReport, SetupAction, TaskPhase, TaskState, TickAction, TopicDescriptor, TopicTask,
};
