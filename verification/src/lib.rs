//! Verified core of a Node.js binding for the ISA-L gzip, deflate and zlib codecs.
//!
//! The host-facing glue (argument marshalling, buffers, promises, the worker
//! pool) and the codec itself live outside this crate. What is verified here is
//! everything the binding decides: which levels are accepted, which operations
//! are exported and under which names, what an invocation does in response to
//! each event of its life, and how every failure is worded.

pub mod blocking;
pub mod error;
pub mod invocation;
pub mod level;
pub mod operation;
pub mod registration;
pub mod trace;

pub use blocking::run_blocking;
pub use error::BindingError;
pub use invocation::{Action, Event, Invocation, Job, Phase};
pub use level::{parse_level, CompressionLevel};
pub use operation::{all_operations, Codec, Direction, Mode, Operation, OPERATION_COUNT};
pub use registration::{Registration, RegistrationStep};
