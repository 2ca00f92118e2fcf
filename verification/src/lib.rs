//! The decision core of an agent that forwards batches of local change events
//! to a remote collection service.
//!
//! The agent dials the service, fetches a baseline, starts a collector task
//! that fills a bounded queue, and sends what it takes off the queue, one batch
//! at a time. When anything fails it cancels the collector, pauses, and begins
//! again. Dialling, awaiting and sleeping are done by a driver; this crate
//! decides, for each thing the driver observes, what the driver does next.

pub mod endpoint;
pub mod protocol;
pub mod runs;
pub mod submitter;

pub use endpoint::ClientCli;
pub use protocol::{Action, Event, Phase, SessionError, Stage, BACKOFF_SECONDS, QUEUE_CAPACITY};
pub use submitter::{EventSubmitter, SubmitterView};
