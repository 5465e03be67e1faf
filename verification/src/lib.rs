//! Client-side telemetry batching: events are buffered in a queue, coalesced
//! into bounded batches and handed out for best-effort delivery.

pub mod delivery;
pub mod event;
pub mod laws;
pub mod model;
pub mod policy;
pub mod state;
pub mod wire;

pub use delivery::{Action, Delivery, Mirror, Progress};
pub use event::{ClickhouseEvent, ClickhouseEventWrapper};
pub use policy::BuildProfile;
pub use state::{Admission, Telemetry, TelemetrySettings};
pub use wire::{clickhouse_events_url, log_lines, ClickhouseEventRequestBody};
