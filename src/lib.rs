//! Call instrumentation: every call of a wrapped function becomes a trace
//! record, held for the calling context and handed to a remote trace store.
pub mod types;
pub mod client;
pub mod registry;
pub mod context;
pub mod capture;

pub use types::{Payload, Timestamp, Trace};
pub use client::TracerClient;
pub use context::{set_current_trace, take_current_trace, TraceSlot};
pub use capture::{begin_capture, capture_response, Delivery};
pub use registry::{get_tracer, init_tracer, TracerRegistry};
