//! A minimal greeting service, modelled so that its behaviour can be verified:
//! the router that answers `GET /`, the trace spans each request emits, the
//! exporter configuration, and the graceful-shutdown state machine.

pub mod http;
pub mod shutdown;
pub mod telemetry;
pub mod trace;
