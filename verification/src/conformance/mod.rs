//! Conformance of a bridge with the codex app-server: what was captured on the
//! wire is checked frame by frame, across frames, and against codex itself.

pub mod content_laws;
pub mod diff;
pub mod diff_laws;
pub mod divergence;
pub mod event_laws;
pub mod finding;
pub mod finding_laws;
pub mod fingerprint;
pub mod method_surface;
pub mod prereq;
pub mod report_laws;
pub mod scenario;
pub mod scenario_laws;
pub mod semantics;
pub mod stream_laws;
pub mod streaming;
pub mod surface_laws;
pub mod targets;
pub mod transcript;
pub mod transport;
pub mod upstream_schema;
