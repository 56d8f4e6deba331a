//! Pre-boot firmware update loader: update-request records, their admission
//! and the per-record attempt lifecycle.
pub mod diagnostics;
pub mod orchestrator;
pub mod record;
pub mod registry;
