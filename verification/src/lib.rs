//! Per-disk temperature reporting: device identity and eligibility, the
//! rule-based extraction of a temperature from a diagnostic document, and the
//! assembly of one reporting cycle's samples into a metrics exposition.

pub mod cycle;
pub mod error;
pub mod json;
pub mod lsblk;
pub mod metrics;
pub mod options;
pub mod rule_engine;
pub mod text;

pub use cycle::process_device;
pub use cycle::DeviceFailure;
pub use cycle::Report;
pub use cycle::Sample;
pub use error::ExporterError;
pub use json::Document;
pub use lsblk::BlockDevice;
pub use lsblk::DeviceIdentity;
pub use lsblk::trim_block_devices;
pub use options::InvalidExcludeRegex;
pub use options::Options;
pub use rule_engine::process_rules;
pub use rule_engine::Rule;
