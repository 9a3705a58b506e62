//! Shared building blocks for command-line tools: repository identity,
//! health-check results, license and terminal text, and a verified
//! self-update flow.

pub mod completions;
pub mod doctor;
pub mod integrity;
pub mod license;
pub mod orchestrator;
pub mod output;
pub mod release;
pub mod text;
pub mod types;
pub mod update;

pub use doctor::DoctorChecks;
pub use license::{display_license, LicenseType};
pub use types::{DoctorCheck, RepoInfo};
