//! Self-update engine for desktop applications: release checking, download
//! planning, artifact verification and platform install protocols, with the
//! decisions proved correct against their contracts.

pub mod version;
pub mod error;
pub mod release;
pub mod source;
pub mod status;
pub mod text;
pub mod http;
pub mod verify;
pub mod paths;
pub mod engine;
pub mod install;
pub mod updater;

pub use engine::{EngineConfig, UpdateEngine};
pub use error::Error;
pub use install::Installed;
pub use release::{Asset, Release};
pub use source::UpdateSource;
pub use status::UpdateStatus;
pub use updater::Updater;
pub use verify::Verification;
pub use version::AppVersion;
