//! Locates installed Wolfram applications and reads their version and
//! file-layout metadata.
//!
//! The library decides; its caller reads. Platform adapters ([`linux`],
//! [`macos`], [`windows`]) turn what was read from the file system, bundle
//! metadata or the registry into [`WolframApp`] values; [`discovery`] ranks,
//! filters and picks the default installation; [`WolframApp`] and
//! [`WstpSdk`] compute the locations of an installation's resources.

pub mod app;
pub mod app_type;
pub mod build_scripts;
pub mod config;
pub mod discovery;
pub mod error;
pub mod linux;
pub mod macos;
pub mod open;
pub mod output;
pub mod paths;
pub mod platform;
pub mod sdk;
pub mod text;
pub mod version;
pub mod windows;

pub use app::{Filter, WolframApp};
pub use app_type::WolframAppType;
pub use discovery::{discover, discover_with_filter};
pub use error::Error;
pub use platform::{system_id_from_target, SystemID};
pub use sdk::WstpSdk;
pub use version::{AppVersion, WolframVersion};
