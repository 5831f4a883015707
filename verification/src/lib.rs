//! Idempotent provisioning steps, the manifest that orders them, and the
//! renderers that lower a manifest into a boot-time document or a script.

pub mod config;
pub mod digest;
pub mod error;
pub mod hetzner;
pub mod manifest;
pub mod progress;
pub mod remote;
pub mod render;
pub mod settings;
pub mod steps;
pub mod text;

pub use config::TenguConfig;
pub use error::ProvisionError;
pub use manifest::Manifest;
pub use remote::Baremetal;
pub use render::{BashRenderer, CloudInitRenderer, Renderer};
pub use steps::Step;
