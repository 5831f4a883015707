//! Renderers: lowering passes from a manifest to an output artifact.

pub mod bash;
pub mod cloud_init;
pub mod yaml;

pub use bash::BashRenderer;
pub use cloud_init::CloudInitRenderer;

use crate::manifest::Manifest;
use vstd::prelude::*;
use vstd::string::*;

verus! {

/// Why a manifest could not be rendered.
#[derive(Debug, Clone, PartialEq, Eq)]
pub enum RenderError {
    /// The document could not be written as YAML; the text is the
    /// serialiser's message.
    Serialization(String),
}

impl RenderError {
    /// The error as a message for people.
    pub fn message(&self) -> (r: String)
        ensures
            r@ == match *self {
                RenderError::Serialization(reason) => "Failed to serialize document: "@ + reason@,
            },
    {
        match self {
            RenderError::Serialization(reason) => {
                let mut out = String::from_str("Failed to serialize document: ");
                out.append(reason.as_str());
                out
            },
        }
    }
}

/// A renderer lowers a manifest into one output format.
pub trait Renderer {
    /// What is produced.
    type Output;

    /// What can go wrong.
    type Error;

    /// Renders the manifest.
    fn render(&self, manifest: &Manifest) -> Result<Self::Output, Self::Error>;
}

} // verus!
