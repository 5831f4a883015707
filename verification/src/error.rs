//! What can go wrong in a provisioning run.

use crate::text::{decimal, decimal_string, join, joined};
use vstd::prelude::*;
use vstd::string::*;

verus! {

/// Mathematical model of an error.
pub ghost enum ErrorView {
    ConfigurationInvalid { missing: Seq<Seq<char>> },
    ConnectionTimeout { host: Seq<char>, port: u16 },
    UploadFailed { stderr: Seq<char> },
    ScriptFailed { status: Seq<char> },
    CleanupFailed,
}

/// An error of a provisioning run.
#[derive(Debug, Clone, PartialEq, Eq)]
pub enum ProvisionError {
    /// Required credentials are absent; the fields that are missing are
    /// named. Found before anything touches the network.
    ConfigurationInvalid { missing: Vec<String> },
    /// The host never became reachable within the retry budget.
    ConnectionTimeout { host: String, port: u16 },
    /// The script could not be written to the host; the text is what the
    /// remote side reported.
    UploadFailed { stderr: String },
    /// The script ended with a failure; the text is its exit status.
    ScriptFailed { status: String },
    /// The uploaded script could not be removed.
    CleanupFailed,
}

impl View for ProvisionError {
    type V = ErrorView;

    open spec fn view(&self) -> ErrorView {
        match self {
            ProvisionError::ConfigurationInvalid { missing } => ErrorView::ConfigurationInvalid {
                missing: missing.deep_view(),
            },
            ProvisionError::ConnectionTimeout { host, port } => ErrorView::ConnectionTimeout {
                host: host@,
                port: *port,
            },
            ProvisionError::UploadFailed { stderr } => ErrorView::UploadFailed { stderr: stderr@ },
            ProvisionError::ScriptFailed { status } => ErrorView::ScriptFailed { status: status@ },
            ProvisionError::CleanupFailed => ErrorView::CleanupFailed,
        }
    }
}

impl ErrorView {
    /// Whether the error ends the run. Only a failed cleanup does not.
    pub open spec fn fatal(self) -> bool {
        !(self is CleanupFailed)
    }

    /// The error as a message for people.
    pub open spec fn message(self) -> Seq<char> {
        match self {
            ErrorView::ConfigurationInvalid { missing } => "Missing required credentials: "@
                + joined(missing, ", "@),
            ErrorView::ConnectionTimeout { host, port } => "Could not connect to "@ + host + ":"@
                + decimal(port as nat) + " via SSH"@,
            ErrorView::UploadFailed { stderr } => "Failed to upload script: "@ + stderr,
            ErrorView::ScriptFailed { status } => "Provisioning script failed with exit code: "@
                + status,
            ErrorView::CleanupFailed => "Warning: Could not remove temp script"@,
        }
    }
}

impl ProvisionError {
    /// Whether the error ends the run.
    pub fn is_fatal(&self) -> (r: bool)
        ensures
            r == self@.fatal(),
    {
        match self {
            ProvisionError::CleanupFailed => false,
            _ => true,
        }
    }

    /// The error as a message for people.
    pub fn message(&self) -> (r: String)
        ensures
            r@ == self@.message(),
    {
        match self {
            ProvisionError::ConfigurationInvalid { missing } => {
                let mut out = String::from_str("Missing required credentials: ");
                out.append(join(missing, ", ").as_str());
                out
            },
            ProvisionError::ConnectionTimeout { host, port } => {
                let mut out = String::from_str("Could not connect to ");
                out.append(host.as_str());
                out.append(":");
                out.append(decimal_string(*port as usize).as_str());
                out.append(" via SSH");
                out
            },
            ProvisionError::UploadFailed { stderr } => {
                let mut out = String::from_str("Failed to upload script: ");
                out.append(stderr.as_str());
                out
            },
            ProvisionError::ScriptFailed { status } => {
                let mut out = String::from_str("Provisioning script failed with exit code: ");
                out.append(status.as_str());
                out
            },
            ProvisionError::CleanupFailed => String::from_str(
                "Warning: Could not remove temp script",
            ),
        }
    }
}

} // verus!
