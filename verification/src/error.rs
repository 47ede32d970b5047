//! The error taxonomy surfaced by providers, the poller, the generation
//! service and the job processor.

use vstd::prelude::*;
use crate::numfmt::{spec_digits, u64_to_string};
use crate::strutil::concat3;

verus! {

/// Everything that can go wrong while serving a generation request.
#[derive(Debug, PartialEq)]
pub enum GenError {
    /// The provider holds no usable credentials or endpoint; `detail` names
    /// what is missing.
    NotConfigured { detail: String },
    /// No provider of this name is registered.
    ProviderNotFound { name: String },
    /// Configuration named a provider outside the closed, compiled-in set.
    UnknownProvider { detail: String },
    /// The request named a model this provider does not route; `detail`
    /// names the model and the supported set.
    UnsupportedModel { model: String, detail: String },
    /// A remote endpoint answered outside the 2xx range, or reported a
    /// terminal operation failure; `body` carries the remote text.
    Remote { status: u16, body: String },
    /// A response lacked a field the wire protocol promises.
    Malformed { reason: String },
    /// A long-running operation stayed unfinished through the attempt
    /// ceiling.
    Timeout { attempts: u32 },
    /// The request lacked a parameter the provider cannot work without.
    InvalidRequest { detail: String },
    /// A payload failed base64 decoding.
    Decode { detail: String },
    /// The provider exists as a placeholder without a working integration.
    NotImplemented { detail: String },
}

/// The rendered text of an error, as stored on a failed job.
pub open spec fn spec_message(e: GenError) -> Seq<char> {
    match e {
        GenError::NotConfigured { detail } => detail@,
        GenError::ProviderNotFound { name } => "Provider not found: "@ + name@,
        GenError::UnknownProvider { detail } => detail@,
        GenError::UnsupportedModel { model: _, detail } => detail@,
        GenError::Remote { status, body } => "API error ("@ + spec_digits(status as nat) + "): "@
            + body@,
        GenError::Malformed { reason } => "Malformed response: "@ + reason@,
        GenError::Timeout { attempts } => "Generation timed out after "@ + spec_digits(
            attempts as nat,
        ) + " attempts"@,
        GenError::InvalidRequest { detail } => detail@,
        GenError::Decode { detail } => "Decode error: "@ + detail@,
        GenError::NotImplemented { detail } => detail@,
    }
}

impl GenError {
    /// The human-readable description of the error.
    pub fn message(self) -> (r: String)
        ensures
            r@ == spec_message(self),
    {
        match self {
            GenError::NotConfigured { detail } => detail,
            GenError::ProviderNotFound { name } => {
                let mut out = String::from_str("Provider not found: ");
                out.append(name.as_str());
                out
            },
            GenError::UnknownProvider { detail } => detail,
            GenError::UnsupportedModel { model: _, detail } => detail,
            GenError::Remote { status, body } => {
                let digits = u64_to_string(status as u64);
                let mut out = concat3("API error (", digits.as_str(), "): ");
                out.append(body.as_str());
                out
            },
            GenError::Malformed { reason } => {
                let mut out = String::from_str("Malformed response: ");
                out.append(reason.as_str());
                out
            },
            GenError::Timeout { attempts } => {
                let digits = u64_to_string(attempts as u64);
                concat3("Generation timed out after ", digits.as_str(), " attempts")
            },
            GenError::InvalidRequest { detail } => detail,
            GenError::Decode { detail } => {
                let mut out = String::from_str("Decode error: ");
                out.append(detail.as_str());
                out
            },
            GenError::NotImplemented { detail } => detail,
        }
    }
}

} // verus!
