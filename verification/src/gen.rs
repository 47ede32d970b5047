//! The normalized request and result types shared by every provider.

use vstd::prelude::*;
use crate::params::ParamValue;

verus! {

/// A normalized generation request. `model` selects the generation path
/// within a provider; `parameters` carries the provider-specific knobs.
#[derive(Debug, PartialEq)]
pub struct GenerationRequest {
    pub prompt: String,
    pub model: String,
    pub parameters: ParamValue,
}

/// A normalized generation result. At most one of `output_url` and
/// `output_data` is authoritative per provider; after output normalization
/// an inline payload has moved to disk, `output_url` and `file_path` point
/// at it and `output_data` is cleared.
#[derive(Debug, PartialEq)]
pub struct GenerationResult {
    pub output_url: Option<String>,
    pub output_data: Option<String>,
    pub file_path: Option<String>,
    pub metadata: ParamValue,
}

} // verus!
