//! The Midjourney provider: a placeholder without a working integration.
//! Every generation call fails, whatever the configuration.

use vstd::prelude::*;
use crate::error::GenError;
use crate::gen::GenerationRequest;
use crate::session::GenStep;

use crate::providers::{schema_field, schema_with, spec_schema_field, spec_schema_props};
use crate::params::{kv, ParamValue};

verus! {

/// Midjourney provider configuration.
#[derive(Debug, PartialEq)]
pub struct MidjourneyConfig {
    pub api_key: String,
}

/// Midjourney provider placeholder.
#[derive(Debug, PartialEq)]
pub struct MidjourneyProvider {
    pub config: Option<MidjourneyConfig>,
}

impl MidjourneyProvider {
    /// An unconfigured placeholder.
    pub fn new() -> (r: Self)
        ensures
            r.config is None,
    {
        MidjourneyProvider { config: None }
    }

    /// A configured instance.
    pub fn with_config(config: MidjourneyConfig) -> (r: Self)
        ensures
            r.config == Some(config),
    {
        MidjourneyProvider { config: Some(config) }
    }

    /// The registry key of this provider.
    pub fn name(&self) -> (r: &'static str)
        ensures
            r@ == "midjourney"@,
    {
        "midjourney"
    }

    /// Whether the instance holds usable configuration.
    pub fn is_available(&self) -> (r: bool)
        ensures
            r == (self.config is Some),
    {
        self.config.is_some()
    }

    /// Every generation call fails: no integration stands behind this
    /// provider yet.
    pub fn begin(&self, req: GenerationRequest) -> (r: GenStep)
        ensures
            r matches GenStep::Fail { error: GenError::NotImplemented { detail } } && detail@
                == "Midjourney integration coming soon"@,
    {
        let _ = req;
        GenStep::Fail {
            error: GenError::NotImplemented {
                detail: String::from_str("Midjourney integration coming soon"),
            },
        }
    }
}

/// The declared configuration fields of this provider, for UI generation.
pub open spec fn spec_config_schema(r: ParamValue) -> bool {
    match spec_schema_props(r, "api_key"@) {
        Some(ps) => {
            &&& ps.len() == 1
        &&& ps[0].0@ == "api_key"@
        &&& spec_schema_field(ps[0].1, "string"@, "API Key"@, Some("Your Midjourney API key (from third-party service)"@), None)
        },
        None => false,
    }
}

impl MidjourneyProvider {
    /// The configuration fields a caller must supply, as a schema document.
    pub fn config_schema(&self) -> (r: ParamValue)
        ensures
            spec_config_schema(r),
    {
        let mut props: Vec<(String, ParamValue)> = Vec::new();
        props.push(kv("api_key", schema_field("string", "API Key", Some("Your Midjourney API key (from third-party service)"), None)));
        schema_with(props, "api_key")
    }
}

} // verus!
