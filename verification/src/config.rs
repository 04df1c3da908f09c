//! Where the model is reached and which model is used, as the environment
//! chooses them.

use vstd::prelude::*;

use crate::backend::llm::ProviderConfig;
use crate::text::str_eq;

verus! {

/// The environment variables the configuration reads, each as present
/// (and valid Unicode) or not.
pub struct EnvVars {
    /// `LOCAL_OLLAMA_URL`
    pub local_ollama_url: Option<String>,
    /// `OPENROUTER_BASE_URL`
    pub openrouter_base_url: Option<String>,
    /// `OPENROUTER_API_KEY`
    pub openrouter_api_key: Option<String>,
    /// `LOCAL`
    pub local: Option<String>,
    /// `LOCAL_MODEL`
    pub local_model: Option<String>,
}

/// The configuration of the front ends.
pub struct Config {
    pub provider: ProviderConfig,
}

/// The service used when no base URL is set.
pub open spec fn default_base_url() -> Seq<char> {
    "https://openrouter.ai/api/v1"@
}

/// The model ids used when the environment names none: one for running
/// locally, one for the remote service.
pub struct ModelDefaults {
    pub local: String,
    pub remote: String,
}

/// The local base URL wins over the remote one, which wins over the default.
pub open spec fn spec_base_url(env: EnvVars) -> Seq<char> {
    match env.local_ollama_url {
        Some(u) => u@,
        None => match env.openrouter_base_url {
            Some(u) => u@,
            None => default_base_url(),
        },
    }
}

/// The base URL does not depend on whether the agent runs locally: two
/// environments that agree on the two URL variables choose the same base URL.
pub proof fn lemma_base_url_ignores_local(e1: EnvVars, e2: EnvVars)
    requires
        e1.local_ollama_url == e2.local_ollama_url,
        e1.openrouter_base_url == e2.openrouter_base_url,
    ensures
        spec_base_url(e1) == spec_base_url(e2),
{
}

/// A set `LOCAL_OLLAMA_URL` wins; otherwise a set `OPENROUTER_BASE_URL`;
/// otherwise the OpenRouter service.
pub proof fn lemma_base_url_choice(env: EnvVars)
    ensures
        env.local_ollama_url matches Some(u) ==> spec_base_url(env) == u@,
        env.local_ollama_url is None ==> (env.openrouter_base_url matches Some(u) ==> spec_base_url(env)
            == u@),
        env.local_ollama_url is None && env.openrouter_base_url is None ==> spec_base_url(env)
            == "https://openrouter.ai/api/v1"@,
{
}

/// Running locally is asked for by `LOCAL=true` exactly.
pub open spec fn spec_is_local(env: EnvVars) -> bool {
    match env.local {
        Some(l) => l@ == "true"@,
        None => false,
    }
}

/// Locally the named local model or the local default; otherwise the remote
/// default.
pub open spec fn spec_model(env: EnvVars, defaults: ModelDefaults) -> Seq<char> {
    if spec_is_local(env) {
        match env.local_model {
            Some(m) => m@,
            None => defaults.local@,
        }
    } else {
        defaults.remote@
    }
}

impl Config {
    /// The configuration the environment chooses; replies are always streamed.
    pub fn from_env(env: EnvVars, defaults: ModelDefaults) -> (res: Config)
        ensures
            res.provider.base_url@ == spec_base_url(env),
            env.local_ollama_url matches Some(u) ==> res.provider.base_url == u,
            env.local_ollama_url is None ==> (env.openrouter_base_url matches Some(u)
                ==> res.provider.base_url == u),
            res.provider.api_key == env.openrouter_api_key,
            res.provider.model@ == spec_model(env, defaults),
            res.provider.streaming,
    {
        let base_url = match env.local_ollama_url {
            Some(u) => u,
            None => match env.openrouter_base_url {
                Some(u) => u,
                None => String::from_str("https://openrouter.ai/api/v1"),
            },
        };
        let is_local = match &env.local {
            Some(l) => str_eq(l.as_str(), "true"),
            None => false,
        };
        let model = if is_local {
            match env.local_model {
                Some(m) => m,
                None => defaults.local,
            }
        } else {
            defaults.remote
        };
        Config {
            provider: ProviderConfig {
                base_url,
                api_key: env.openrouter_api_key,
                model,
                streaming: true,
            },
        }
    }
}

} // verus!
