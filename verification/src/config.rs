//! The settings of the program: which model provider answers, and what
//! it needs.

use crate::paths::{join_path, spec_join_path};
use crate::text::{chars_of, string_of};
use vstd::prelude::*;

verus! {

/// The providers of models.
#[derive(Clone, Copy, Debug, PartialEq, Eq, Structural)]
pub enum ModelProvider {
    Gemini,
    Ollama,
}

impl ModelProvider {
    /// Whether the provider asks for an API key: Gemini does.
    pub fn requires_api_key(&self) -> (r: bool)
        ensures
            r == (*self == ModelProvider::Gemini),
    {
        match self {
            ModelProvider::Gemini => true,
            ModelProvider::Ollama => false,
        }
    }
}

impl Default for ModelProvider {
    fn default() -> (provider: Self)
        ensures
            provider == ModelProvider::Gemini,
    {
        ModelProvider::Gemini
    }
}

/// The provider to use: the one asked for, else the configured one.
pub fn resolve_provider(asked: Option<ModelProvider>, configured: ModelProvider) -> (provider:
    ModelProvider)
    ensures
        provider == match asked {
            Some(p) => p,
            None => configured,
        },
{
    match asked {
        Some(p) => p,
        None => configured,
    }
}

/// What is set for the Ollama provider.
#[derive(Debug, PartialEq, Eq)]
pub struct OllamaConfig {
    /// Where the Ollama server listens.
    pub endpoint: String,
}

impl Default for OllamaConfig {
    fn default() -> (config: Self)
        ensures
            config.endpoint@ == "http://localhost:11434"@,
    {
        OllamaConfig { endpoint: "http://localhost:11434".to_owned() }
    }
}

/// The settings.
#[derive(Debug, PartialEq, Eq)]
pub struct Config {
    /// The API key for Gemini; empty where none is set.
    pub api_key: String,
    /// The model that is used unless another is asked for.
    pub default_model: String,
    /// The system instruction that is used unless another is asked for.
    pub default_system_instruction: Option<String>,
    /// Whether sessions are saved without asking.
    pub auto_save: bool,
    /// Where sessions are saved.
    pub sessions_dir: String,
    /// The provider that is used unless another is asked for.
    pub provider: ModelProvider,
    /// What is set for the Ollama provider.
    pub ollama: OllamaConfig,
}

/// No API key is to be had, though one is needed.
#[derive(Clone, Copy, Debug, PartialEq, Eq, Structural)]
pub struct MissingApiKey;

impl MissingApiKey {
    /// The error in words.
    pub fn message(&self) -> (text: &'static str)
        ensures
            text@
                == "No API key found. Please set GEMINI_API_KEY environment variable or run 'chatter config set-api-key'"@,
    {
        "No API key found. Please set GEMINI_API_KEY environment variable or run 'chatter config set-api-key'"
    }
}

impl Config {
    /// The settings to start from, with the sessions kept below the
    /// directory of the program's files.
    pub fn in_directory(config_dir: &str) -> (config: Config)
        ensures
            config.api_key@.len() == 0,
            config.default_model@ == "gemini-2.5-flash"@,
            config.default_system_instruction is None,
            !config.auto_save,
            config.sessions_dir@ == spec_join_path(config_dir@, "sessions"@),
            config.provider == ModelProvider::Gemini,
            config.ollama.endpoint@ == "http://localhost:11434"@,
    {
        let dir = chars_of(config_dir);
        let sessions = chars_of("sessions");
        Config {
            api_key: String::new(),
            default_model: "gemini-2.5-flash".to_owned(),
            default_system_instruction: None,
            auto_save: false,
            sessions_dir: string_of(join_path(dir.as_slice(), sessions.as_slice()).as_slice()),
            provider: ModelProvider::Gemini,
            ollama: OllamaConfig::default(),
        }
    }

    /// Whether the settings can be used as they are: no key is required,
    /// or the provider asks for none, or a key is set.
    pub open spec fn is_usable(self, require_api_key: bool) -> bool {
        !require_api_key || self.provider != ModelProvider::Gemini || self.api_key@.len() > 0
    }

    /// Settles which settings hold. Those that were loaded hold if they
    /// can be used as they are. Else the defaults hold, with the key of the
    /// environment where their provider asks for a key and the environment
    /// has one; where it asks for one, a key is required, and none is to be
    /// had, that is an error.
    pub fn resolve(
        loaded: Option<Config>,
        defaults: Config,
        environment_key: Option<String>,
        require_api_key: bool,
    ) -> (r: Result<Config, MissingApiKey>)
        ensures
            match loaded {
                Some(config) if config.is_usable(require_api_key) => r == Ok::<
                    Config,
                    MissingApiKey,
                >(config),
                _ => if defaults.provider != ModelProvider::Gemini {
                    r == Ok::<Config, MissingApiKey>(defaults)
                } else {
                    match environment_key {
                        Some(key) => r == Ok::<Config, MissingApiKey>(
                            Config { api_key: key, ..defaults },
                        ),
                        None => if require_api_key && defaults.api_key@.len() == 0 {
                            r is Err
                        } else {
                            r == Ok::<Config, MissingApiKey>(defaults)
                        },
                    }
                },
            },
    {
        match loaded {
            Some(config) => {
                if !require_api_key || !config.provider.requires_api_key()
                    || !config.api_key.as_str().is_empty() {
                    return Ok(config);
                }
            },
            None => {},
        }
        let mut config = defaults;
        if config.provider.requires_api_key() {
            match environment_key {
                Some(key) => {
                    config.api_key = key;
                },
                None => {
                    if require_api_key && config.api_key.as_str().is_empty() {
                        return Err(MissingApiKey);
                    }
                },
            }
        }
        Ok(config)
    }
}

} // verus!
