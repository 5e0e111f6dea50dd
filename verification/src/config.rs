//! The client's configuration: the models it may talk to, the model in use,
//! the default system prompt and the streaming preference. Reading and
//! writing the file that keeps it is the caller's.

use crate::llm_provider::{Provider, ProviderConfig};
use crate::string_map::StringMap;
use crate::text::{opt_text, str_eq};
use vstd::prelude::*;
use vstd::string::StringExecFns;

verus! {

/// The name under which the default model is kept.
pub const DEFAULT_MODEL_NAME: &'static str = "openai";

/// The endpoint of the default model.
pub const DEFAULT_API_URL: &'static str = "https://api.openai.com/v1/chat/completions";

/// The default model.
pub const DEFAULT_MODEL: &'static str = "gpt-3.5-turbo";

/// The system prompt of a configuration file that names none.
pub const DEFAULT_SYSTEM_PROMPT: &'static str = "your are a AI assistant";

/// How one model is reached.
#[derive(Debug, PartialEq, Eq)]
pub struct ModelConfig {
    pub api_key: String,
    pub api_url: String,
    pub model: String,
}

/// The client's configuration.
#[derive(Debug)]
pub struct Config {
    pub models: StringMap<ModelConfig>,
    /// The name of the model in use.
    pub current_model: Option<String>,
    pub system_prompt: Option<String>,
    /// Whether answers are streamed.
    pub stream: bool,
}

/// Why a change to the configuration was refused.
#[derive(Debug, PartialEq, Eq)]
pub enum ConfigError {
    /// No model has this name.
    ModelNotFound(String),
}

/// The mathematical value of a [`ConfigError`].
pub enum ConfigFault {
    ModelNotFound(Seq<char>),
}

impl View for ConfigError {
    type V = ConfigFault;

    open spec fn view(&self) -> ConfigFault {
        match *self {
            ConfigError::ModelNotFound(n) => ConfigFault::ModelNotFound(n@),
        }
    }
}

impl ConfigError {
    /// What the user is told.
    pub fn message(&self) -> (r: String)
        ensures
            self@ matches ConfigFault::ModelNotFound(n) && r@ == "model not found: "@ + n,
    {
        match self {
            ConfigError::ModelNotFound(n) => {
                let mut r = "model not found: ".to_string();
                r.append(n.as_str());
                r
            },
        }
    }
}

/// The system prompt that a configuration file has when it names none.
pub fn default_model() -> (r: Option<String>)
    ensures
        opt_text(r) == Some(DEFAULT_SYSTEM_PROMPT@),
{
    Some(DEFAULT_SYSTEM_PROMPT.to_string())
}

/// The streaming preference that a configuration file has when it names none.
pub fn default_stream() -> (r: bool)
    ensures
        r,
{
    true
}

/// The name of the model in use once `name` is gone: the model that was in
/// use if that is another one, else the first of the models left, if any.
pub open spec fn current_after_removal(
    current: Option<Seq<char>>,
    name: Seq<char>,
    left: Seq<Seq<char>>,
) -> Option<Seq<char>> {
    if current == Some(name) {
        if left.len() > 0 {
            Some(left[0])
        } else {
            None
        }
    } else {
        current
    }
}

impl Config {
    /// A configuration without models, without a system prompt and without
    /// streaming.
    pub fn new() -> (c: Config)
        ensures
            c.models@ == Map::<Seq<char>, ModelConfig>::empty(),
            c.models.keys() == Seq::<Seq<char>>::empty(),
            c.current_model is None,
            c.system_prompt is None,
            !c.stream,
    {
        Config { models: StringMap::new(), current_model: None, system_prompt: None, stream: false }
    }

    /// Where no model is in use, adds the default model without a key and
    /// puts it in use. Answers whether it did.
    pub fn ensure_default_model(&mut self) -> (added: bool)
        ensures
            added == (old(self).current_model is None),
            final(self).system_prompt == old(self).system_prompt,
            final(self).stream == old(self).stream,
            !added ==> *final(self) == *old(self),
            added ==> {
                &&& opt_text(final(self).current_model) == Some(DEFAULT_MODEL_NAME@)
                &&& final(self).models.keys() == old(self).models.keys_with(DEFAULT_MODEL_NAME@)
                &&& final(self).models@.dom() == old(self).models@.dom().insert(DEFAULT_MODEL_NAME@)
                &&& forall|k: Seq<char>|
                    k != DEFAULT_MODEL_NAME@ && old(self).models@.dom().contains(k) ==> final(self).models@[k] == old(self).models@[k]
                &&& final(self).models@[DEFAULT_MODEL_NAME@].api_key@ == Seq::<char>::empty()
                &&& final(self).models@[DEFAULT_MODEL_NAME@].api_url@ == DEFAULT_API_URL@
                &&& final(self).models@[DEFAULT_MODEL_NAME@].model@ == DEFAULT_MODEL@
            },
    {
        if self.current_model.is_some() {
            return false;
        }
        let model = ModelConfig {
            api_key: String::new(),
            api_url: DEFAULT_API_URL.to_string(),
            model: DEFAULT_MODEL.to_string(),
        };
        let _ = self.models.insert(DEFAULT_MODEL_NAME.to_string(), model);
        self.current_model = Some(DEFAULT_MODEL_NAME.to_string());
        true
    }

    /// Adds the model `name`, in place of any model of that name. The first
    /// model that is added while none is in use is put in use.
    pub fn add_model(&mut self, name: String, api_key: String, api_url: String, model: String)
        ensures
            final(self).models@ == old(self).models@.insert(
                name@,
                ModelConfig { api_key, api_url, model },
            ),
            final(self).models.keys() == old(self).models.keys_with(name@),
            opt_text(final(self).current_model) == match old(self).current_model {
                Some(c) => Some(c@),
                None => Some(name@),
            },
            final(self).system_prompt == old(self).system_prompt,
            final(self).stream == old(self).stream,
    {
        let key = name.clone();
        let _ = self.models.insert(key, ModelConfig { api_key, api_url, model });
        if self.current_model.is_none() {
            self.current_model = Some(name);
        }
    }

    /// Removes the model `name`. If it was in use, the first of the models
    /// that are left is put in use.
    pub fn remove_model(&mut self, name: &str) -> (r: Result<(), ConfigError>)
        ensures
            final(self).system_prompt == old(self).system_prompt,
            final(self).stream == old(self).stream,
            final(self).models@ == old(self).models@.remove(name@),
            final(self).models.keys() == old(self).models.keys_without(name@),
            match r {
                Ok(_) => {
                    &&& old(self).models@.dom().contains(name@)
                    &&& opt_text(final(self).current_model) == current_after_removal(
                        opt_text(old(self).current_model),
                        name@,
                        final(self).models.keys(),
                    )
                },
                Err(e) => {
                    &&& !old(self).models@.dom().contains(name@)
                    &&& final(self).current_model == old(self).current_model
                    &&& e@ == ConfigFault::ModelNotFound(name@)
                },
            },
    {
        match self.models.remove(name) {
            Some(_) => {
                let was_current = match &self.current_model {
                    Some(c) => str_eq(c.as_str(), name),
                    None => false,
                };
                if was_current {
                    if self.models.len() > 0 {
                        self.current_model = Some(self.models.key_at(0).clone());
                    } else {
                        self.current_model = None;
                    }
                }
                Ok(())
            },
            None => Err(ConfigError::ModelNotFound(name.to_string())),
        }
    }

    /// Puts the model `name` in use. The model must exist.
    pub fn set_current_model(&mut self, name: &str) -> (r: Result<(), ConfigError>)
        ensures
            final(self).models == old(self).models,
            final(self).system_prompt == old(self).system_prompt,
            final(self).stream == old(self).stream,
            match r {
                Ok(_) => old(self).models@.dom().contains(name@) && opt_text(
                    final(self).current_model,
                ) == Some(name@),
                Err(e) => !old(self).models@.dom().contains(name@) && final(self).current_model
                    == old(self).current_model && e@ == ConfigFault::ModelNotFound(name@),
            },
    {
        if self.models.contains_key(name) {
            self.current_model = Some(name.to_string());
            Ok(())
        } else {
            Err(ConfigError::ModelNotFound(name.to_string()))
        }
    }

    /// The model in use with its name: the model whose name is kept as
    /// current, if that model exists.
    pub fn get_current_model(&self) -> (r: Option<(&str, &ModelConfig)>)
        ensures
            match r {
                Some((name, model)) => opt_text(self.current_model) == Some(name@)
                    && self.models.value_of(name@) == Some(*model),
                None => self.current_model matches Some(n) ==> self.models.value_of(n@) is None,
            },
    {
        match &self.current_model {
            Some(name) => match self.models.get(name.as_str()) {
                Some(model) => Some((name.as_str(), model)),
                None => None,
            },
            None => None,
        }
    }

    /// Sets or clears the default system prompt.
    pub fn set_system_prompt(&mut self, prompt: Option<String>)
        ensures
            final(self).system_prompt == prompt,
            final(self).models == old(self).models,
            final(self).current_model == old(self).current_model,
            final(self).stream == old(self).stream,
    {
        self.system_prompt = prompt;
    }

    /// Turns streaming on or off.
    pub fn set_stream(&mut self, enabled: bool)
        ensures
            final(self).stream == enabled,
            final(self).models == old(self).models,
            final(self).current_model == old(self).current_model,
            final(self).system_prompt == old(self).system_prompt,
    {
        self.stream = enabled;
    }

    /// The provider for the model in use, with JSON mode as asked; `None`
    /// where no model is in use.
    pub fn provider(&self, json_mode: bool) -> (r: Option<Provider>)
        ensures
            match r {
                Some(p) => self.current_model matches Some(n) && self.models.value_of(n@)
                    matches Some(m) && p@ == (ProviderConfig {
                    api_key: m.api_key@,
                    api_url: m.api_url@,
                    model: m.model@,
                    json_mode,
                    functions: None,
                }),
                None => self.current_model matches Some(n) ==> self.models.value_of(n@) is None,
            },
    {
        match self.get_current_model() {
            Some((_, m)) => Some(
                Provider::new(m.api_key.clone()).with_url(m.api_url.clone()).with_model(
                    m.model.clone(),
                ).with_json_mode(json_mode),
            ),
            None => None,
        }
    }
}

impl Default for Config {
    fn default() -> (c: Config)
        ensures
            c.models@ == Map::<Seq<char>, ModelConfig>::empty(),
            c.current_model is None,
            c.system_prompt is None,
            !c.stream,
    {
        Config::new()
    }
}

} // verus!
