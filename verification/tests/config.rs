use gpt_shell::config::{
    default_model, default_stream, Config, ConfigError, ModelConfig, DEFAULT_API_URL,
    DEFAULT_MODEL, DEFAULT_MODEL_NAME,
};

fn model(key: &str, url: &str, name: &str) -> ModelConfig {
    ModelConfig { api_key: key.to_string(), api_url: url.to_string(), model: name.to_string() }
}

fn add(config: &mut Config, name: &str) {
    config.add_model(
        name.to_string(),
        format!("key-{}", name),
        format!("https://{}.example/v1", name),
        format!("{}-model", name),
    );
}

#[test]
fn a_new_configuration_is_bare() {
    let config = Config::new();
    assert!(config.models.is_empty());
    assert_eq!(config.current_model, None);
    assert_eq!(config.system_prompt, None);
    assert!(!config.stream);
    assert_eq!(config.get_current_model(), None);
    assert!(config.provider(false).is_none());
    assert!(!Config::default().stream);
}

#[test]
fn the_defaults_of_a_configuration_file() {
    assert_eq!(default_model(), Some("your are a AI assistant".to_string()));
    assert!(default_stream());
}

#[test]
fn the_default_model_is_added_where_none_is_in_use() {
    let mut config = Config::new();
    assert!(config.ensure_default_model());
    assert_eq!(config.current_model, Some("openai".to_string()));
    assert_eq!(
        config.models.get(DEFAULT_MODEL_NAME),
        Some(&model("", "https://api.openai.com/v1/chat/completions", "gpt-3.5-turbo"))
    );
    assert_eq!(DEFAULT_API_URL, "https://api.openai.com/v1/chat/completions");
    assert_eq!(DEFAULT_MODEL, "gpt-3.5-turbo");
    assert!(!config.ensure_default_model());
    assert_eq!(config.models.len(), 1);
}

#[test]
fn the_default_model_is_not_added_where_a_model_is_in_use() {
    let mut config = Config::new();
    add(&mut config, "deepseek");
    assert!(!config.ensure_default_model());
    assert_eq!(config.models.len(), 1);
    assert_eq!(config.current_model, Some("deepseek".to_string()));
}

#[test]
fn the_first_model_added_is_put_in_use() {
    let mut config = Config::new();
    add(&mut config, "a");
    add(&mut config, "b");
    assert_eq!(config.current_model, Some("a".to_string()));
    let (name, current) = config.get_current_model().unwrap();
    assert_eq!(name, "a");
    assert_eq!(current, &model("key-a", "https://a.example/v1", "a-model"));
    assert_eq!(config.models.len(), 2);
}

#[test]
fn adding_a_model_again_replaces_it() {
    let mut config = Config::new();
    add(&mut config, "a");
    config.add_model("a".to_string(), "k2".to_string(), "u2".to_string(), "m2".to_string());
    assert_eq!(config.models.len(), 1);
    assert_eq!(config.models.get("a"), Some(&model("k2", "u2", "m2")));
}

#[test]
fn removing_the_model_in_use_puts_the_first_one_left_in_use() {
    let mut config = Config::new();
    add(&mut config, "a");
    add(&mut config, "b");
    add(&mut config, "c");
    assert_eq!(config.remove_model("a"), Ok(()));
    assert_eq!(config.current_model, Some("b".to_string()));
    assert_eq!(config.remove_model("c"), Ok(()));
    assert_eq!(config.current_model, Some("b".to_string()));
    assert_eq!(config.remove_model("b"), Ok(()));
    assert_eq!(config.current_model, None);
    assert!(config.models.is_empty());
}

#[test]
fn removing_a_model_that_is_not_there_fails() {
    let mut config = Config::new();
    add(&mut config, "a");
    assert_eq!(config.remove_model("b"), Err(ConfigError::ModelNotFound("b".to_string())));
    assert_eq!(config.current_model, Some("a".to_string()));
    assert_eq!(config.models.len(), 1);
}

#[test]
fn only_a_model_that_exists_can_be_put_in_use() {
    let mut config = Config::new();
    add(&mut config, "a");
    add(&mut config, "b");
    assert_eq!(config.set_current_model("b"), Ok(()));
    assert_eq!(config.current_model, Some("b".to_string()));
    assert_eq!(config.set_current_model("c"), Err(ConfigError::ModelNotFound("c".to_string())));
    assert_eq!(config.current_model, Some("b".to_string()));
    assert_eq!(
        ConfigError::ModelNotFound("c".to_string()).message(),
        "model not found: c"
    );
}

#[test]
fn system_prompt_and_stream_are_set_as_given() {
    let mut config = Config::new();
    config.set_system_prompt(Some("be kind".to_string()));
    assert_eq!(config.system_prompt, Some("be kind".to_string()));
    config.set_system_prompt(None);
    assert_eq!(config.system_prompt, None);
    config.set_stream(true);
    assert!(config.stream);
    config.set_stream(false);
    assert!(!config.stream);
}

#[test]
fn the_provider_is_built_from_the_model_in_use() {
    let mut config = Config::new();
    add(&mut config, "a");
    let provider = config.provider(true).unwrap();
    assert_eq!(provider.api_key(), "key-a");
    assert_eq!(provider.get_api_url(), "https://a.example/v1");
    assert_eq!(provider.model(), "a-model");
    assert!(provider.json_mode());
    assert!(!config.provider(false).unwrap().json_mode());
}

#[test]
fn a_current_model_that_does_not_exist_gives_no_provider() {
    let mut config = Config::new();
    config.current_model = Some("ghost".to_string());
    assert_eq!(config.get_current_model(), None);
    assert!(config.provider(false).is_none());
}
