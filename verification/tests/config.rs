use grok_video::config::{
    api_key_entry, default_poll_interval, default_poll_timeout, default_save_dir, load_config,
    own_config_path, read_grok_image_api_key, Config, ConfigEffect, ConfigError, ConfigEvent,
    ConfigFile, ConfigSearch,
};

fn file(api_key: &str) -> ConfigFile {
    ConfigFile {
        api_key: api_key.to_string(),
        save_dir: None,
        poll_interval_secs: None,
        poll_timeout_secs: None,
    }
}

fn search(
    own: Option<Result<ConfigFile, String>>,
    variable: Option<&str>,
    image: Option<&str>,
) -> Result<Config, ConfigError> {
    let found = load_config()
        .step(ConfigEvent::OwnFile(own))
        .step(ConfigEvent::Variable(variable.map(str::to_string)))
        .step(ConfigEvent::ImageServer(image.map(str::to_string)));
    match found {
        ConfigSearch::Finished(outcome) => outcome,
        _ => panic!("the search is not over"),
    }
}

#[test]
fn defaults() {
    assert_eq!(default_save_dir(), "/tmp/grok-videos");
    assert_eq!(default_poll_interval(), 5);
    assert_eq!(default_poll_timeout(), 600);
    let config = file("k").complete();
    assert_eq!(config.api_key, "k");
    assert_eq!(config.save_dir, "/tmp/grok-videos");
    assert_eq!(config.poll_interval_secs, 5);
    assert_eq!(config.poll_timeout_secs, 600);
}

#[test]
fn a_file_may_name_everything() {
    let config = ConfigFile {
        api_key: "k".to_string(),
        save_dir: Some("/videos".to_string()),
        poll_interval_secs: Some(0),
        poll_timeout_secs: Some(u64::MAX),
    }
    .complete();
    assert_eq!(config.save_dir, "/videos");
    assert_eq!(config.poll_interval_secs, 0);
    assert_eq!(config.poll_timeout_secs, u64::MAX);
}

#[test]
fn own_file_comes_first() {
    let config = search(Some(Ok(file("own"))), Some("env"), Some("image")).ok().unwrap();
    assert_eq!(config.api_key, "own");
}

#[test]
fn broken_own_file_is_an_error() {
    match search(Some(Err("bad line".to_string())), Some("env"), Some("image")) {
        Err(error) => assert_eq!(error.message("/c.toml"), "Failed to parse /c.toml: bad line"),
        Ok(_) => panic!("the file is broken"),
    }
}

#[test]
fn variable_comes_second() {
    let config = search(None, Some("env"), Some("image")).ok().unwrap();
    assert_eq!(config.api_key, "env");
    assert_eq!(config.save_dir, "/tmp/grok-videos");
    assert_eq!(config.poll_interval_secs, 5);
    assert_eq!(config.poll_timeout_secs, 600);
}

#[test]
fn image_server_comes_third() {
    let config = search(None, None, Some("image")).ok().unwrap();
    assert_eq!(config.api_key, "image");
    assert_eq!(config.poll_timeout_secs, 600);
}

#[test]
fn no_configuration() {
    match search(None, None, None) {
        Err(error) => assert_eq!(
            error.message("/home/me/config.toml"),
            "No config found. Either:\n\
             1. Create /home/me/config.toml with:\n\
             \n\
             api_key = \"xai-...\"\n\
             save_dir = \"/tmp/grok-videos\"  # optional\n\
             \n\
             2. Or set the XAI_API_KEY environment variable.\n\
             3. Or configure mcp-server-grok-image (its api_key will be reused)."
        ),
        Ok(_) => panic!("there is no configuration"),
    }
}

#[test]
fn search_waits_for_its_place() {
    let waiting = load_config().step(ConfigEvent::Variable(Some("env".to_string())));
    assert!(matches!(waiting, ConfigSearch::OwnFile));
    let over = waiting
        .step(ConfigEvent::OwnFile(Some(Ok(file("own")))))
        .step(ConfigEvent::OwnFile(None));
    assert!(matches!(over, ConfigSearch::Finished(Ok(_))));
}

#[test]
fn key_of_the_image_server() {
    assert_eq!(read_grok_image_api_key("api_key = \"xai-1\"\nother = 3\n"), Some("xai-1".to_string()));
    assert_eq!(read_grok_image_api_key("api_key = 'quoted # text'"), Some("quoted # text".to_string()));
    assert_eq!(read_grok_image_api_key("other = \"x\""), None);
    assert_eq!(read_grok_image_api_key("api_key = 5"), None);
    assert_eq!(read_grok_image_api_key("[server]\napi_key = \"x\""), None);
    assert_eq!(read_grok_image_api_key("api_key = "), None);
    assert_eq!(read_grok_image_api_key(""), None);
}

#[test]
fn key_of_a_table() {
    let mut table = toml::Table::new();
    assert_eq!(api_key_entry(&table), None);
    table.insert("api_key".to_string(), toml::Value::Integer(1));
    assert_eq!(api_key_entry(&table), None);
    table.insert("api_key".to_string(), toml::Value::String("k".to_string()));
    assert_eq!(api_key_entry(&table), Some("k".to_string()));
}

#[test]
fn places_of_the_search() {
    let search = load_config();
    match search.effect(Some("/home/me"), "/") {
        ConfigEffect::ReadOwnFile { path } => {
            assert_eq!(path, "/home/me/.config/mcp-server-grok-video/config.toml")
        }
        _ => panic!("the own file comes first"),
    }
    match search.effect(None, "/") {
        ConfigEffect::ReadOwnFile { path } => {
            assert_eq!(path, "/root/.config/mcp-server-grok-video/config.toml")
        }
        _ => panic!("the own file comes first"),
    }
    let search = search.step(ConfigEvent::OwnFile(None));
    assert!(matches!(
        search.effect(None, "/"),
        ConfigEffect::ReadVariable { name: "XAI_API_KEY" }
    ));
    let search = search.step(ConfigEvent::Variable(None));
    match search.effect(Some("/home/me/"), "/") {
        ConfigEffect::ReadImageServer { file: Some(path) } => {
            assert_eq!(path, "/home/me/.config/mcp-server-grok-image/config.toml")
        }
        _ => panic!("the image server comes last"),
    }
    assert!(matches!(
        search.effect(None, "/"),
        ConfigEffect::ReadImageServer { file: None }
    ));
    let search = search.step(ConfigEvent::ImageServer(None));
    assert!(matches!(search.effect(None, "/"), ConfigEffect::Finish));
}

#[test]
fn own_file_of_the_server() {
    for home in ["/home/me", "/home/me/", "", "relative"] {
        let reference = std::path::PathBuf::from(home)
            .join(".config")
            .join("mcp-server-grok-video")
            .join("config.toml");
        let path = own_config_path(Some(home), std::path::MAIN_SEPARATOR_STR);
        assert_eq!(path, reference.display().to_string());
    }
}
