//! The configuration and the search for it.
//!
//! The configuration is looked for in three places, in this order: the
//! server's own file, an environment variable and the file of the image
//! server. Reading them is left to the caller: a [`ConfigSearch`] names the
//! effect it waits for, and the caller answers with a [`ConfigEvent`].

use crate::outside::{parse_document, string_entry};
use crate::path::join_path;
use vstd::prelude::*;

verus! {

/// The seconds between two polls where the configuration names none.
pub const DEFAULT_POLL_INTERVAL_SECS: u64 = 5;

/// The seconds after which polling is given up where the configuration names none.
pub const DEFAULT_POLL_TIMEOUT_SECS: u64 = 600;

/// The directory, below the home directory, of all configurations.
pub const CONFIG_DIRECTORY: &'static str = ".config";

/// The directory of the server's own configuration.
pub const SERVER_DIRECTORY: &'static str = "mcp-server-grok-video";

/// The directory of the image server's configuration.
pub const IMAGE_SERVER_DIRECTORY: &'static str = "mcp-server-grok-image";

/// The file that holds a configuration.
pub const CONFIG_FILE: &'static str = "config.toml";

/// The home directory where the environment names none.
pub const DEFAULT_HOME: &'static str = "/root";

/// The environment variable that may hold the API key.
pub const API_KEY_VARIABLE: &'static str = "XAI_API_KEY";

/// The configuration of the server.
pub struct Config {
    pub api_key: String,
    pub save_dir: String,
    pub poll_interval_secs: u64,
    pub poll_timeout_secs: u64,
}

/// What a configuration holds.
pub struct ConfigView {
    pub api_key: Seq<char>,
    pub save_dir: Seq<char>,
    pub poll_interval_secs: u64,
    pub poll_timeout_secs: u64,
}

/// What a configuration file says: all but the API key may be left out.
pub struct ConfigFile {
    pub api_key: String,
    pub save_dir: Option<String>,
    pub poll_interval_secs: Option<u64>,
    pub poll_timeout_secs: Option<u64>,
}

/// How the search for a configuration stands.
pub enum ConfigSearch {
    /// The server's own file is to be read and parsed.
    OwnFile,
    /// The environment variable is to be read.
    Variable,
    /// The API key of the image server is to be read.
    ImageServer,
    /// The search is over.
    Finished(Result<Config, ConfigError>),
}

/// What the state of a search holds.
pub enum ConfigSearchView {
    OwnFile,
    Variable,
    ImageServer,
    Finished(Result<ConfigView, ConfigError>),
}

/// What the caller reports to a search.
pub enum ConfigEvent {
    /// The server's own file, if it could be read: what it says, or why it
    /// could not be parsed.
    OwnFile(Option<Result<ConfigFile, String>>),
    /// The environment variable, if it is set.
    Variable(Option<String>),
    /// The API key of the image server, if there is one.
    ImageServer(Option<String>),
}

/// What a search asks of its caller.
pub enum ConfigEffect {
    /// Read and parse the server's own file; answer with `OwnFile`.
    ReadOwnFile { path: String },
    /// Read an environment variable; answer with `Variable`.
    ReadVariable { name: &'static str },
    /// Read the API key in the image server's file; answer with `ImageServer`.
    /// Without a home directory there is no such file, and no key.
    ReadImageServer { file: Option<String> },
    /// Nothing more is asked.
    Finish,
}

/// Why there is no configuration.
pub enum ConfigError {
    /// The server's own file could not be parsed.
    Unparsable(String),
    /// No place held a configuration.
    Missing,
}

impl View for Config {
    type V = ConfigView;

    open spec fn view(&self) -> ConfigView {
        ConfigView {
            api_key: self.api_key@,
            save_dir: self.save_dir@,
            poll_interval_secs: self.poll_interval_secs,
            poll_timeout_secs: self.poll_timeout_secs,
        }
    }
}

impl View for ConfigSearch {
    type V = ConfigSearchView;

    open spec fn view(&self) -> ConfigSearchView {
        match *self {
            ConfigSearch::OwnFile => ConfigSearchView::OwnFile,
            ConfigSearch::Variable => ConfigSearchView::Variable,
            ConfigSearch::ImageServer => ConfigSearchView::ImageServer,
            ConfigSearch::Finished(Ok(config)) => ConfigSearchView::Finished(Ok(config@)),
            ConfigSearch::Finished(Err(error)) => ConfigSearchView::Finished(Err(error)),
        }
    }
}

/// The configuration that a file gives.
pub open spec fn completed(file: ConfigFile) -> ConfigView {
    ConfigView {
        api_key: file.api_key@,
        save_dir: match file.save_dir {
            Some(directory) => directory@,
            None => "/tmp/grok-videos"@,
        },
        poll_interval_secs: match file.poll_interval_secs {
            Some(seconds) => seconds,
            None => DEFAULT_POLL_INTERVAL_SECS,
        },
        poll_timeout_secs: match file.poll_timeout_secs {
            Some(seconds) => seconds,
            None => DEFAULT_POLL_TIMEOUT_SECS,
        },
    }
}

/// The configuration for an API key alone.
pub open spec fn keyed(api_key: Seq<char>) -> ConfigView {
    ConfigView {
        api_key,
        save_dir: "/tmp/grok-videos"@,
        poll_interval_secs: DEFAULT_POLL_INTERVAL_SECS,
        poll_timeout_secs: DEFAULT_POLL_TIMEOUT_SECS,
    }
}

/// The API key among the string entries of a document.
pub open spec fn api_key_in(strings: Map<Seq<char>, Seq<char>>) -> Option<Seq<char>> {
    if strings.contains_key("api_key"@) {
        Some(strings["api_key"@])
    } else {
        None
    }
}

/// The API key that the text of a configuration file holds.
pub open spec fn api_key_of(document: Seq<char>) -> Option<Seq<char>> {
    match crate::outside::document_strings(document) {
        Some(strings) => api_key_in(strings),
        None => None,
    }
}

/// Where videos are saved where the configuration names no directory.
pub fn default_save_dir() -> (directory: String)
    ensures
        directory@ == "/tmp/grok-videos"@,
{
    "/tmp/grok-videos".to_string()
}

/// The seconds between two polls where the configuration names none.
pub fn default_poll_interval() -> (seconds: u64)
    ensures
        seconds == DEFAULT_POLL_INTERVAL_SECS,
{
    DEFAULT_POLL_INTERVAL_SECS
}

/// The seconds after which polling is given up where the configuration names none.
pub fn default_poll_timeout() -> (seconds: u64)
    ensures
        seconds == DEFAULT_POLL_TIMEOUT_SECS,
{
    DEFAULT_POLL_TIMEOUT_SECS
}

/// The home directory for the server's own file: what the environment names,
/// else that of root.
pub open spec fn own_home(home: Option<&str>) -> Seq<char> {
    match home {
        Some(named) => named@,
        None => DEFAULT_HOME@,
    }
}

/// The configuration file of a server, below a home directory.
pub open spec fn file_below(home: Seq<char>, server: Seq<char>, separator: Seq<char>) -> Seq<char> {
    crate::path::path_in(
        crate::path::path_in(
            crate::path::path_in(home, separator, CONFIG_DIRECTORY@),
            separator,
            server,
        ),
        separator,
        CONFIG_FILE@,
    )
}

/// The configuration file of a server, below a home directory.
fn config_path(home: &str, server: &str, separator: &str) -> (path: String)
    ensures
        path@ == file_below(home@, server@, separator@),
{
    let all = join_path(home, separator, CONFIG_DIRECTORY);
    let own = join_path(all.as_str(), separator, server);
    join_path(own.as_str(), separator, CONFIG_FILE)
}

/// The server's own configuration file.
pub fn own_config_path(home: Option<&str>, separator: &str) -> (path: String)
    ensures
        path@ == file_below(own_home(home), SERVER_DIRECTORY@, separator@),
{
    let home = match home {
        Some(named) => named,
        None => DEFAULT_HOME,
    };
    config_path(home, SERVER_DIRECTORY, separator)
}

/// The API key in a parsed configuration file.
pub fn api_key_entry(table: &toml::map::Map<String, toml::Value>) -> (api_key: Option<String>)
    ensures
        match api_key_in(crate::outside::string_entries(*table)) {
            Some(key) => api_key matches Some(text) && text@ == key,
            None => api_key is None,
        },
{
    string_entry(table, "api_key")
}

/// The API key in the image server's configuration file, given its text.
pub fn read_grok_image_api_key(document: &str) -> (api_key: Option<String>)
    ensures
        match api_key_of(document@) {
            Some(key) => api_key matches Some(text) && text@ == key,
            None => api_key is None,
        },
{
    match parse_document(document) {
        Some(table) => api_key_entry(&table),
        None => None,
    }
}

impl ConfigFile {
    /// The configuration that the file gives.
    pub fn complete(self) -> (config: Config)
        ensures
            config@ == completed(self),
    {
        Config {
            api_key: self.api_key,
            save_dir: match self.save_dir {
                Some(directory) => directory,
                None => default_save_dir(),
            },
            poll_interval_secs: match self.poll_interval_secs {
                Some(seconds) => seconds,
                None => default_poll_interval(),
            },
            poll_timeout_secs: match self.poll_timeout_secs {
                Some(seconds) => seconds,
                None => default_poll_timeout(),
            },
        }
    }
}

impl Config {
    /// The configuration for an API key alone.
    pub fn from_api_key(api_key: String) -> (config: Config)
        ensures
            config@ == keyed(api_key@),
    {
        Config {
            api_key,
            save_dir: default_save_dir(),
            poll_interval_secs: default_poll_interval(),
            poll_timeout_secs: default_poll_timeout(),
        }
    }
}

impl ConfigError {
    /// The message for the user, where the server's own file is `path`.
    pub open spec fn text(self, path: Seq<char>) -> Seq<char> {
        match self {
            ConfigError::Unparsable(error) => "Failed to parse "@ + path + ": "@ + error@,
            ConfigError::Missing => "No config found. Either:\n1. Create "@ + path
                + " with:\n\napi_key = \"xai-...\"\nsave_dir = \"/tmp/grok-videos\"  # optional\n\n2. Or set the XAI_API_KEY environment variable.\n3. Or configure mcp-server-grok-image (its api_key will be reused)."@,
        }
    }

    /// The message for the user, where the server's own file is `path`.
    pub fn message(&self, path: &str) -> (message: String)
        ensures
            message@ == self.text(path@),
    {
        match self {
            ConfigError::Unparsable(error) => {
                let mut message = "Failed to parse ".to_string();
                message.append(path);
                message.append(": ");
                message.append(error.as_str());
                message
            },
            ConfigError::Missing => {
                let mut message = "No config found. Either:\n1. Create ".to_string();
                message.append(path);
                message.append(
                    " with:\n\napi_key = \"xai-...\"\nsave_dir = \"/tmp/grok-videos\"  # optional\n\n2. Or set the XAI_API_KEY environment variable.\n3. Or configure mcp-server-grok-image (its api_key will be reused).",
                );
                message
            },
        }
    }
}

impl ConfigSearchView {
    /// The state after an event. An event on another place than the one that
    /// comes next changes nothing.
    pub open spec fn next(self, event: ConfigEvent) -> ConfigSearchView {
        match (self, event) {
            (
                ConfigSearchView::OwnFile,
                ConfigEvent::OwnFile(Some(Ok(file))),
            ) => ConfigSearchView::Finished(Ok(completed(file))),
            (
                ConfigSearchView::OwnFile,
                ConfigEvent::OwnFile(Some(Err(error))),
            ) => ConfigSearchView::Finished(Err(ConfigError::Unparsable(error))),
            (
                ConfigSearchView::OwnFile,
                ConfigEvent::OwnFile(None),
            ) => ConfigSearchView::Variable,
            (
                ConfigSearchView::Variable,
                ConfigEvent::Variable(Some(api_key)),
            ) => ConfigSearchView::Finished(Ok(keyed(api_key@))),
            (
                ConfigSearchView::Variable,
                ConfigEvent::Variable(None),
            ) => ConfigSearchView::ImageServer,
            (
                ConfigSearchView::ImageServer,
                ConfigEvent::ImageServer(Some(api_key)),
            ) => ConfigSearchView::Finished(Ok(keyed(api_key@))),
            (
                ConfigSearchView::ImageServer,
                ConfigEvent::ImageServer(None),
            ) => ConfigSearchView::Finished(Err(ConfigError::Missing)),
            _ => self,
        }
    }
}

impl ConfigSearchView {
    /// Whether an effect is what the search waits for, given the home directory
    /// that the environment names and the separator of the system's paths.
    pub open spec fn asks(
        self,
        effect: ConfigEffect,
        home: Option<&str>,
        separator: Seq<char>,
    ) -> bool {
        match self {
            ConfigSearchView::OwnFile => effect matches ConfigEffect::ReadOwnFile { path } && path@
                == file_below(own_home(home), SERVER_DIRECTORY@, separator),
            ConfigSearchView::Variable => effect matches ConfigEffect::ReadVariable { name }
                && name@ == API_KEY_VARIABLE@,
            ConfigSearchView::ImageServer => effect matches ConfigEffect::ReadImageServer { file }
                && match home {
                Some(named) => file matches Some(path) && path@ == file_below(
                    named@,
                    IMAGE_SERVER_DIRECTORY@,
                    separator,
                ),
                None => file is None,
            },
            ConfigSearchView::Finished(_) => effect is Finish,
        }
    }
}

/// Begin the search for a configuration.
pub fn load_config() -> (search: ConfigSearch)
    ensures
        search@ == ConfigSearchView::OwnFile,
{
    ConfigSearch::OwnFile
}

impl ConfigSearch {
    /// What the search waits for, given the home directory that the environment
    /// names and the separator of the system's paths.
    pub fn effect(&self, home: Option<&str>, separator: &str) -> (effect: ConfigEffect)
        ensures
            self@.asks(effect, home, separator@),
    {
        match self {
            ConfigSearch::OwnFile => ConfigEffect::ReadOwnFile {
                path: own_config_path(home, separator),
            },
            ConfigSearch::Variable => ConfigEffect::ReadVariable { name: API_KEY_VARIABLE },
            ConfigSearch::ImageServer => ConfigEffect::ReadImageServer {
                file: match home {
                    Some(named) => Some(config_path(named, IMAGE_SERVER_DIRECTORY, separator)),
                    None => None,
                },
            },
            ConfigSearch::Finished(_) => ConfigEffect::Finish,
        }
    }

    /// The state after an event.
    pub fn step(self, event: ConfigEvent) -> (search: ConfigSearch)
        ensures
            search@ == self@.next(event),
    {
        match (self, event) {
            (ConfigSearch::OwnFile, ConfigEvent::OwnFile(Some(Ok(file)))) => {
                ConfigSearch::Finished(Ok(file.complete()))
            },
            (ConfigSearch::OwnFile, ConfigEvent::OwnFile(Some(Err(error)))) => {
                ConfigSearch::Finished(Err(ConfigError::Unparsable(error)))
            },
            (ConfigSearch::OwnFile, ConfigEvent::OwnFile(None)) => ConfigSearch::Variable,
            (ConfigSearch::Variable, ConfigEvent::Variable(Some(api_key))) => {
                ConfigSearch::Finished(Ok(Config::from_api_key(api_key)))
            },
            (ConfigSearch::Variable, ConfigEvent::Variable(None)) => ConfigSearch::ImageServer,
            (ConfigSearch::ImageServer, ConfigEvent::ImageServer(Some(api_key))) => {
                ConfigSearch::Finished(Ok(Config::from_api_key(api_key)))
            },
            (ConfigSearch::ImageServer, ConfigEvent::ImageServer(None)) => {
                ConfigSearch::Finished(Err(ConfigError::Missing))
            },
            (search, _) => search,
        }
    }
}

/// The outcome of a search, given what the three places hold: the first place
/// that can be read decides.
pub open spec fn outcome(
    own_file: Option<Result<ConfigFile, String>>,
    variable: Option<String>,
    image_server: Option<String>,
) -> Result<ConfigView, ConfigError> {
    match own_file {
        Some(Ok(file)) => Ok(completed(file)),
        Some(Err(error)) => Err(ConfigError::Unparsable(error)),
        None => match variable {
            Some(api_key) => Ok(keyed(api_key@)),
            None => match image_server {
                Some(api_key) => Ok(keyed(api_key@)),
                None => Err(ConfigError::Missing),
            },
        },
    }
}

/// The search ends with what the first place that can be read says; what the
/// later places hold makes no difference.
pub proof fn first_place_decides(
    own_file: Option<Result<ConfigFile, String>>,
    variable: Option<String>,
    image_server: Option<String>,
)
    ensures
        ConfigSearchView::OwnFile.next(ConfigEvent::OwnFile(own_file)).next(
            ConfigEvent::Variable(variable),
        ).next(ConfigEvent::ImageServer(image_server)) == ConfigSearchView::Finished(
            outcome(own_file, variable, image_server),
        ),
{
}

/// A search that is over stays as it is.
pub proof fn finished_for_good(search: ConfigSearchView, event: ConfigEvent)
    requires
        search is Finished,
    ensures
        search.next(event) == search,
{
}

/// A file that names nothing but an API key gives the same configuration as
/// that key from the environment.
pub proof fn defaults_agree(api_key: String)
    ensures
        completed(
            ConfigFile {
                api_key,
                save_dir: None,
                poll_interval_secs: None,
                poll_timeout_secs: None,
            },
        ) == keyed(api_key@),
{
}

} // verus!
