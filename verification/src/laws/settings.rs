//! Laws of the configuration: where it is looked for, and what is taken from it.

use crate::config::{
    Config, ConfigEffect, ConfigError, ConfigEvent, ConfigFile, ConfigSearch,
};
use vstd::prelude::*;

verus! {

/// The settings that are used where none are named: `/tmp/grok-videos`, 5 seconds
/// between polls and 600 seconds in all.
pub proof fn defaults_are(directory: String, interval: u64, timeout: u64)
    requires
        call_ensures(crate::config::default_save_dir, (), directory),
        call_ensures(crate::config::default_poll_interval, (), interval),
        call_ensures(crate::config::default_poll_timeout, (), timeout),
    ensures
        directory@ == "/tmp/grok-videos"@,
        interval == 5,
        timeout == 600,
{
}

/// A configuration is what a file says, with the defaults for what it leaves out.
pub open spec fn says_what_the_file_says(config: Config, file: ConfigFile) -> bool {
    &&& config.api_key@ == file.api_key@
    &&& match file.save_dir {
        Some(directory) => config.save_dir@ == directory@,
        None => config.save_dir@ == "/tmp/grok-videos"@,
    }
    &&& match file.poll_interval_secs {
        Some(seconds) => config.poll_interval_secs == seconds,
        None => config.poll_interval_secs == 5,
    }
    &&& match file.poll_timeout_secs {
        Some(seconds) => config.poll_timeout_secs == seconds,
        None => config.poll_timeout_secs == 600,
    }
}

/// A configuration has a key, and the defaults for everything else.
pub open spec fn has_key_alone(config: Config, api_key: Seq<char>) -> bool {
    &&& config.api_key@ == api_key
    &&& config.save_dir@ == "/tmp/grok-videos"@
    &&& config.poll_interval_secs == 5
    &&& config.poll_timeout_secs == 600
}

/// What a file names is used, and the defaults stand for the rest.
pub proof fn file_settings_are_used(file: ConfigFile, config: Config)
    requires
        call_ensures(ConfigFile::complete, (file,), config),
    ensures
        says_what_the_file_says(config, file),
{
}

/// A key alone comes with the defaults.
pub proof fn key_comes_with_defaults(api_key: String, config: Config)
    requires
        call_ensures(Config::from_api_key, (api_key,), config),
    ensures
        has_key_alone(config, api_key@),
{
}

/// The places of a search, each decided by what was found in it: the server's own
/// file, then the variable, then the image server.
pub proof fn each_place_decides_or_passes_on(
    own_file: Option<Result<ConfigFile, String>>,
    variable: Option<String>,
    image_server: Option<String>,
    begun: ConfigSearch,
    first: ConfigSearch,
    second: ConfigSearch,
    third: ConfigSearch,
)
    requires
        call_ensures(crate::config::load_config, (), begun),
        call_ensures(ConfigSearch::step, (begun, ConfigEvent::OwnFile(own_file)), first),
        call_ensures(
            ConfigSearch::step,
            (ConfigSearch::Variable, ConfigEvent::Variable(variable)),
            second,
        ),
        call_ensures(
            ConfigSearch::step,
            (ConfigSearch::ImageServer, ConfigEvent::ImageServer(image_server)),
            third,
        ),
    ensures
        begun is OwnFile,
        own_file matches Some(Ok(file)) ==> (first matches ConfigSearch::Finished(Ok(config))
            && says_what_the_file_says(config, file)),
        own_file matches Some(Err(error)) ==> first == ConfigSearch::Finished(
            Err(ConfigError::Unparsable(error)),
        ),
        own_file is None ==> first is Variable,
        variable matches Some(key) ==> (second matches ConfigSearch::Finished(Ok(config))
            && has_key_alone(config, key@)),
        variable is None ==> second is ImageServer,
        image_server matches Some(key) ==> (third matches ConfigSearch::Finished(Ok(config))
            && has_key_alone(config, key@)),
        image_server is None ==> third == ConfigSearch::Finished(Err(ConfigError::Missing)),
{
}

/// The first place that holds something decides the whole search, whatever the
/// later ones hold.
pub proof fn first_find_decides(
    own_file: Option<Result<ConfigFile, String>>,
    variable: Option<String>,
    image_server: Option<String>,
    begun: ConfigSearch,
    first: ConfigSearch,
    second: ConfigSearch,
    third: ConfigSearch,
)
    requires
        call_ensures(crate::config::load_config, (), begun),
        call_ensures(ConfigSearch::step, (begun, ConfigEvent::OwnFile(own_file)), first),
        call_ensures(ConfigSearch::step, (first, ConfigEvent::Variable(variable)), second),
        call_ensures(ConfigSearch::step, (second, ConfigEvent::ImageServer(image_server)), third),
    ensures
        match third {
            ConfigSearch::Finished(Ok(config)) => match own_file {
                Some(Ok(file)) => says_what_the_file_says(config, file),
                Some(Err(_)) => false,
                None => match variable {
                    Some(key) => has_key_alone(config, key@),
                    None => image_server matches Some(key) && has_key_alone(config, key@),
                },
            },
            ConfigSearch::Finished(Err(ConfigError::Unparsable(error))) => own_file == Some(
                Err::<ConfigFile, String>(error),
            ),
            ConfigSearch::Finished(Err(ConfigError::Missing)) => own_file is None && variable
                is None && image_server is None,
            _ => false,
        },
{
}

/// An event on another place than the one that comes next changes nothing, and a
/// search that is over stays as it is.
pub proof fn other_places_wait(search: ConfigSearch, event: ConfigEvent, after: ConfigSearch)
    requires
        call_ensures(ConfigSearch::step, (search, event), after),
    ensures
        search is OwnFile && event !is OwnFile ==> after is OwnFile,
        search is Variable && event !is Variable ==> after is Variable,
        search is ImageServer && event !is ImageServer ==> after is ImageServer,
        search matches ConfigSearch::Finished(Err(error)) ==> after == ConfigSearch::Finished(
            Err(error),
        ),
        search matches ConfigSearch::Finished(Ok(config)) ==> (after
            matches ConfigSearch::Finished(Ok(kept)) && kept.api_key@ == config.api_key@
            && kept.save_dir@ == config.save_dir@ && kept.poll_interval_secs
            == config.poll_interval_secs && kept.poll_timeout_secs == config.poll_timeout_secs),
{
}

/// The server's own file is `.config/mcp-server-grok-video/config.toml` below the home
/// directory, or below `/root` where the environment names none; the image server's
/// file is `.config/mcp-server-grok-image/config.toml` below the home directory. Each
/// part is joined to the ones before it as a path is.
pub proof fn files_lie_below_home(
    home: Option<&str>,
    separator: &str,
    base: &str,
    all: String,
    below: &str,
    own: String,
    own_below: &str,
    own_file: String,
    image: String,
    image_below: &str,
    image_file: String,
    path: String,
    own_effect: ConfigEffect,
    variable_effect: ConfigEffect,
    image_effect: ConfigEffect,
)
    requires
        home matches Some(named) ==> base@ == named@,
        home is None ==> base@ == "/root"@,
        call_ensures(crate::path::join_path, (base, separator, ".config"), all),
        below@ == all@,
        call_ensures(
            crate::path::join_path,
            (below, separator, "mcp-server-grok-video"),
            own,
        ),
        own_below@ == own@,
        call_ensures(crate::path::join_path, (own_below, separator, "config.toml"), own_file),
        call_ensures(
            crate::path::join_path,
            (below, separator, "mcp-server-grok-image"),
            image,
        ),
        image_below@ == image@,
        call_ensures(crate::path::join_path, (image_below, separator, "config.toml"), image_file),
        call_ensures(crate::config::own_config_path, (home, separator), path),
        call_ensures(ConfigSearch::effect, (&ConfigSearch::OwnFile, home, separator), own_effect),
        call_ensures(
            ConfigSearch::effect,
            (&ConfigSearch::Variable, home, separator),
            variable_effect,
        ),
        call_ensures(
            ConfigSearch::effect,
            (&ConfigSearch::ImageServer, home, separator),
            image_effect,
        ),
    ensures
        path@ == own_file@,
        own_effect matches ConfigEffect::ReadOwnFile { path: wanted } && wanted@ == own_file@,
        variable_effect matches ConfigEffect::ReadVariable { name } && name@ == "XAI_API_KEY"@,
        image_effect matches ConfigEffect::ReadImageServer { file } && match home {
            Some(_) => file matches Some(wanted) && wanted@ == image_file@,
            None => file is None,
        },
{
}

/// A search that is over asks for nothing.
pub proof fn finished_search_asks_nothing(
    outcome: Result<Config, ConfigError>,
    home: Option<&str>,
    separator: &str,
    effect: ConfigEffect,
)
    requires
        call_ensures(
            ConfigSearch::effect,
            (&ConfigSearch::Finished(outcome), home, separator),
            effect,
        ),
    ensures
        effect is Finish,
{
}

/// The key is the string under `api_key` at the top level of the image server's
/// file; without such a string, or where the file is no TOML document, there is none.
pub proof fn key_stands_under_its_name(
    table: toml::map::Map<String, toml::Value>,
    entry: Option<String>,
    document: &str,
    api_key: Option<String>,
)
    requires
        call_ensures(crate::config::api_key_entry, (&table,), entry),
        call_ensures(crate::config::read_grok_image_api_key, (document,), api_key),
    ensures
        entry matches Some(text) ==> crate::outside::string_entries(table).contains_pair(
            "api_key"@,
            text@,
        ),
        entry is None ==> !crate::outside::string_entries(table).contains_key("api_key"@),
        api_key matches Some(text) ==> (crate::outside::document_strings(document@) matches Some(
            strings,
        ) && strings.contains_pair("api_key"@, text@)),
        api_key is None ==> (crate::outside::document_strings(document@) matches Some(strings)
            ==> !strings.contains_key("api_key"@)),
{
}

/// What the user is told where there is no configuration.
pub proof fn failures_are_told(error: ConfigError, path: &str, message: String)
    requires
        call_ensures(ConfigError::message, (&error, path), message),
    ensures
        error matches ConfigError::Unparsable(why) ==> message@ == "Failed to parse "@ + path@
            + ": "@ + why@,
        error is Missing ==> message@ == "No config found. Either:\n1. Create "@ + path@
            + " with:\n\napi_key = \"xai-...\"\nsave_dir = \"/tmp/grok-videos\"  # optional\n\n2. Or set the XAI_API_KEY environment variable.\n3. Or configure mcp-server-grok-image (its api_key will be reused)."@,
{
}

} // verus!
