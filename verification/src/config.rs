//! The configuration of a run: what the operator supplied, and the checked
//! settings that a job is built from.

use vstd::prelude::*;
use vstd::string::*;
use crate::naming::{generate_random_string, is_index_name};

verus! {

/// What the command line and the environment supplied, before any check.
/// A value that was not supplied is `None`.
#[derive(Debug, Clone, PartialEq, Eq, Hash)]
pub struct Settings {
    /// The path of the file that holds the records.
    pub input: String,
    /// The name of the index, if the operator chose one.
    pub index: Option<String>,
    /// The largest number of submissions in flight at once.
    pub threads: usize,
    /// The host of the indexing service.
    pub url: Option<String>,
    /// The port of the indexing service.
    pub port: Option<String>,
    /// The credential for the indexing service.
    pub api: Option<String>,
}

/// The checked configuration of a run.
#[derive(Debug, Clone, PartialEq, Eq, Hash)]
pub struct Input {
    pub path: String,
    pub address: String,
    pub api: String,
    pub index: String,
    pub threads: usize,
}

/// Why the settings cannot be used. Any of these ends the run before a
/// record is read.
#[derive(Debug, Clone, Copy, PartialEq, Eq, Hash, Structural)]
pub enum ConfigError {
    /// No path to the records.
    MissingInput,
    /// The file of records cannot be read. Only reading it can tell: the
    /// check of the settings never reports this.
    UnreadableInput,
    /// A limit of zero submissions at once: nothing could ever be sent.
    ZeroThreads,
    /// The host of the service is not set, or set to nothing.
    MissingUrl,
    /// The port of the service is not set, or set to nothing.
    MissingPort,
    /// The credential is not set.
    MissingApi,
}

/// The characters of the address that `host` and `port` name:
/// `http://`, the host, a colon, the port.
pub open spec fn url_of(host: Seq<char>, port: Seq<char>) -> Seq<char> {
    seq!['h', 't', 't', 'p', ':', '/', '/'] + host + seq![':'] + port
}

/// Whether a setting is absent: not supplied, or supplied empty.
pub open spec fn absent(setting: Option<String>) -> bool {
    match setting {
        None => true,
        Some(text) => text@.len() == 0,
    }
}

/// The first fault of the settings, in the order in which they are read:
/// the command line, then the environment.
pub open spec fn fault_in(settings: Settings) -> Option<ConfigError> {
    if settings.input@.len() == 0 {
        Some(ConfigError::MissingInput)
    } else if settings.threads == 0 {
        Some(ConfigError::ZeroThreads)
    } else if absent(settings.url) {
        Some(ConfigError::MissingUrl)
    } else if absent(settings.port) {
        Some(ConfigError::MissingPort)
    } else if settings.api is None {
        Some(ConfigError::MissingApi)
    } else {
        None
    }
}

/// Whether `input` is what sound settings and the index name `index` give.
pub open spec fn configured(settings: Settings, index: Seq<char>, input: Input) -> bool {
    &&& input.path@ == settings.input@
    &&& input.address@ == url_of(settings.url->0@, settings.port->0@)
    &&& input.api@ == settings.api->0@
    &&& input.index@ == index
    &&& input.threads == settings.threads
}

/// Builds the HTTP address of the service from its host and port.
pub fn build_url(url: &str, port: &str) -> (address: String)
    ensures
        address@ == url_of(url@, port@),
{
    proof {
        reveal_strlit("http://");
        reveal_strlit(":");
    }
    let mut address = String::from_str("http://");
    address.append(url);
    address.append(":");
    address.append(port);
    assert(address@ =~= url_of(url@, port@));
    address
}

/// Checks the settings and puts the configuration together, with `index` as
/// the name of the index. Fails with the first fault, if there is one.
pub fn assemble(settings: &Settings, index: String) -> (result: Result<Input, ConfigError>)
    ensures
        match result {
            Ok(input) => fault_in(*settings) is None && configured(*settings, index@, input),
            Err(fault) => fault_in(*settings) == Some(fault),
        },
{
    if settings.input.as_str().is_empty() {
        return Err(ConfigError::MissingInput);
    }
    if settings.threads == 0 {
        return Err(ConfigError::ZeroThreads);
    }
    let url = match &settings.url {
        Some(url) if !url.as_str().is_empty() => url,
        _ => {
            return Err(ConfigError::MissingUrl);
        },
    };
    let port = match &settings.port {
        Some(port) if !port.as_str().is_empty() => port,
        _ => {
            return Err(ConfigError::MissingPort);
        },
    };
    let api = match &settings.api {
        Some(api) => api,
        None => {
            return Err(ConfigError::MissingApi);
        },
    };
    Ok(
        Input {
            path: settings.input.clone(),
            address: build_url(url.as_str(), port.as_str()),
            api: api.clone(),
            index,
            threads: settings.threads,
        },
    )
}

/// Turns what the operator supplied into the configuration of the run.
///
/// The index is the one that the operator named; without one, a fresh
/// random name is drawn.
pub fn init(settings: &Settings) -> (result: Result<Input, ConfigError>)
    ensures
        match result {
            Ok(input) => {
                &&& fault_in(*settings) is None
                &&& configured(*settings, input.index@, input)
                &&& match settings.index {
                    Some(name) => input.index@ == name@,
                    None => is_index_name(input.index@),
                }
            },
            Err(fault) => fault_in(*settings) == Some(fault),
        },
{
    let index = match &settings.index {
        Some(name) => name.clone(),
        None => generate_random_string(),
    };
    assemble(settings, index)
}

} // verus!
