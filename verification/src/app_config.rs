//! Where the daemon's control interface is found and how to log in to it.

use crate::text::join2;
use vstd::prelude::*;
use vstd::string::StringExecFns;

verus! {

/// The daemon's address and the key for it.
#[derive(Debug, Default, Clone, PartialEq, Eq)]
pub struct Config {
    /// Host and port of the control interface.
    pub host: String,
    /// The bearer token; empty if the daemon asks for none.
    pub key: String,
}

/// The host that applies where a profile names none.
pub open spec fn default_host() -> Seq<char> {
    "127.0.0.1:9090"@
}

/// The built-in configuration: the default host and no key. It applies
/// where there is no profile file.
pub fn get_config() -> (config: Config)
    ensures
        config.host@ == default_host(),
        config.key@.len() == 0,
{
    Config { host: String::from_str("127.0.0.1:9090"), key: String::new() }
}

/// The names under which a profile file holds host and key: the plain names
/// without a profile, and the names inside the profile's section with one.
pub open spec fn profile_key_names(profile: Option<Seq<char>>) -> (Seq<char>, Seq<char>) {
    match profile {
        Some(section) => (section + ".host"@, section + ".key"@),
        None => ("host"@, "key"@),
    }
}

/// The names under which a profile file holds host and key.
pub fn profile_keys(profile: Option<&str>) -> (names: (String, String))
    ensures
        (names.0@, names.1@) == profile_key_names(
            match profile {
                Some(section) => Some(section@),
                None => None,
            },
        ),
{
    match profile {
        Some(section) => (join2(section, ".host"), join2(section, ".key")),
        None => (String::from_str("host"), String::from_str("key")),
    }
}

/// The configuration for what a profile file holds: a value that is missing
/// takes its default, which is the default host and no key.
pub fn resolve_config(host: Option<String>, key: Option<String>) -> (config: Config)
    ensures
        config.host@ == match host {
            Some(text) => text@,
            None => default_host(),
        },
        config.key@ == match key {
            Some(text) => text@,
            None => Seq::empty(),
        },
{
    let host: String = match host {
        Some(text) => text,
        None => String::from_str("127.0.0.1:9090"),
    };
    let key: String = match key {
        Some(text) => text,
        None => String::new(),
    };
    Config { host, key }
}

} // verus!
