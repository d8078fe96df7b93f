//! The addresses of the daemon's control interface and how its answers
//! about the routing mode are read.

use crate::app_config::Config;
use crate::text::{join2, str_eq};
use vstd::prelude::*;
use vstd::string::StringExecFns;

verus! {

/// Query parameters: names and values.
pub type Params = Vec<(String, String)>;

/// The texts of query parameters.
pub open spec fn params_view(params: Seq<(String, String)>) -> Seq<(Seq<char>, Seq<char>)> {
    Seq::new(params.len(), |i: int| (params[i].0@, params[i].1@))
}

/// What `url::Url::parse_with_params` makes of an address and query
/// parameters, as text: the address with the parameters added to its query,
/// or the text of the parse error.
pub uninterp spec fn address_with_params(
    base: Seq<char>,
    params: Seq<(Seq<char>, Seq<char>)>,
) -> Result<Seq<char>, Seq<char>>;

/// Trusted: `url::Url::parse_with_params`, the address turned into a string
/// and the error into its message. Both depend on the arguments alone; the
/// contract gives the outcome the name `address_with_params` and says no
/// more of it.
#[verifier::external_body]
fn with_params(base: &str, params: &Params) -> (r: Result<String, String>)
    ensures
        match r {
            Ok(address) => address_with_params(base@, params_view(params@)) == Ok::<
                Seq<char>,
                Seq<char>,
            >(address@),
            Err(message) => address_with_params(base@, params_view(params@)) == Err::<
                Seq<char>,
                Seq<char>,
            >(message@),
        },
{
    match url::Url::parse_with_params(base, params.iter()) {
        Ok(address) => Ok(address.to_string()),
        Err(e) => Err(e.to_string()),
    }
}

/// An address or the text of a parse error, as character sequences.
pub open spec fn address_view(r: Result<String, String>) -> Result<Seq<char>, Seq<char>> {
    match r {
        Ok(address) => Ok(address@),
        Err(message) => Err(message@),
    }
}

/// The address of `path` on the daemon's control interface.
pub open spec fn http_address(host: Seq<char>, path: Seq<char>) -> Seq<char> {
    "http://"@ + host + path
}

/// The address of the stream `path` on the daemon's control interface.
pub open spec fn ws_address(host: Seq<char>, path: Seq<char>) -> Seq<char> {
    "ws://"@ + host + path
}

/// The value of the header that logs in with `key`.
pub open spec fn bearer(key: Seq<char>) -> Seq<char> {
    "Bearer "@ + key
}

/// The path that has the daemon probe the delays of `group`.
pub open spec fn delay_path(group: Seq<char>) -> Seq<char> {
    "/group/"@ + group + "/delay"@
}

/// The parameters of a delay probe: the address to probe and the time
/// allowed in milliseconds.
pub open spec fn delay_params() -> Seq<(Seq<char>, Seq<char>)> {
    seq![("url"@, "https://www.gstatic.com/generate_204"@), ("timeout"@, "5000"@)]
}

/// The path under which a group's chosen member is set.
pub open spec fn group_path(group: Seq<char>) -> Seq<char> {
    "/proxies/"@ + group
}

/// The parameters of the log stream: the level and the key.
pub open spec fn log_params(key: Seq<char>) -> Seq<(Seq<char>, Seq<char>)> {
    seq![("level"@, "info"@), ("token"@, key)]
}

/// The parameters of the connection stream: the key.
pub open spec fn connection_params(key: Seq<char>) -> Seq<(Seq<char>, Seq<char>)> {
    seq![("token"@, key)]
}

/// One query parameter.
fn param(name: &str, value: &str) -> (pair: (String, String))
    ensures
        pair.0@ == name@,
        pair.1@ == value@,
{
    (String::from_str(name), String::from_str(value))
}

impl Config {
    /// The address of `path` on the daemon's control interface.
    pub fn http_url(&self, path: &str) -> (address: String)
        ensures
            address@ == http_address(self.host@, path@),
    {
        let mut address = String::from_str("http://");
        address.append(self.host.as_str());
        address.append(path);
        address
    }

    /// The address for fetching the proxies.
    pub fn proxies_url(&self) -> (address: String)
        ensures
            address@ == http_address(self.host@, "/proxies"@),
    {
        self.http_url("/proxies")
    }

    /// The address for fetching the providers.
    pub fn providers_url(&self) -> (address: String)
        ensures
            address@ == http_address(self.host@, "/providers/proxies"@),
    {
        self.http_url("/providers/proxies")
    }

    /// The address for reading and setting the routing mode.
    pub fn configs_url(&self) -> (address: String)
        ensures
            address@ == http_address(self.host@, "/configs"@),
    {
        self.http_url("/configs")
    }

    /// The address for setting the chosen member of `group`.
    pub fn group_url(&self, group: &str) -> (address: String)
        ensures
            address@ == http_address(self.host@, group_path(group@)),
    {
        let path = join2("/proxies/", group);
        self.http_url(path.as_str())
    }

    /// The address of the stream `path` on the daemon's control interface.
    pub fn ws_url(&self, path: &str) -> (address: String)
        ensures
            address@ == ws_address(self.host@, path@),
    {
        let mut address = String::from_str("ws://");
        address.append(self.host.as_str());
        address.append(path);
        address
    }

    /// The address of a delay probe of `group`, without its parameters.
    pub fn delay_base(&self, group: &str) -> (address: String)
        ensures
            address@ == http_address(self.host@, delay_path(group@)),
    {
        let mut path = String::from_str("/group/");
        path.append(group);
        path.append("/delay");
        self.http_url(path.as_str())
    }

    /// The parameters of a delay probe.
    pub fn delay_query() -> (params: Params)
        ensures
            params_view(params@) == delay_params(),
    {
        let mut params: Params = Vec::new();
        params.push(param("url", "https://www.gstatic.com/generate_204"));
        params.push(param("timeout", "5000"));
        params
    }

    /// The parameters of the log stream.
    pub fn log_query(&self) -> (params: Params)
        ensures
            params_view(params@) == log_params(self.key@),
    {
        let mut params: Params = Vec::new();
        params.push(param("level", "info"));
        params.push(param("token", self.key.as_str()));
        params
    }

    /// The parameters of the connection stream.
    pub fn connection_query(&self) -> (params: Params)
        ensures
            params_view(params@) == connection_params(self.key@),
    {
        let mut params: Params = Vec::new();
        params.push(param("token", self.key.as_str()));
        params
    }

    /// The address that has the daemon probe the delays of `group`, or the
    /// reason why no address can be made of the host and the group.
    pub fn delay_url(&self, group: &str) -> (r: Result<String, String>)
        ensures
            address_view(r) == address_with_params(
                http_address(self.host@, delay_path(group@)),
                delay_params(),
            ),
    {
        with_params(self.delay_base(group).as_str(), &Self::delay_query())
    }

    /// The address of the log stream, or the reason why no address can be
    /// made of the host.
    pub fn logs_url(&self) -> (r: Result<String, String>)
        ensures
            address_view(r) == address_with_params(
                ws_address(self.host@, "/logs"@),
                log_params(self.key@),
            ),
    {
        with_params(self.ws_url("/logs").as_str(), &self.log_query())
    }

    /// The address of the connection stream, or the reason why no address
    /// can be made of the host.
    pub fn connections_url(&self) -> (r: Result<String, String>)
        ensures
            address_view(r) == address_with_params(
                ws_address(self.host@, "/connections"@),
                connection_params(self.key@),
            ),
    {
        with_params(self.ws_url("/connections").as_str(), &self.connection_query())
    }

    /// The value of the header that logs in, if a key is configured.
    pub fn authorization(&self) -> (header: Option<String>)
        ensures
            match header {
                Some(value) => self.key@.len() > 0 && value@ == bearer(self.key@),
                None => self.key@.len() == 0,
            },
    {
        if self.key.as_str().is_empty() {
            None
        } else {
            Some(join2("Bearer ", self.key.as_str()))
        }
    }
}

/// Why the daemon's answer about its routing mode is no mode.
#[derive(Clone, Copy, Debug, PartialEq, Eq, Structural)]
pub enum ModeError {
    /// The daemon refused the key.
    Unauthorized,
    /// The answer names no mode.
    Missing,
}

/// What the status line says of a mode error.
pub open spec fn mode_error_text(error: ModeError) -> Seq<char> {
    match error {
        ModeError::Unauthorized => "认证失败：请确认key是否正确"@,
        ModeError::Missing => "mode not found"@,
    }
}

impl ModeError {
    /// What the status line says of this error.
    pub fn message(&self) -> (text: String)
        ensures
            text@ == mode_error_text(*self),
    {
        match self {
            ModeError::Unauthorized => String::from_str("认证失败：请确认key是否正确"),
            ModeError::Missing => String::from_str("mode not found"),
        }
    }
}

/// The routing mode in an answer with these `message` and `mode` entries:
/// an answer whose message says unauthorized is a refusal, whatever else it
/// holds; else the mode, which must be there.
pub open spec fn mode_in_reply(message: Option<Seq<char>>, mode: Option<Seq<char>>) -> Result<
    Seq<char>,
    ModeError,
> {
    if message == Some("Unauthorized"@) {
        Err(ModeError::Unauthorized)
    } else {
        match mode {
            Some(name) => Ok(name),
            None => Err(ModeError::Missing),
        }
    }
}

/// Reads the routing mode off the `message` and `mode` entries of the
/// daemon's answer.
pub fn mode_of_reply(message: Option<&str>, mode: Option<String>) -> (r: Result<String, ModeError>)
    ensures
        match r {
            Ok(name) => Ok::<Seq<char>, ModeError>(name@),
            Err(error) => Err::<Seq<char>, ModeError>(error),
        } == mode_in_reply(
            match message {
                Some(text) => Some(text@),
                None => None,
            },
            match mode {
                Some(name) => Some(name@),
                None => None,
            },
        ),
{
    let refused: bool = match message {
        Some(text) => str_eq(text, "Unauthorized"),
        None => false,
    };
    if refused {
        Err(ModeError::Unauthorized)
    } else {
        match mode {
            Some(name) => Ok(name),
            None => Err(ModeError::Missing),
        }
    }
}

} // verus!
