//! Subscriptions: lists of proxy links that a provider hands out, and the
//! outbound connections made of them.

pub mod subs_url;

use crate::clash_config::subs_url::{or_empty, parsed_url, query_value, SubsUrl, UrlParts};
use crate::text::str_eq;
use base64::Engine;
use vstd::prelude::*;
use vstd::string::StringExecFns;
use vstd::utf8::{decode_utf8, valid_utf8};

verus! {

/// The subscriptions and the connections made of them.
#[derive(Debug, Clone, PartialEq, Eq)]
pub struct AppConfig {
    pub subs: Vec<Subscription>,
    pub connection: Vec<Connection>,
}

/// A provider's list of links, by name and address.
#[derive(Debug, Clone, PartialEq, Eq, Default)]
pub struct Subscription {
    pub id: String,
    pub name: String,
    pub url: String,
}

/// One outbound connection.
#[derive(Debug, Clone, PartialEq, Eq)]
pub struct Connection {
    pub conn_type: String,
    pub tag: String,
    pub server: String,
    pub server_port: u16,
    pub method: String,
    pub password: String,
    pub tls: Option<Tls>,
}

/// How a connection uses TLS.
#[derive(Debug, Clone, PartialEq, Eq)]
pub struct Tls {
    pub enabled: Option<bool>,
    pub server_name: String,
    pub insecure: Option<bool>,
}

/// A subscription with its texts as character sequences.
pub struct SubscriptionView {
    pub id: Seq<char>,
    pub name: Seq<char>,
    pub url: Seq<char>,
}

/// TLS settings with their texts as character sequences.
pub struct TlsView {
    pub enabled: Option<bool>,
    pub server_name: Seq<char>,
    pub insecure: Option<bool>,
}

/// A connection with its texts as character sequences.
pub struct ConnectionView {
    pub conn_type: Seq<char>,
    pub tag: Seq<char>,
    pub server: Seq<char>,
    pub server_port: u16,
    pub method: Seq<char>,
    pub password: Seq<char>,
    pub tls: Option<TlsView>,
}

impl View for Subscription {
    type V = SubscriptionView;

    open spec fn view(&self) -> SubscriptionView {
        SubscriptionView { id: self.id@, name: self.name@, url: self.url@ }
    }
}

impl View for Tls {
    type V = TlsView;

    open spec fn view(&self) -> TlsView {
        TlsView { enabled: self.enabled, server_name: self.server_name@, insecure: self.insecure }
    }
}

impl View for Connection {
    type V = ConnectionView;

    open spec fn view(&self) -> ConnectionView {
        ConnectionView {
            conn_type: self.conn_type@,
            tag: self.tag@,
            server: self.server@,
            server_port: self.server_port,
            method: self.method@,
            password: self.password@,
            tls: match self.tls {
                Some(tls) => Some(tls@),
                None => None,
            },
        }
    }
}

/// The views of a list of connections.
pub open spec fn connections_view(connections: Seq<Connection>) -> Seq<ConnectionView> {
    Seq::new(connections.len(), |i: int| connections[i]@)
}

impl Subscription {
    /// A copy with the same texts.
    pub fn copy(&self) -> (copy: Subscription)
        ensures
            copy@ == self@,
    {
        Subscription { id: self.id.clone(), name: self.name.clone(), url: self.url.clone() }
    }
}

impl Connection {
    /// A copy with the same values.
    pub fn copy(&self) -> (copy: Connection)
        ensures
            copy@ == self@,
    {
        Connection {
            conn_type: self.conn_type.clone(),
            tag: self.tag.clone(),
            server: self.server.clone(),
            server_port: self.server_port,
            method: self.method.clone(),
            password: self.password.clone(),
            tls: match &self.tls {
                Some(tls) => Some(
                    Tls {
                        enabled: tls.enabled,
                        server_name: tls.server_name.clone(),
                        insecure: tls.insecure,
                    },
                ),
                None => None,
            },
        }
    }
}

/// A copy of a list of connections.
pub fn copy_connections(connections: &Vec<Connection>) -> (copy: Vec<Connection>)
    ensures
        connections_view(copy@) == connections_view(connections@),
{
    let mut copy: Vec<Connection> = Vec::new();
    let mut i: usize = 0;
    while i < connections.len()
        invariant
            i <= connections.len(),
            connections_view(copy@) == connections_view(connections@).take(i as int),
        decreases connections.len() - i,
    {
        let ghost before = copy@;
        let item = connections[i].copy();
        copy.push(item);
        proof {
            assert(connections_view(copy@) =~= connections_view(before).push(item@));
        }
        i += 1;
    }
    copy
}

/// Whether a port is not set.
pub fn is_zero(value: &u16) -> (zero: bool)
    ensures
        zero == (*value == 0),
{
    *value == 0
}

/// The connection that a link stands for. A trojan link gives a connection
/// with TLS, its password in the place of the user name; a shadowsocks link
/// gives one without TLS, its method in the place of the user name. A link
/// of another scheme stands for nothing.
pub open spec fn item_of(link: UrlParts) -> Option<ConnectionView> {
    let port: u16 = match link.port {
        Some(p) => p,
        None => 0,
    };
    if link.scheme == "trojan"@ {
        Some(
            ConnectionView {
                conn_type: "trojan"@,
                tag: or_empty(link.fragment),
                server: or_empty(link.host),
                server_port: port,
                method: Seq::empty(),
                password: link.username,
                tls: Some(
                    TlsView {
                        enabled: Some(true),
                        server_name: query_value(link.query, "sni"@),
                        insecure: Some(query_value(link.query, "allowInsecure"@) == "1"@),
                    },
                ),
            },
        )
    } else if link.scheme == "ss"@ {
        Some(
            ConnectionView {
                conn_type: "shadowsocks"@,
                tag: or_empty(link.fragment),
                server: or_empty(link.host),
                server_port: port,
                method: link.username,
                password: or_empty(link.password),
                tls: None,
            },
        )
    } else {
        None
    }
}

/// A connection that may be missing, as its view.
pub open spec fn item_view(item: Option<Connection>) -> Option<ConnectionView> {
    match item {
        Some(connection) => Some(connection@),
        None => None,
    }
}

/// The connection that a link, taken apart, stands for.
pub fn connection_of(link: &SubsUrl) -> (item: Option<Connection>)
    ensures
        item_view(item) == item_of(link@),
{
    let scheme = link.scheme();
    if str_eq(scheme.as_str(), "trojan") {
        let insecure = link.query("allowInsecure");
        Some(
            Connection {
                conn_type: String::from_str("trojan"),
                tag: link.fragment(),
                server: link.server(),
                server_port: link.port(),
                password: link.username(),
                method: String::new(),
                tls: Some(
                    Tls {
                        enabled: Some(true),
                        server_name: link.query("sni"),
                        insecure: Some(str_eq(insecure.as_str(), "1")),
                    },
                ),
            },
        )
    } else if str_eq(scheme.as_str(), "ss") {
        Some(
            Connection {
                conn_type: String::from_str("shadowsocks"),
                tag: link.fragment(),
                server: link.server(),
                server_port: link.port(),
                method: link.username(),
                password: link.password(),
                tls: None,
            },
        )
    } else {
        None
    }
}

/// What a line of a subscription stands for: the connection of its link,
/// nothing for a link of another scheme, or the reason why the line is no
/// link.
pub open spec fn decoded_item(line: Seq<char>) -> Result<Option<ConnectionView>, Seq<char>> {
    match parsed_url(line) {
        Ok(link) => Ok(item_of(link)),
        Err(message) => Err(message),
    }
}

/// Reads one line of a subscription.
pub fn decode_item(line: &str) -> (r: Result<Option<Connection>, String>)
    ensures
        match r {
            Ok(item) => decoded_item(line@) == Ok::<Option<ConnectionView>, Seq<char>>(
                item_view(item),
            ),
            Err(message) => decoded_item(line@) == Err::<Option<ConnectionView>, Seq<char>>(
                message@,
            ),
        },
{
    match SubsUrl::new(line) {
        Ok(link) => Ok(connection_of(&link)),
        Err(message) => Err(message),
    }
}

/// What decoding a text as base64 without padding gives with the `base64`
/// crate: the bytes, or the text of the decode error.
pub uninterp spec fn base64_bytes(text: Seq<char>) -> Result<Seq<u8>, Seq<char>>;

/// Trusted: `base64::Engine::decode` of the engine
/// `base64::prelude::BASE64_STANDARD_NO_PAD`, the error turned into its
/// message. The outcome depends on the text alone; the contract gives it
/// the name `base64_bytes` and says no more of it.
#[verifier::external_body]
fn base64_decode(text: &str) -> (r: Result<Vec<u8>, String>)
    ensures
        match r {
            Ok(bytes) => base64_bytes(text@) == Ok::<Seq<u8>, Seq<char>>(bytes@),
            Err(message) => base64_bytes(text@) == Err::<Seq<u8>, Seq<char>>(message@),
        },
{
    match base64::prelude::BASE64_STANDARD_NO_PAD.decode(text) {
        Ok(bytes) => Ok(bytes),
        Err(e) => Err(e.to_string()),
    }
}

/// The message of the error that `String::from_utf8` gives for bytes that
/// are no UTF-8.
pub uninterp spec fn utf8_failure(bytes: Seq<u8>) -> Seq<char>;

/// Trusted: `String::from_utf8`, which gives the text that the bytes encode
/// if they are valid UTF-8 and an error otherwise; the error is turned into
/// its message, which the contract names `utf8_failure`.
#[verifier::external_body]
fn utf8_text(bytes: Vec<u8>) -> (r: Result<String, String>)
    ensures
        match r {
            Ok(text) => valid_utf8(bytes@) && text@ == decode_utf8(bytes@),
            Err(message) => !valid_utf8(bytes@) && message@ == utf8_failure(bytes@),
        },
{
    match String::from_utf8(bytes) {
        Ok(text) => Ok(text),
        Err(e) => Err(e.to_string()),
    }
}

/// The lines of a text as `str::lines` gives them.
pub uninterp spec fn lines_in(text: Seq<char>) -> Seq<Seq<char>>;

/// Trusted: `str::lines`, each line turned into an owned string. The lines
/// depend on the text alone; the contract gives them the name `lines_in`
/// and says no more of them.
#[verifier::external_body]
fn text_lines(text: &str) -> (lines: Vec<String>)
    ensures
        lines.deep_view() == lines_in(text@),
{
    text.lines().map(str::to_owned).collect()
}

/// The connections of the first `upto` lines: one for every line that is a
/// link of a known scheme, in order.
pub open spec fn decoded_lines(lines: Seq<Seq<char>>, upto: int) -> Seq<ConnectionView>
    decreases upto,
{
    if upto <= 0 {
        Seq::empty()
    } else {
        let rest = decoded_lines(lines, upto - 1);
        match decoded_item(lines[upto - 1]) {
            Ok(Some(item)) => rest.push(item),
            _ => rest,
        }
    }
}

/// The note on a line that is no link, with the reason.
pub open spec fn failure_note(message: Seq<char>) -> Seq<char> {
    "decode_item failed: "@ + message
}

/// The notes on the first `upto` lines: one for every line that is no
/// link, in order.
pub open spec fn failed_lines(lines: Seq<Seq<char>>, upto: int) -> Seq<Seq<char>>
    decreases upto,
{
    if upto <= 0 {
        Seq::empty()
    } else {
        let rest = failed_lines(lines, upto - 1);
        match decoded_item(lines[upto - 1]) {
            Err(message) => rest.push(failure_note(message)),
            _ => rest,
        }
    }
}

/// What reading a subscription brings: the connections, and a note on
/// every line that was passed over because it is no link.
#[derive(Debug, PartialEq, Eq)]
pub struct Decoded {
    pub connections: Vec<Connection>,
    pub failures: Vec<String>,
}

/// What reading a subscription brings, as views.
pub struct DecodedView {
    pub connections: Seq<ConnectionView>,
    pub failures: Seq<Seq<char>>,
}

impl View for Decoded {
    type V = DecodedView;

    open spec fn view(&self) -> DecodedView {
        DecodedView {
            connections: connections_view(self.connections@),
            failures: self.failures.deep_view(),
        }
    }
}

/// What the lines of a subscription's text bring: one connection for every
/// line that is a link of a known scheme, and one note for every line that
/// is no link. A link of another scheme brings neither.
pub open spec fn decoded_text(lines: Seq<Seq<char>>) -> DecodedView {
    DecodedView {
        connections: decoded_lines(lines, lines.len() as int),
        failures: failed_lines(lines, lines.len() as int),
    }
}

/// What a subscription as it was fetched brings, or the reason why it
/// cannot be read: the text is base64 without padding of UTF-8 text, whose
/// lines are links.
pub open spec fn decoded(data: Seq<char>) -> Result<DecodedView, Seq<char>> {
    match base64_bytes(data) {
        Err(message) => Err(message),
        Ok(bytes) => if valid_utf8(bytes) {
            Ok(decoded_text(lines_in(decode_utf8(bytes))))
        } else {
            Err(utf8_failure(bytes))
        },
    }
}

/// Reads the lines of a subscription's text.
pub fn decode_lines(lines: &Vec<String>) -> (read: Decoded)
    ensures
        read@ == decoded_text(lines.deep_view()),
{
    let mut connections: Vec<Connection> = Vec::new();
    let mut failures: Vec<String> = Vec::new();
    let mut i: usize = 0;
    proof {
        assert(failures.deep_view() =~= failed_lines(lines.deep_view(), 0));
    }
    while i < lines.len()
        invariant
            i <= lines.len(),
            lines.deep_view().len() == lines.len(),
            connections_view(connections@) == decoded_lines(lines.deep_view(), i as int),
            failures.deep_view() == failed_lines(lines.deep_view(), i as int),
        decreases lines.len() - i,
    {
        let ghost noted = failures.deep_view();
        match decode_item(lines[i].as_str()) {
            Ok(Some(item)) => {
                connections.push(item);
            },
            Ok(None) => {},
            Err(message) => {
                let note = crate::text::join2("decode_item failed: ", message.as_str());
                failures.push(note);
                proof {
                    assert(failures.deep_view() =~= noted.push(failure_note(message@)));
                }
            },
        }
        i += 1;
    }
    Decoded { connections, failures }
}

/// Reads a subscription's text.
pub fn decode_text(text: &str) -> (read: Decoded)
    ensures
        read@ == decoded_text(lines_in(text@)),
{
    let lines = text_lines(text);
    decode_lines(&lines)
}

/// Reads a subscription's bytes, or says why they are no text.
pub fn decode_bytes(bytes: Vec<u8>) -> (r: Result<Decoded, String>)
    ensures
        match r {
            Ok(read) => valid_utf8(bytes@) && read@ == decoded_text(
                lines_in(decode_utf8(bytes@)),
            ),
            Err(message) => !valid_utf8(bytes@) && message@ == utf8_failure(bytes@),
        },
{
    match utf8_text(bytes) {
        Ok(text) => Ok(decode_text(text.as_str())),
        Err(message) => Err(message),
    }
}

/// What was read or why nothing was, as views.
pub open spec fn read_view(r: Result<Decoded, String>) -> Result<DecodedView, Seq<char>> {
    match r {
        Ok(read) => Ok(read@),
        Err(message) => Err(message@),
    }
}

/// Reads a subscription as it was fetched.
pub fn decode(data: &str) -> (r: Result<Decoded, String>)
    ensures
        read_view(r) == decoded(data@),
{
    match base64_decode(data) {
        Ok(bytes) => decode_bytes(bytes),
        Err(message) => Err(message),
    }
}

/// The text of an answer that reports a failed request.
pub open spec fn http_failure(code: Seq<char>, body: Seq<char>) -> Seq<char> {
    "http请求错误: code="@ + code + ", resp="@ + body
}

/// What fetching a subscription came to, given the answer's status code,
/// the code as text, and the answer's body: an answer with a code of 300 or
/// more is a failure that quotes code and body; else the body is read.
pub fn subscribed(code: u16, code_text: &str, body: &str) -> (r: Result<Decoded, String>)
    ensures
        read_view(r) == if code >= 300 {
            Err::<DecodedView, Seq<char>>(http_failure(code_text@, body@))
        } else {
            decoded(body@)
        },
{
    if code >= 300 {
        let mut message = String::from_str("http请求错误: code=");
        message.append(code_text);
        message.append(", resp=");
        message.append(body);
        return Err(message);
    }
    decode(body)
}

} // verus!
