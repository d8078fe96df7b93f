//! A subscription link, taken apart.

use crate::text::str_eq;
use vstd::prelude::*;

verus! {

/// The parts of a link as character sequences.
pub struct UrlParts {
    pub scheme: Seq<char>,
    pub host: Option<Seq<char>>,
    pub port: Option<u16>,
    pub username: Seq<char>,
    pub password: Option<Seq<char>>,
    pub fragment: Option<Seq<char>>,
    /// The pairs of the query, in the order of the link.
    pub query: Seq<(Seq<char>, Seq<char>)>,
}

/// A subscription link taken apart into its parts.
pub struct SubsUrl {
    scheme: String,
    host: Option<String>,
    port: Option<u16>,
    username: String,
    password: Option<String>,
    fragment: Option<String>,
    query: Vec<(String, String)>,
}

/// A text that may be missing, as a character sequence.
pub open spec fn text_of(text: Option<String>) -> Option<Seq<char>> {
    match text {
        Some(t) => Some(t@),
        None => None,
    }
}

/// A text that may be missing, empty where it is missing.
pub open spec fn or_empty(text: Option<Seq<char>>) -> Seq<char> {
    match text {
        Some(t) => t,
        None => Seq::empty(),
    }
}

/// The value of the last pair called `name`, and the empty text if no pair
/// has that name.
pub open spec fn query_value(pairs: Seq<(Seq<char>, Seq<char>)>, name: Seq<char>) -> Seq<char>
    decreases pairs.len(),
{
    if pairs.len() == 0 {
        Seq::empty()
    } else if pairs.last().0 == name {
        pairs.last().1
    } else {
        query_value(pairs.drop_last(), name)
    }
}

impl View for SubsUrl {
    type V = UrlParts;

    closed spec fn view(&self) -> UrlParts {
        UrlParts {
            scheme: self.scheme@,
            host: text_of(self.host),
            port: self.port,
            username: self.username@,
            password: text_of(self.password),
            fragment: text_of(self.fragment),
            query: Seq::new(self.query@.len(), |i: int| (self.query@[i].0@, self.query@[i].1@)),
        }
    }
}

/// What `url::Url::parse` makes of a text: the parts of the link, or the
/// text of the parse error.
pub uninterp spec fn parsed_url(text: Seq<char>) -> Result<UrlParts, Seq<char>>;

/// Trusted: `url::Url::parse`, the link's parts read off with the getters
/// `scheme`, `host_str`, `port`, `username`, `password`, `fragment` and
/// `query_pairs`, and the error turned into its message. All of it depends
/// on the text alone; the contract gives the outcome the name
/// `parsed_url` and says no more of it.
#[verifier::external_body]
fn parse_url(text: &str) -> (r: Result<SubsUrl, String>)
    ensures
        match r {
            Ok(link) => parsed_url(text@) == Ok::<UrlParts, Seq<char>>(link@),
            Err(message) => parsed_url(text@) == Err::<UrlParts, Seq<char>>(message@),
        },
{
    match url::Url::parse(text) {
        Ok(u) => Ok(SubsUrl {
            scheme: u.scheme().to_owned(),
            host: u.host_str().map(str::to_owned),
            port: u.port(),
            username: u.username().to_owned(),
            password: u.password().map(str::to_owned),
            fragment: u.fragment().map(str::to_owned),
            query: u.query_pairs().into_owned().collect(),
        }),
        Err(e) => Err(e.to_string()),
    }
}

/// A copy of a text that may be missing, empty where it is missing.
fn clone_or_empty(text: &Option<String>) -> (copy: String)
    ensures
        copy@ == or_empty(text_of(*text)),
{
    match text {
        Some(t) => t.clone(),
        None => String::new(),
    }
}

impl SubsUrl {
    /// Takes a link apart, or says why the text is no link.
    pub fn new(url: &str) -> (r: Result<SubsUrl, String>)
        ensures
            match r {
                Ok(link) => parsed_url(url@) == Ok::<UrlParts, Seq<char>>(link@),
                Err(message) => parsed_url(url@) == Err::<UrlParts, Seq<char>>(message@),
            },
    {
        parse_url(url)
    }

    /// The scheme of the link.
    pub fn scheme(&self) -> (text: String)
        ensures
            text@ == self@.scheme,
    {
        self.scheme.clone()
    }

    /// The host of the link, empty if it has none.
    pub fn server(&self) -> (text: String)
        ensures
            text@ == or_empty(self@.host),
    {
        clone_or_empty(&self.host)
    }

    /// The port of the link, zero if it names none.
    pub fn port(&self) -> (port: u16)
        ensures
            port == match self@.port {
                Some(p) => p,
                None => 0,
            },
    {
        match self.port {
            Some(p) => p,
            None => 0,
        }
    }

    /// The user name of the link.
    pub fn username(&self) -> (text: String)
        ensures
            text@ == self@.username,
    {
        self.username.clone()
    }

    /// The fragment of the link, empty if it has none.
    pub fn fragment(&self) -> (text: String)
        ensures
            text@ == or_empty(self@.fragment),
    {
        clone_or_empty(&self.fragment)
    }

    /// The password of the link, empty if it has none.
    pub fn password(&self) -> (text: String)
        ensures
            text@ == or_empty(self@.password),
    {
        clone_or_empty(&self.password)
    }

    /// The value of the query's last pair called `name`, empty if no pair
    /// has that name.
    pub fn query(&self, name: &str) -> (text: String)
        ensures
            text@ == query_value(self@.query, name@),
    {
        let mut i: usize = self.query.len();
        proof {
            assert(self@.query.take(i as int) =~= self@.query);
        }
        while i > 0
            invariant
                i <= self.query.len(),
                query_value(self@.query, name@) == query_value(self@.query.take(i as int), name@),
            decreases i,
        {
            i -= 1;
            proof {
                assert(self@.query.take(i + 1).drop_last() =~= self@.query.take(i as int));
            }
            if str_eq(self.query[i].0.as_str(), name) {
                return self.query[i].1.clone();
            }
        }
        String::new()
    }
}

} // verus!
