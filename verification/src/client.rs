//! Client that knows where the server is reached

use reqwest::Url;
use url::ParseError;
use vstd::prelude::*;

verus! {

/// The error of `Url::parse` and `Url::join`, `url::ParseError`. Nothing is said of what it
/// holds.
#[verifier::external_type_specification]
#[verifier::external_body]
pub struct ExParseError(ParseError);

/// What `Url::join` gives for a reference and a base URL, written out as text, where the base
/// is given as text and read by `Url::parse`; or nothing where one of the two fails.
pub uninterp spec fn url_join(base: Seq<char>, reference: Seq<char>) -> Option<Seq<char>>;

/// Resolves a reference against a base URL: the base is turned into a `Url` by `Url::parse`,
/// and `Url::join` is called on it with the reference.
///
/// Not proved, but taken from the two functions: that the outcome depends on the two texts
/// alone, so that it has a name, [`url_join`]. Nothing is claimed of what the URL is.
#[verifier::external_body]
fn join(base: &str, reference: &str) -> (joined: Result<String, ParseError>)
    ensures
        match joined {
            Ok(url) => url_join(base@, reference@) == Some(url@),
            Err(_) => url_join(base@, reference@) is None,
        },
{
    Url::parse(base)?.join(reference).map(String::from)
}

/// The reason why a path leads nowhere: the base URL and the path do not make a URL together.
#[derive(Debug)]
pub struct InvalidUrl {
    cause: ParseError,
}

impl InvalidUrl {
    /// What was wrong with the URL
    pub fn cause(&self) -> (cause: &ParseError)
        ensures
            *cause == self.spec_cause(),
    {
        &self.cause
    }

    /// What was wrong with the URL
    pub closed spec fn spec_cause(&self) -> ParseError {
        self.cause
    }
}

/// The target of a navigation, given what resolving the path against the base URL gave.
pub fn target(joined: Result<String, ParseError>) -> (target: Result<String, InvalidUrl>)
    ensures
        match joined {
            Ok(url) => target == Ok::<String, InvalidUrl>(url),
            Err(cause) => target is Err && target->Err_0.spec_cause() == cause,
        },
{
    match joined {
        Ok(url) => Ok(url),
        Err(cause) => Err(InvalidUrl { cause }),
    }
}

/// Client that interacts with the web application
///
/// The client is preconfigured to target the server that is tested, so that a test only needs
/// to supply the path that it wants to visit.
#[derive(Debug)]
pub struct Client {
    base_url: String,
}

impl View for Client {
    type V = Seq<char>;

    /// The base URL of the server
    closed spec fn view(&self) -> Seq<char> {
        self.base_url@
    }
}

impl Clone for Client {
    fn clone(&self) -> (copy: Client)
        ensures
            copy@ == self@,
    {
        Client { base_url: self.base_url.clone() }
    }
}

impl Client {
    /// The client for the server with the given base URL.
    pub fn new(base_url: &str) -> (client: Client)
        ensures
            client@ == base_url@,
    {
        Client { base_url: base_url.to_owned() }
    }

    /// The base URL of the server
    pub fn base_url(&self) -> (base_url: &String)
        ensures
            base_url@ == self@,
    {
        &self.base_url
    }

    /// The URL to navigate to for the specified path
    ///
    /// The path is taken relative to the base URL of the server.
    pub fn goto(&self, path: &str) -> (target: Result<String, InvalidUrl>)
        ensures
            match target {
                Ok(url) => url_join(self@, path@) == Some(url@),
                Err(_) => url_join(self@, path@) is None,
            },
    {
        target(join(self.base_url.as_str(), path))
    }
}

} // verus!
