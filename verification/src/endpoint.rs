//! Where a container is reached, and how that is written as a URL

use vstd::prelude::*;
use vstd::string::StringExecFns;

verus! {

/// The character for a digit.
pub open spec fn digit(d: nat) -> char {
    if d == 0 {
        '0'
    } else if d == 1 {
        '1'
    } else if d == 2 {
        '2'
    } else if d == 3 {
        '3'
    } else if d == 4 {
        '4'
    } else if d == 5 {
        '5'
    } else if d == 6 {
        '6'
    } else if d == 7 {
        '7'
    } else if d == 8 {
        '8'
    } else {
        '9'
    }
}

/// A number in decimal notation, without leading zeros.
pub open spec fn decimal(n: nat) -> Seq<char>
    decreases n,
{
    if n < 10 {
        seq![digit(n)]
    } else {
        decimal(n / 10).push(digit(n % 10))
    }
}

fn digit_text(d: u64) -> (text: &'static str)
    requires
        d < 10,
    ensures
        text@ == seq![digit(d as nat)],
{
    proof {
        reveal_strlit("0");
        reveal_strlit("1");
        reveal_strlit("2");
        reveal_strlit("3");
        reveal_strlit("4");
        reveal_strlit("5");
        reveal_strlit("6");
        reveal_strlit("7");
        reveal_strlit("8");
        reveal_strlit("9");
    }
    let text = if d == 0 {
        "0"
    } else if d == 1 {
        "1"
    } else if d == 2 {
        "2"
    } else if d == 3 {
        "3"
    } else if d == 4 {
        "4"
    } else if d == 5 {
        "5"
    } else if d == 6 {
        "6"
    } else if d == 7 {
        "7"
    } else if d == 8 {
        "8"
    } else {
        "9"
    };
    assert(text@ =~= seq![digit(d as nat)]);
    text
}

/// Writes a number in decimal notation.
pub fn decimal_text(n: u64) -> (text: String)
    ensures
        text@ == decimal(n as nat),
    decreases n,
{
    if n < 10 {
        String::from_str(digit_text(n))
    } else {
        let text = decimal_text(n / 10).concat(digit_text(n % 10));
        assert(text@ =~= decimal(n as nat));
        text
    }
}

/// Where a port of a container is reached from outside the containers: a host and a port.
#[derive(Debug)]
pub struct Endpoint {
    host: String,
    port: u16,
}

/// What an [`Endpoint`] stands for.
pub ghost struct EndpointView {
    pub host: Seq<char>,
    pub port: u16,
}

impl EndpointView {
    /// The URL of the endpoint: `http://`, the host, a colon, and the port in decimal notation.
    pub open spec fn url(self) -> Seq<char> {
        "http://"@ + self.host + ":"@ + decimal(self.port as nat)
    }
}

impl View for Endpoint {
    type V = EndpointView;

    closed spec fn view(&self) -> EndpointView {
        EndpointView { host: self.host@, port: self.port }
    }
}

impl DeepView for Endpoint {
    type V = EndpointView;

    open spec fn deep_view(&self) -> EndpointView {
        self@
    }
}

impl Clone for Endpoint {
    fn clone(&self) -> (copy: Endpoint)
        ensures
            copy@ == self@,
    {
        Endpoint { host: self.host.clone(), port: self.port }
    }
}

impl Endpoint {
    /// The endpoint with the given host and port.
    pub fn new(host: &str, port: u16) -> (endpoint: Endpoint)
        ensures
            endpoint@ == (EndpointView { host: host@, port }),
    {
        Endpoint { host: host.to_owned(), port }
    }

    /// The host
    pub fn host(&self) -> (host: &String)
        ensures
            host@ == self@.host,
    {
        &self.host
    }

    /// The port
    pub fn port(&self) -> (port: u16)
        ensures
            port == self@.port,
    {
        self.port
    }

    /// The URL of the endpoint, such as `http://localhost:8080`.
    pub fn url(&self) -> (url: String)
        ensures
            url@ == self@.url(),
    {
        let port = decimal_text(self.port as u64);
        String::from_str("http://").concat(self.host.as_str()).concat(":").concat(port.as_str())
    }
}

} // verus!
