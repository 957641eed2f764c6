//! The addresses under which the backend is reached, as text.
//!
//! The backend listens on the loopback interface only, so an address is fixed
//! by its port: the base URL that the user interface loads, and the health
//! URL that is polled while the backend starts.

use vstd::prelude::*;
use vstd::string::*;

verus! {

/// The character that stands for the digit `d`.
pub open spec fn digit(d: nat) -> char
    recommends
        d < 10,
{
    "0123456789"@[d as int]
}

/// The decimal numeral of `n`, without sign or leading zeros.
pub open spec fn decimal(n: nat) -> Seq<char>
    decreases n,
{
    if n < 10 {
        seq![digit(n)]
    } else {
        decimal(n / 10).push(digit(n % 10))
    }
}

/// The base URL of a backend that listens on `port`.
pub open spec fn base_url_text(port: u16) -> Seq<char> {
    "http://127.0.0.1:"@ + decimal(port as nat) + "/"@
}

/// The URL of the health endpoint of a backend that listens on `port`.
pub open spec fn health_url_text(port: u16) -> Seq<char> {
    "http://127.0.0.1:"@ + decimal(port as nat) + "/api/health"@
}

/// The address handed out while no base URL has been published.
pub open spec fn default_url_text() -> Seq<char> {
    "http://127.0.0.1:8000"@
}

/// The one-character text of the digit `d`.
fn digit_text(d: u16) -> (text: &'static str)
    requires
        d < 10,
    ensures
        text@ == seq![digit(d as nat)],
{
    proof {
        reveal_strlit("0123456789");
        reveal_strlit("0");
        reveal_strlit("1");
        reveal_strlit("2");
        reveal_strlit("3");
        reveal_strlit("4");
        reveal_strlit("5");
        reveal_strlit("6");
        reveal_strlit("7");
        reveal_strlit("8");
        reveal_strlit("9");
    }
    let text = if d == 0 {
        "0"
    } else if d == 1 {
        "1"
    } else if d == 2 {
        "2"
    } else if d == 3 {
        "3"
    } else if d == 4 {
        "4"
    } else if d == 5 {
        "5"
    } else if d == 6 {
        "6"
    } else if d == 7 {
        "7"
    } else if d == 8 {
        "8"
    } else {
        "9"
    };
    text
}

/// Appends the decimal numeral of `n` to `out`.
fn push_decimal(out: &mut String, n: u16)
    ensures
        final(out)@ == old(out)@ + decimal(n as nat),
    decreases n,
{
    if n >= 10 {
        push_decimal(out, n / 10);
    }
    out.append(digit_text(n % 10));
}

/// The decimal numeral of `port`, as it is passed to the backend on its
/// command line.
pub fn port_text(port: u16) -> (text: String)
    ensures
        text@ == decimal(port as nat),
{
    let mut text = String::new();
    push_decimal(&mut text, port);
    text
}

/// The base URL `http://127.0.0.1:<port>/` of a backend that listens on
/// `port`.
pub fn base_url(port: u16) -> (url: String)
    ensures
        url@ == base_url_text(port),
{
    let mut url = String::from_str("http://127.0.0.1:");
    push_decimal(&mut url, port);
    url.append("/");
    url
}

/// The URL `http://127.0.0.1:<port>/api/health` that is polled to learn
/// whether the backend on `port` is ready.
pub fn health_url(port: u16) -> (url: String)
    ensures
        url@ == health_url_text(port),
{
    let mut url = String::from_str("http://127.0.0.1:");
    push_decimal(&mut url, port);
    url.append("/api/health");
    url
}

/// The address handed out while no base URL has been published:
/// `http://127.0.0.1:8000`, without a trailing slash.
pub fn default_url() -> (url: String)
    ensures
        url@ == default_url_text(),
{
    String::from_str("http://127.0.0.1:8000")
}

} // verus!
