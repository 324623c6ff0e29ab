use vstd::prelude::*;
use vstd::string::StringExecFns;

verus! {

/// What parsing an RPC URL string yields, as the `url` crate computes it:
/// `None` when the string is not a syntactically valid URL, otherwise the
/// scheme, the host (if the URL has one), the explicit port (if one is
/// given and is not the scheme's default) and the path, in that order.
/// The outcome depends on the input string alone.
pub uninterp spec fn url_components_of(s: Seq<char>) -> Option<
    (Seq<char>, Option<Seq<char>>, Option<u16>, Seq<char>),
>;

/// Relies on `url::Url::parse` and the accessors `Url::scheme`,
/// `Url::host_str`, `Url::port` and `Url::path`: parsing either fails or
/// produces a URL record whose components those accessors return.
#[verifier::external_body]
fn parse_url_components(s: &str) -> (r: Option<(String, Option<String>, Option<u16>, String)>)
    ensures
        match (r, url_components_of(s@)) {
            (None, None) => true,
            (Some(c), Some(g)) => {
                &&& c.0@ == g.0
                &&& match (c.1, g.1) {
                    (None, None) => true,
                    (Some(h), Some(gh)) => h@ == gh,
                    _ => false,
                }
                &&& c.2 == g.2
                &&& c.3@ == g.3
            },
            _ => false,
        },
{
    match url::Url::parse(s) {
        Ok(u) => {
            let host = match u.host_str() {
                Some(h) => Some(h.to_string()),
                None => None,
            };
            Some((u.scheme().to_string(), host, u.port(), u.path().to_string()))
        },
        Err(_) => None,
    }
}

/// The decimal digit character for a value below ten.
pub open spec fn dec_digit(d: nat) -> char
    recommends
        d < 10,
{
    if d == 0 {
        '0'
    } else if d == 1 {
        '1'
    } else if d == 2 {
        '2'
    } else if d == 3 {
        '3'
    } else if d == 4 {
        '4'
    } else if d == 5 {
        '5'
    } else if d == 6 {
        '6'
    } else if d == 7 {
        '7'
    } else if d == 8 {
        '8'
    } else {
        '9'
    }
}

/// The decimal digit string of a number, most significant digit first.
pub open spec fn dec_str(n: nat) -> Seq<char>
    decreases n,
{
    if n < 10 {
        seq![dec_digit(n)]
    } else {
        dec_str(n / 10) + seq![dec_digit(n % 10)]
    }
}

/// The one-character string of a decimal digit.
fn dec_digit_str(d: u16) -> (r: &'static str)
    requires
        d < 10,
    ensures
        r@ == seq![dec_digit(d as nat)],
{
    let r = if d == 0 {
        "0"
    } else if d == 1 {
        "1"
    } else if d == 2 {
        "2"
    } else if d == 3 {
        "3"
    } else if d == 4 {
        "4"
    } else if d == 5 {
        "5"
    } else if d == 6 {
        "6"
    } else if d == 7 {
        "7"
    } else if d == 8 {
        "8"
    } else {
        "9"
    };
    proof {
        reveal_strlit("0");
        reveal_strlit("1");
        reveal_strlit("2");
        reveal_strlit("3");
        reveal_strlit("4");
        reveal_strlit("5");
        reveal_strlit("6");
        reveal_strlit("7");
        reveal_strlit("8");
        reveal_strlit("9");
        assert(r@ =~= seq![dec_digit(d as nat)]);
    }
    r
}

/// Appends the decimal digits of `n` to `out`.
fn append_decimal(out: &mut String, n: u16)
    ensures
        final(out)@ == old(out)@ + dec_str(n as nat),
    decreases n,
{
    if n < 10 {
        out.append(dec_digit_str(n));
    } else {
        append_decimal(out, n / 10);
        out.append(dec_digit_str(n % 10));
        proof {
            assert(out@ =~= old(out)@ + dec_str(n as nat));
        }
    }
}

/// The port a normalized URL carries: the explicit one when present,
/// otherwise 443 for the `https` scheme and 80 for every other scheme.
pub open spec fn effective_port(scheme: Seq<char>, port: Option<u16>) -> u16 {
    match port {
        Some(p) => p,
        None => if scheme == "https"@ {
            443u16
        } else {
            80u16
        },
    }
}

/// The canonical `scheme://host:port/path` form.
pub open spec fn canonical_url_str(
    scheme: Seq<char>,
    host: Seq<char>,
    port: u16,
    path: Seq<char>,
) -> Seq<char> {
    scheme + "://"@ + host + ":"@ + dec_str(port as nat) + path
}

/// What URL normalization returns: no value when the string does not parse
/// or the URL has no host, otherwise the canonical form with the effective
/// port attached.
pub open spec fn normalized_url_of(s: Seq<char>) -> Option<Seq<char>> {
    match url_components_of(s) {
        None => None,
        Some(c) => match c.1 {
            None => None,
            Some(host) => Some(canonical_url_str(c.0, host, effective_port(c.0, c.2), c.3)),
        },
    }
}

/// Parses a URL string and attaches a default port if one is not
/// specified: 443 when the scheme is `https`, 80 otherwise. Returns the
/// URL in canonical `scheme://host:port/path` form, or `None` when the
/// string is not a valid URL or has no host.
pub fn get_url_with_port(url_str: &str) -> (r: Option<String>)
    ensures
        match (r, normalized_url_of(url_str@)) {
            (None, None) => true,
            (Some(u), Some(g)) => u@ == g,
            _ => false,
        },
{
    match parse_url_components(url_str) {
        None => None,
        Some((scheme, host_opt, port_opt, path)) => {
            match host_opt {
                None => None,
                Some(host) => {
                    let ghost scheme0 = scheme@;
                    let https = String::from_str("https");
                    let is_https = scheme == https;
                    let port: u16 = match port_opt {
                        Some(p) => p,
                        None => if is_https {
                            443
                        } else {
                            80
                        },
                    };
                    let mut out = scheme;
                    out.append("://");
                    out.append(host.as_str());
                    out.append(":");
                    append_decimal(&mut out, port);
                    out.append(path.as_str());
                    proof {
                        assert(out@ =~= canonical_url_str(
                            scheme0,
                            host@,
                            effective_port(scheme0, port_opt),
                            path@,
                        ));
                    }
                    Some(out)
                },
            }
        },
    }
}

/// Law: a URL that parses with an explicit port keeps exactly that port;
/// normalization only rewrites it into the canonical form.
pub proof fn lemma_explicit_port_kept(
    s: Seq<char>,
    scheme: Seq<char>,
    host: Seq<char>,
    port: u16,
    path: Seq<char>,
)
    requires
        url_components_of(s) == Some((scheme, Some(host), Some(port), path)),
    ensures
        normalized_url_of(s) == Some(canonical_url_str(scheme, host, port, path)),
{
}

/// Law: a URL that parses without an explicit port gets 443 when its
/// scheme is `https` and 80 for every other scheme.
pub proof fn lemma_default_port(s: Seq<char>, scheme: Seq<char>, host: Seq<char>, path: Seq<char>)
    requires
        url_components_of(s) == Some((scheme, Some(host), Option::<u16>::None, path)),
    ensures
        scheme == "https"@ ==> normalized_url_of(s) == Some(
            canonical_url_str(scheme, host, 443, path),
        ),
        scheme != "https"@ ==> normalized_url_of(s) == Some(
            canonical_url_str(scheme, host, 80, path),
        ),
{
}

/// Law: a string that is not a syntactically valid URL normalizes to no
/// value, never to an error.
pub proof fn lemma_invalid_url_no_value(s: Seq<char>)
    requires
        url_components_of(s) is None,
    ensures
        normalized_url_of(s) is None,
{
}

} // verus!
