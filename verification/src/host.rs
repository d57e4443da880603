//! The host capability surface offered to guests: outbound HTTP with
//! validation and capability switches, secrets lookup and key-value I/O.
//! Sending the request is the surrounding host's job; everything decided
//! about a request — whether HTTP is allowed at all, method and header
//! validation, the reading of the response status — is verified here.

use vstd::prelude::*;
use vstd::string::{StrSliceExecFns, StringExecFns};
use crate::text::{spec_split_once, spec_trim, split_once_char, trim_str};

verus! {

/// The decimal digits, low values first.
pub open spec fn spec_dec_digit(d: u16) -> char
    recommends
        d < 10,
{
    seq!['0', '1', '2', '3', '4', '5', '6', '7', '8', '9'][d as int]
}

/// The decimal rendering of a number, most significant digit first.
pub open spec fn spec_dec(n: u16) -> Seq<char>
    decreases n,
{
    if n < 10 {
        seq![spec_dec_digit(n)]
    } else {
        spec_dec(n / 10) + seq![spec_dec_digit(n % 10)]
    }
}

fn dec_digit(d: u16) -> (r: String)
    requires
        d < 10,
    ensures
        r@ == seq![spec_dec_digit(d)],
{
    let s: &str = match d {
        0 => "0",
        1 => "1",
        2 => "2",
        3 => "3",
        4 => "4",
        5 => "5",
        6 => "6",
        7 => "7",
        8 => "8",
        _ => "9",
    };
    proof {
        reveal_strlit("0");
        reveal_strlit("1");
        reveal_strlit("2");
        reveal_strlit("3");
        reveal_strlit("4");
        reveal_strlit("5");
        reveal_strlit("6");
        reveal_strlit("7");
        reveal_strlit("8");
        reveal_strlit("9");
        assert(s@ =~= seq![spec_dec_digit(d)]);
    }
    s.to_owned()
}

pub fn u16_to_string(n: u16) -> (r: String)
    ensures
        r@ == spec_dec(n),
    decreases n,
{
    if n < 10 {
        dec_digit(n)
    } else {
        let prefix = u16_to_string(n / 10);
        let last = dec_digit(n % 10);
        prefix.concat(last.as_str())
    }
}

/// Success statuses of an HTTP response.
pub open spec fn spec_status_ok(status: u16) -> bool {
    200 <= status < 300
}

/// Reads a response status: non-2xx statuses are refused with the error
/// `status-<code>`.
pub fn status_decision(status: u16) -> (r: Result<(), String>)
    ensures
        spec_status_ok(status) ==> r is Ok,
        !spec_status_ok(status) ==> (r matches Err(m) && m@ == "status-"@ + spec_dec(status)),
{
    if 200 <= status && status < 300 {
        Ok(())
    } else {
        let code = u16_to_string(status);
        Err(String::from_str("status-").concat(code.as_str()))
    }
}

/// Whether `reqwest::Method::from_bytes` accepts the text: a property of
/// the characters alone.
pub uninterp spec fn spec_http_method_valid(m: Seq<char>) -> bool;

/// Relies on `reqwest::Method::from_bytes`: acceptance depends on the
/// bytes alone.
#[verifier::external_body]
fn is_valid_http_method(m: &str) -> (r: bool)
    ensures
        r == spec_http_method_valid(m@),
{
    reqwest::Method::from_bytes(m.as_bytes()).is_ok()
}

/// Whether `reqwest::header::HeaderName::from_bytes` accepts the text: a
/// property of the characters alone.
pub uninterp spec fn spec_header_name_valid(s: Seq<char>) -> bool;

/// Relies on `reqwest::header::HeaderName::from_bytes`: acceptance depends
/// on the bytes alone.
#[verifier::external_body]
fn is_valid_header_name(s: &str) -> (r: bool)
    ensures
        r == spec_header_name_valid(s@),
{
    reqwest::header::HeaderName::from_bytes(s.as_bytes()).is_ok()
}

/// Whether `reqwest::header::HeaderValue::from_str` accepts the text: a
/// property of the characters alone.
pub uninterp spec fn spec_header_value_valid(s: Seq<char>) -> bool;

/// Relies on `reqwest::header::HeaderValue::from_str`: acceptance depends
/// on the characters alone.
#[verifier::external_body]
fn is_valid_header_value(s: &str) -> (r: bool)
    ensures
        r == spec_header_value_valid(s@),
{
    reqwest::header::HeaderValue::from_str(s).is_ok()
}

/// How one header line parses: split on the first `:`, both sides
/// trimmed, name and value each validated.
pub open spec fn spec_parse_header(h: Seq<char>) -> Result<(Seq<char>, Seq<char>), Seq<char>> {
    match spec_split_once(h, ':') {
        None => Err("invalid-header:"@ + h),
        Some(p) => {
            let name = spec_trim(p.0);
            let value = spec_trim(p.1);
            if !spec_header_name_valid(name) {
                Err("invalid-header-name:"@ + name)
            } else if !spec_header_value_valid(value) {
                Err("invalid-header-value:"@ + h)
            } else {
                Ok((name, value))
            }
        },
    }
}

/// Parses one header line as [`spec_parse_header`] prescribes.
fn parse_header(h: &str) -> (r: Result<(String, String), String>)
    ensures
        match r {
            Ok(p) => spec_parse_header(h@) == Ok::<_, Seq<char>>((p.0@, p.1@)),
            Err(m) => spec_parse_header(h@) == Err::<(Seq<char>, Seq<char>), _>(m@),
        },
{
    match split_once_char(h, ':') {
        None => Err(String::from_str("invalid-header:").concat(h)),
        Some((raw_name, raw_value)) => {
            let name = trim_str(raw_name.as_str());
            let value = trim_str(raw_value.as_str());
            if !is_valid_header_name(name.as_str()) {
                Err(String::from_str("invalid-header-name:").concat(name.as_str()))
            } else if !is_valid_header_value(value.as_str()) {
                Err(String::from_str("invalid-header-value:").concat(h))
            } else {
                Ok((name, value))
            }
        },
    }
}

/// An outbound request that HTTP is enabled for and that validation
/// accepted: the method text is accepted, and every header is split and
/// trimmed into an accepted name and value.
#[derive(Debug)]
pub struct CheckedHttpRequest {
    pub method: String,
    pub url: String,
    pub headers: Vec<(String, String)>,
}

/// The per-call state behind the host capabilities.
#[derive(Debug)]
pub struct HostState {
    pub http_enabled: bool,
}

impl HostState {
    pub fn new(http_enabled: bool) -> (s: Self)
        ensures
            s.http_enabled == http_enabled,
    {
        HostState { http_enabled }
    }

    /// The capability switch and validation ahead of an outbound HTTP
    /// request.  With HTTP disabled every request is refused with
    /// `http-disabled`; an unacceptable method is refused with
    /// `invalid-method`; headers are parsed in order and the first bad one
    /// decides the error.  What passes is returned ready to send.
    pub fn http_request_precheck(&self, method: &str, url: &str, headers: &Vec<String>) -> (r:
        Result<CheckedHttpRequest, String>)
        ensures
            !self.http_enabled ==> (r matches Err(m) && m@ == "http-disabled"@),
            self.http_enabled && !spec_http_method_valid(method@) ==> (r matches Err(m) && m@
                == "invalid-method"@),
            self.http_enabled && spec_http_method_valid(method@) ==> match r {
                Ok(c) => {
                    &&& c.method@ == method@
                    &&& c.url@ == url@
                    &&& c.headers@.len() == headers@.len()
                    &&& forall|k: int|
                        0 <= k < headers@.len() ==> spec_parse_header(#[trigger] headers@[k]@)
                            == Ok::<_, Seq<char>>((c.headers@[k].0@, c.headers@[k].1@))
                },
                Err(m) => exists|k: int|
                    {
                        &&& 0 <= k < headers@.len()
                        &&& #[trigger] spec_parse_header(headers@[k]@) == Err::<
                            (Seq<char>, Seq<char>),
                            _,
                        >(m@)
                        &&& forall|j: int|
                            0 <= j < k ==> (#[trigger] spec_parse_header(headers@[j]@)) is Ok
                    },
            },
    {
        if !self.http_enabled {
            return Err(String::from_str("http-disabled"));
        }
        if !is_valid_http_method(method) {
            return Err(String::from_str("invalid-method"));
        }
        let n = headers.len();
        let mut parsed: Vec<(String, String)> = Vec::new();
        let mut i: usize = 0;
        while i < n
            invariant
                self.http_enabled,
                spec_http_method_valid(method@),
                n == headers@.len(),
                i <= n,
                parsed@.len() == i,
                forall|k: int|
                    0 <= k < i ==> spec_parse_header(#[trigger] headers@[k]@) == Ok::<
                        _,
                        Seq<char>,
                    >((parsed@[k].0@, parsed@[k].1@)),
            decreases n - i,
        {
            match parse_header(headers[i].as_str()) {
                Ok(p) => {
                    parsed.push(p);
                },
                Err(m) => {
                    proof {
                        assert(spec_parse_header(headers@[i as int]@) == Err::<
                            (Seq<char>, Seq<char>),
                            _,
                        >(m@));
                    }
                    return Err(m);
                },
            }
            i = i + 1;
        }
        Ok(CheckedHttpRequest { method: method.to_owned(), url: url.to_owned(), headers: parsed })
    }

    /// Secrets lookup is disabled in this design: every request is refused
    /// with `secrets-disabled`, and no capability failure leaves the
    /// return value.
    pub fn secret_get(&self, name: &str) -> (r: Result<String, String>)
        ensures
            r matches Err(m) && m@ == "secrets-disabled"@,
    {
        let _ = name;
        Err(String::from_str("secrets-disabled"))
    }

    /// Key-value reads always answer "absent".
    pub fn kv_get(&self, ns: &str, key: &str) -> (r: Option<String>)
        ensures
            r is None,
    {
        let _ = ns;
        let _ = key;
        None
    }

    /// Key-value writes are accepted and dropped; the state is unchanged.
    pub fn kv_put(&mut self, ns: &str, key: &str, val: &str)
        ensures
            *final(self) == *old(self),
    {
        let _ = ns;
        let _ = key;
        let _ = val;
    }
}

} // verus!
