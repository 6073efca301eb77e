//! Decisions of the HTTP service in front of the hosts: which requests it answers itself,
//! and which of a host's default headers it adds to each response.
use vstd::prelude::*;

use crate::model::pair_seq;

verus! {

broadcast use vstd::string::group_string_axioms;

/// A `tchar` of RFC 9110: a letter, a digit, or one of ``!#$%&'*+-.^_`|~``.
pub open spec fn header_name_char(c: char) -> bool {
    ('a' <= c && c <= 'z') || ('A' <= c && c <= 'Z') || ('0' <= c && c <= '9') || c == '!' || c
        == '#' || c == '$' || c == '%' || c == '&' || c == '\'' || c == '*' || c == '+' || c
        == '-' || c == '.' || c == '^' || c == '_' || c == '`' || c == '|' || c == '~'
}

/// Whether `HeaderName::from_bytes` accepts the UTF-8 bytes of `name`: between 1 and
/// 65535 bytes, each a `tchar` (its table maps every other byte, and every byte of a
/// non-ASCII character, to 0, which it refuses). A name of `tchar`s is ASCII, so its
/// length in bytes is its length in characters.
pub open spec fn header_name_accepted(name: Seq<char>) -> bool {
    &&& 0 < name.len() <= 65535
    &&& forall|i: int| 0 <= i < name.len() ==> header_name_char(#[trigger] name[i])
}

/// Tests a header name (`HeaderName::from_bytes`).
#[verifier::external_body]
pub(crate) fn header_name_valid(name: &str) -> (r: bool)
    ensures
        r == header_name_accepted(name@),
{
    http::HeaderName::from_bytes(name.as_bytes()).is_ok()
}

/// `HeaderValue::from_str` accepts a byte when it is a tab, or at least 32 and not 127;
/// a character is accepted when all the bytes of its UTF-8 encoding are, that is when it
/// is a tab, or at least 32 and not 127 (the bytes of a non-ASCII character are all at
/// least 128).
pub open spec fn header_value_char(c: char) -> bool {
    ((c as u32) >= 32 && (c as u32) != 127) || c == '\t'
}

pub open spec fn header_value_accepted(value: Seq<char>) -> bool {
    forall|i: int| 0 <= i < value.len() ==> header_value_char(#[trigger] value[i])
}

/// Whether a header value is one that `HeaderValue::from_str` accepts.
pub fn header_value_valid(value: &str) -> (r: bool)
    ensures
        r == header_value_accepted(value@),
{
    let n = value.unicode_len();
    let mut i: usize = 0;
    while i < n
        invariant
            i <= n,
            n == value@.len(),
            forall|j: int| 0 <= j < i ==> header_value_char(#[trigger] value@[j]),
        decreases n - i,
    {
        let c = value.get_char(i);
        if !(((c as u32) >= 32 && (c as u32) != 127) || c == '\t') {
            assert(!header_value_char(value@[i as int]));
            return false;
        }
        i = i + 1;
    }
    true
}

/// A default header is added to responses when both its name and its value are valid.
pub open spec fn header_usable(name: Seq<char>, value: Seq<char>) -> bool {
    header_name_accepted(name) && header_value_accepted(value)
}

/// The default headers that are added to a response, in order; the others are skipped.
pub open spec fn usable_headers(headers: Seq<(String, String)>) -> Seq<(String, String)>
    decreases headers.len(),
{
    if headers.len() == 0 {
        Seq::empty()
    } else {
        let rest = usable_headers(headers.drop_last());
        let h = headers.last();
        if header_usable(h.0@, h.1@) {
            rest.push(h)
        } else {
            rest
        }
    }
}

/// Every header added to a response is valid and is one of the host's default headers,
/// and every valid default header is added.
#[verifier::spinoff_prover]
pub proof fn lemma_usable_headers_exact(headers: Seq<(String, String)>)
    ensures
        forall|i: int| 0 <= i < usable_headers(headers).len() ==> header_usable(
            #[trigger] usable_headers(headers)[i].0@,
            usable_headers(headers)[i].1@,
        ) && headers.contains(usable_headers(headers)[i]),
        forall|j: int| 0 <= j < headers.len() && header_usable(#[trigger] headers[j].0@, headers[j].1@)
            ==> usable_headers(headers).contains(headers[j]),
    decreases headers.len(),
{
    if headers.len() > 0 {
        let init = headers.drop_last();
        lemma_usable_headers_exact(init);
        let rest = usable_headers(init);
        let h = headers.last();
        assert forall|i: int| 0 <= i < usable_headers(headers).len() implies header_usable(
            #[trigger] usable_headers(headers)[i].0@,
            usable_headers(headers)[i].1@,
        ) && headers.contains(usable_headers(headers)[i]) by {
            if i < rest.len() {
                assert(usable_headers(headers)[i] == rest[i]);
                assert(0 <= i < usable_headers(init).len());
                assert(header_usable(usable_headers(init)[i].0@, usable_headers(init)[i].1@));
                assert(init.contains(usable_headers(init)[i]));
                let k = choose|k: int| 0 <= k < init.len() && init[k] == rest[i];
                assert(headers[k] == init[k]);
            } else {
                assert(usable_headers(headers)[i] == h);
                assert(headers[headers.len() - 1] == h);
            }
        }
        assert forall|j: int| 0 <= j < headers.len() && header_usable(#[trigger] headers[j].0@, headers[j].1@)
            implies usable_headers(headers).contains(headers[j]) by {
            if j < init.len() {
                assert(init[j] == headers[j]);
                assert(header_usable(init[j].0@, init[j].1@));
                assert(rest.contains(init[j]));
                let k = choose|k: int| 0 <= k < rest.len() && rest[k] == init[j];
                assert(usable_headers(headers)[k] == rest[k]);
            } else {
                assert(headers[j] == h);
                assert(usable_headers(headers)[usable_headers(headers).len() - 1] == h);
            }
        }
    }
}

/// Selects, in order, the default headers whose name and value are valid.
pub fn select_default_headers(headers: &Vec<(String, String)>) -> (r: Vec<(String, String)>)
    ensures
        pair_seq(r@) == pair_seq(usable_headers(headers@)),
{
    let mut r: Vec<(String, String)> = Vec::new();
    let mut i: usize = 0;
    while i < headers.len()
        invariant
            i <= headers@.len(),
            pair_seq(r@) == pair_seq(usable_headers(headers@.take(i as int))),
        decreases headers@.len() - i,
    {
        let key = &headers[i].0;
        let value = &headers[i].1;
        let ok = header_name_valid(key.as_str()) && header_value_valid(value.as_str());
        proof {
            assert(headers@.take(i + 1).drop_last() =~= headers@.take(i as int));
            assert(headers@.take(i + 1).last() == headers@[i as int]);
        }
        if ok {
            let ghost before = r@;
            r.push((key.clone(), value.clone()));
            assert(pair_seq(r@) =~= pair_seq(before).push((key@, value@)));
            assert(pair_seq(usable_headers(headers@.take(i + 1))) =~= pair_seq(
                usable_headers(headers@.take(i as int)),
            ).push((key@, value@)));
        }
        i = i + 1;
    }
    assert(headers@.take(headers@.len() as int) =~= headers@);
    r
}

/// How the service answers a request before any host sees it.
#[derive(Debug, Clone, Copy, PartialEq, Eq)]
pub enum HostLookup {
    /// The request names no host: 400, "Host not found in request".
    MissingHost,
    /// No configured host has the requested name: 502, "Host not found".
    UnknownHost,
    /// The named host routes the request.
    Known,
}

/// Decides from whether the request names a host, and whether that host is configured.
pub fn host_lookup(names_host: bool, host_configured: bool) -> (r: HostLookup)
    ensures
        !names_host ==> r == HostLookup::MissingHost,
        names_host && !host_configured ==> r == HostLookup::UnknownHost,
        names_host && host_configured ==> r == HostLookup::Known,
{
    if !names_host {
        HostLookup::MissingHost
    } else if !host_configured {
        HostLookup::UnknownHost
    } else {
        HostLookup::Known
    }
}

/// The status code and body with which the service answers a request it does not route.
pub fn lookup_answer(l: HostLookup) -> (r: Option<(u16, &'static str)>)
    ensures
        l == HostLookup::MissingHost ==> (r matches Some((s, t)) && s == 400 && t@
            == "Host not found in request"@),
        l == HostLookup::UnknownHost ==> (r matches Some((s, t)) && s == 502 && t@
            == "Host not found"@),
        l == HostLookup::Known ==> r is None,
{
    match l {
        HostLookup::MissingHost => Some((400, "Host not found in request")),
        HostLookup::UnknownHost => Some((502, "Host not found")),
        HostLookup::Known => None,
    }
}

} // verus!
