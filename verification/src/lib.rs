//! Configuration, routing and request-decision logic of the VeTiS web server.
use vstd::prelude::*;

pub mod auth;
pub mod cache;
pub mod config;
pub mod errors;
pub mod fs;
pub mod host;
pub mod listener;
pub mod model;
pub mod security;
pub mod server;
pub mod std_types;
pub mod text;
pub mod utils;
pub mod virtual_host;

verus! {

broadcast use vstd::string::group_string_axioms;

/// The result type of the library's fallible operations.
pub type VetisResult<T> = Result<T, crate::errors::VetisError>;

/// An application protocol a TLS connection can negotiate (ALPN).
#[derive(Clone, Copy, Debug, PartialEq, Eq, Structural)]
pub enum Alpn {
    /// HTTP/1.1
    Http11,
    /// HTTP/2 over TLS
    H2,
    /// HTTP/2 over cleartext
    H2c,
    /// HTTP/3
    H3,
    /// DNS over TLS
    Dot,
    /// DNS over HTTPS
    Doh,
    /// DNS over QUIC
    Doq,
    /// ACME TLS-ALPN challenge
    AcmeTls1,
}

/// The protocol identifier of each protocol, as registered for ALPN.
pub open spec fn alpn_id(a: Alpn) -> Seq<u8> {
    match a {
        Alpn::Http11 => seq![104u8, 116u8, 116u8, 112u8, 47u8, 49u8, 46u8, 49u8],
        Alpn::H2 => seq![104u8, 50u8],
        Alpn::H2c => seq![104u8, 50u8, 99u8],
        Alpn::H3 => seq![104u8, 51u8],
        Alpn::Dot => seq![100u8, 111u8, 116u8],
        Alpn::Doh => seq![100u8, 111u8, 104u8],
        Alpn::Doq => seq![100u8, 111u8, 113u8],
        Alpn::AcmeTls1 => seq![97u8, 99u8, 109u8, 101u8, 45u8, 116u8, 108u8, 115u8, 47u8, 49u8],
    }
}

/// The name of each protocol, as written in configuration files (lower case).
pub open spec fn alpn_name(a: Alpn) -> Seq<char> {
    match a {
        Alpn::Http11 => "http/1.1"@,
        Alpn::H2 => "h2"@,
        Alpn::H2c => "h2c"@,
        Alpn::H3 => "h3"@,
        Alpn::Dot => "dot"@,
        Alpn::Doh => "doh"@,
        Alpn::Doq => "doq"@,
        Alpn::AcmeTls1 => "acme-tls/1"@,
    }
}

/// The protocol whose identifier is `id`, if any.
pub open spec fn alpn_from_id_spec(id: Seq<u8>) -> Option<Alpn> {
    if id == alpn_id(Alpn::Http11) {
        Some(Alpn::Http11)
    } else if id == alpn_id(Alpn::H2) {
        Some(Alpn::H2)
    } else if id == alpn_id(Alpn::H2c) {
        Some(Alpn::H2c)
    } else if id == alpn_id(Alpn::H3) {
        Some(Alpn::H3)
    } else if id == alpn_id(Alpn::Dot) {
        Some(Alpn::Dot)
    } else if id == alpn_id(Alpn::Doh) {
        Some(Alpn::Doh)
    } else if id == alpn_id(Alpn::Doq) {
        Some(Alpn::Doq)
    } else if id == alpn_id(Alpn::AcmeTls1) {
        Some(Alpn::AcmeTls1)
    } else {
        None
    }
}

/// The protocol whose lower-case name is `name`, if any.
pub open spec fn alpn_from_name_spec(name: Seq<char>) -> Option<Alpn> {
    if name == alpn_name(Alpn::Http11) {
        Some(Alpn::Http11)
    } else if name == alpn_name(Alpn::H2) {
        Some(Alpn::H2)
    } else if name == alpn_name(Alpn::H2c) {
        Some(Alpn::H2c)
    } else if name == alpn_name(Alpn::H3) {
        Some(Alpn::H3)
    } else if name == alpn_name(Alpn::Dot) {
        Some(Alpn::Dot)
    } else if name == alpn_name(Alpn::Doh) {
        Some(Alpn::Doh)
    } else if name == alpn_name(Alpn::Doq) {
        Some(Alpn::Doq)
    } else if name == alpn_name(Alpn::AcmeTls1) {
        Some(Alpn::AcmeTls1)
    } else {
        None
    }
}

/// What `str::to_lowercase` makes of a string.
pub uninterp spec fn lowercased(s: Seq<char>) -> Seq<char>;

pub open spec fn is_ascii_char(c: char) -> bool {
    (c as u32) < 128
}

/// Every character of `s` is ASCII.
pub open spec fn all_ascii(s: Seq<char>) -> bool {
    forall|i: int| 0 <= i < s.len() ==> is_ascii_char(#[trigger] s[i])
}

/// ASCII letters in lower case, every other character unchanged.
pub open spec fn ascii_lower(s: Seq<char>) -> Seq<char> {
    s.map_values(|c: char| if 'A' <= c && c <= 'Z' { ((c as u32) + 32) as char } else { c })
}

/// The lower-case form of `s` (`str::to_lowercase`); on ASCII text it lowers the ASCII
/// letters and keeps everything else.
#[verifier::external_body]
pub(crate) fn to_lowercase(s: &str) -> (r: String)
    ensures
        r@ == lowercased(s@),
        all_ascii(s@) ==> r@ == ascii_lower(s@),
{
    s.to_lowercase()
}

fn bytes_eq(a: &[u8], b: &[u8]) -> (r: bool)
    ensures
        r == (a@ == b@),
{
    if a.len() != b.len() {
        return false;
    }
    let mut i: usize = 0;
    while i < a.len()
        invariant
            a@.len() == b@.len(),
            i <= a@.len(),
            forall|j: int| 0 <= j < i ==> a@[j] == b@[j],
        decreases a@.len() - i,
    {
        if a[i] != b[i] {
            return false;
        }
        i = i + 1;
    }
    assert(a@ =~= b@);
    true
}

impl Alpn {
    /// The protocol's ALPN identifier.
    pub fn protocol_id(&self) -> (r: Vec<u8>)
        ensures
            r@ == alpn_id(*self),
    {
        let r: Vec<u8> = match self {
            Alpn::Http11 => vec![104u8, 116u8, 116u8, 112u8, 47u8, 49u8, 46u8, 49u8],
            Alpn::H2 => vec![104u8, 50u8],
            Alpn::H2c => vec![104u8, 50u8, 99u8],
            Alpn::H3 => vec![104u8, 51u8],
            Alpn::Dot => vec![100u8, 111u8, 116u8],
            Alpn::Doh => vec![100u8, 111u8, 104u8],
            Alpn::Doq => vec![100u8, 111u8, 113u8],
            Alpn::AcmeTls1 => vec![97u8, 99u8, 109u8, 101u8, 45u8, 116u8, 108u8, 115u8, 47u8, 49u8],
        };
        assert(r@ =~= alpn_id(*self));
        r
    }

    /// The protocol named by an ALPN identifier, or `None` for an unknown identifier.
    pub fn from_protocol_id(id: &[u8]) -> (r: Option<Alpn>)
        ensures
            r == alpn_from_id_spec(id@),
    {
        if bytes_eq(id, Alpn::Http11.protocol_id().as_slice()) {
            Some(Alpn::Http11)
        } else if bytes_eq(id, Alpn::H2.protocol_id().as_slice()) {
            Some(Alpn::H2)
        } else if bytes_eq(id, Alpn::H2c.protocol_id().as_slice()) {
            Some(Alpn::H2c)
        } else if bytes_eq(id, Alpn::H3.protocol_id().as_slice()) {
            Some(Alpn::H3)
        } else if bytes_eq(id, Alpn::Dot.protocol_id().as_slice()) {
            Some(Alpn::Dot)
        } else if bytes_eq(id, Alpn::Doh.protocol_id().as_slice()) {
            Some(Alpn::Doh)
        } else if bytes_eq(id, Alpn::Doq.protocol_id().as_slice()) {
            Some(Alpn::Doq)
        } else if bytes_eq(id, Alpn::AcmeTls1.protocol_id().as_slice()) {
            Some(Alpn::AcmeTls1)
        } else {
            None
        }
    }

    /// The protocol's lower-case name.
    pub fn name(&self) -> (r: &'static str)
        ensures
            r@ == alpn_name(*self),
    {
        match self {
            Alpn::Http11 => "http/1.1",
            Alpn::H2 => "h2",
            Alpn::H2c => "h2c",
            Alpn::H3 => "h3",
            Alpn::Dot => "dot",
            Alpn::Doh => "doh",
            Alpn::Doq => "doq",
            Alpn::AcmeTls1 => "acme-tls/1",
        }
    }

    /// The protocol named by `value` in any letter case, or `None` for an unknown name.
    pub fn from_name(value: &str) -> (r: Option<Alpn>)
        ensures
            r == alpn_from_name_spec(lowercased(value@)),
            all_ascii(value@) ==> r == alpn_from_name_spec(ascii_lower(value@)),
    {
        let lower = to_lowercase(value);
        let l = lower.as_str();
        if crate::text::str_eq(l, Alpn::Http11.name()) {
            Some(Alpn::Http11)
        } else if crate::text::str_eq(l, Alpn::H2.name()) {
            Some(Alpn::H2)
        } else if crate::text::str_eq(l, Alpn::H2c.name()) {
            Some(Alpn::H2c)
        } else if crate::text::str_eq(l, Alpn::H3.name()) {
            Some(Alpn::H3)
        } else if crate::text::str_eq(l, Alpn::Dot.name()) {
            Some(Alpn::Dot)
        } else if crate::text::str_eq(l, Alpn::Doh.name()) {
            Some(Alpn::Doh)
        } else if crate::text::str_eq(l, Alpn::Doq.name()) {
            Some(Alpn::Doq)
        } else if crate::text::str_eq(l, Alpn::AcmeTls1.name()) {
            Some(Alpn::AcmeTls1)
        } else {
            None
        }
    }
}

/// An identifier reads back as the protocol it was made from.
pub proof fn lemma_alpn_id_round_trip(a: Alpn)
    ensures
        alpn_from_id_spec(alpn_id(a)) == Some(a),
{
    let h11 = alpn_id(Alpn::Http11);
    let h2 = alpn_id(Alpn::H2);
    let h2c = alpn_id(Alpn::H2c);
    let h3 = alpn_id(Alpn::H3);
    let dot = alpn_id(Alpn::Dot);
    let doh = alpn_id(Alpn::Doh);
    let doq = alpn_id(Alpn::Doq);
    let acme = alpn_id(Alpn::AcmeTls1);
    assert(h11.len() == 8 && h2.len() == 2 && h2c.len() == 3 && h3.len() == 2);
    assert(dot.len() == 3 && doh.len() == 3 && doq.len() == 3 && acme.len() == 10);
    assert(h2[1] != h3[1]);
    assert(h2c[0] != dot[0] && h2c[0] != doh[0] && h2c[0] != doq[0]);
    assert(dot[2] != doh[2] && dot[2] != doq[2] && doh[2] != doq[2]);
}

/// A protocol's name, in any mix of letter cases, reads back as that protocol: its
/// name is ASCII and already in lower case.
pub proof fn lemma_alpn_name_round_trip(a: Alpn)
    ensures
        all_ascii(alpn_name(a)),
        ascii_lower(alpn_name(a)) == alpn_name(a),
        alpn_from_name_spec(alpn_name(a)) == Some(a),
{
    reveal_strlit("http/1.1");
    reveal_strlit("h2");
    reveal_strlit("h2c");
    reveal_strlit("h3");
    reveal_strlit("dot");
    reveal_strlit("doh");
    reveal_strlit("doq");
    reveal_strlit("acme-tls/1");
    let n = alpn_name(a);
    assert(ascii_lower(n) =~= n);
    let h2 = alpn_name(Alpn::H2);
    let h2c = alpn_name(Alpn::H2c);
    let h3 = alpn_name(Alpn::H3);
    let dot = alpn_name(Alpn::Dot);
    let doh = alpn_name(Alpn::Doh);
    let doq = alpn_name(Alpn::Doq);
    assert(alpn_name(Alpn::Http11).len() == 8 && alpn_name(Alpn::AcmeTls1).len() == 10);
    assert(h2.len() == 2 && h3.len() == 2 && h2[1] != h3[1]);
    assert(h2c.len() == 3 && dot.len() == 3 && doh.len() == 3 && doq.len() == 3);
    assert(h2c[0] != dot[0] && h2c[0] != doh[0] && h2c[0] != doq[0]);
    assert(dot[2] != doh[2] && dot[2] != doq[2] && doh[2] != doq[2]);
}

} // verus!
