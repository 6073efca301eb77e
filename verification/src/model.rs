//! Views of optional and repeated text and byte values used in the contracts.
use vstd::prelude::*;

verus! {

broadcast use vstd::string::group_string_axioms;

pub open spec fn opt_bytes(o: Option<Vec<u8>>) -> Option<Seq<u8>> {
    match o {
        Some(v) => Some(v@),
        None => None,
    }
}

pub open spec fn opt_ref_text(o: Option<&String>) -> Option<Seq<char>> {
    match o {
        Some(v) => Some(v@),
        None => None,
    }
}

pub open spec fn opt_text(o: Option<String>) -> Option<Seq<char>> {
    match o {
        Some(v) => Some(v@),
        None => None,
    }
}

pub open spec fn text_seq(v: Seq<String>) -> Seq<Seq<char>> {
    v.map_values(|s: String| s@)
}

pub open spec fn opt_text_seq(o: Option<Vec<String>>) -> Option<Seq<Seq<char>>> {
    match o {
        Some(v) => Some(text_seq(v@)),
        None => None,
    }
}

pub open spec fn pair_seq(v: Seq<(String, String)>) -> Seq<(Seq<char>, Seq<char>)> {
    v.map_values(|p: (String, String)| (p.0@, p.1@))
}

pub open spec fn opt_pair_seq(o: Option<Vec<(String, String)>>) -> Option<
    Seq<(Seq<char>, Seq<char>)>,
> {
    match o {
        Some(v) => Some(pair_seq(v@)),
        None => None,
    }
}

/// The default headers after appending `(key, value)`.
pub open spec fn with_header(
    h: Option<Seq<(Seq<char>, Seq<char>)>>,
    key: Seq<char>,
    value: Seq<char>,
) -> Option<Seq<(Seq<char>, Seq<char>)>> {
    match h {
        None => Some(seq![(key, value)]),
        Some(s) => Some(s.push((key, value))),
    }
}

/// Appends a header to an optional list of headers.
pub fn push_header(headers: Option<Vec<(String, String)>>, key: &str, value: &str) -> (r: Option<
    Vec<(String, String)>,
>)
    ensures
        opt_pair_seq(r) == with_header(opt_pair_seq(headers), key@, value@),
{
    match headers {
        None => {
            let mut v: Vec<(String, String)> = Vec::new();
            v.push((key.to_string(), value.to_string()));
            assert(pair_seq(v@) =~= seq![(key@, value@)]);
            Some(v)
        },
        Some(v) => {
            let mut v = v;
            let ghost old_v = v@;
            v.push((key.to_string(), value.to_string()));
            assert(pair_seq(v@) =~= pair_seq(old_v).push((key@, value@)));
            Some(v)
        },
    }
}

} // verus!
