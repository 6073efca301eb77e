//! How a virtual host picks the path that serves a request, and which status page
//! answers a failed handler.
use vstd::prelude::*;

use radix_trie::Trie;

use crate::errors::{FileError, VetisError, VirtualHostError};
use crate::text::{starts_with, strip_prefix, strip_prefix_spec};

verus! {

broadcast use vstd::string::group_string_axioms;

#[verifier::external_type_specification]
#[verifier::external_body]
#[verifier::reject_recursive_types(K)]
#[verifier::reject_recursive_types(V)]
pub struct ExTrie<K, V>(Trie<K, V>);

/// The registered keys of a path trie, each with the URI of the path stored under it.
pub uninterp spec fn trie_entries(t: Trie<String, String>) -> Map<Seq<char>, Seq<char>>;

/// `k` is the longest registered key that begins `s`.
pub open spec fn is_longest_prefix_key(m: Map<Seq<char>, Seq<char>>, s: Seq<char>, k: Seq<char>) -> bool {
    &&& m.contains_key(k)
    &&& k.is_prefix_of(s)
    &&& forall|k2: Seq<char>| #[trigger] m.contains_key(k2) && k2.is_prefix_of(s) ==> k2.len() <= k.len()
}

/// What the trie answers for `s`: the value under the longest registered key that
/// begins `s`, or `None` when no registered key begins `s`.
pub open spec fn ancestor_value(m: Map<Seq<char>, Seq<char>>, s: Seq<char>) -> Option<Seq<char>> {
    if exists|k: Seq<char>| is_longest_prefix_key(m, s, k) {
        Some(m[choose|k: Seq<char>| is_longest_prefix_key(m, s, k)])
    } else {
        None
    }
}

/// Two prefixes of the same sequence with the same length are equal, so the longest
/// registered prefix is unique.
proof fn lemma_longest_prefix_unique(m: Map<Seq<char>, Seq<char>>, s: Seq<char>, k1: Seq<char>, k2: Seq<char>)
    requires
        is_longest_prefix_key(m, s, k1),
        is_longest_prefix_key(m, s, k2),
    ensures
        k1 == k2,
{
    assert(k1.len() == k2.len());
    assert(k1 =~= k2) by {
        assert forall|i: int| 0 <= i < k1.len() implies k1[i] == k2[i] by {
            assert(k1[i] == s.subrange(0, k1.len() as int)[i]);
            assert(k2[i] == s.subrange(0, k2.len() as int)[i]);
        }
    }
}

/// When some registered key begins `s`, a longest one exists.
pub proof fn lemma_longest_prefix_exists(m: Map<Seq<char>, Seq<char>>, s: Seq<char>, k: Seq<char>)
    requires
        m.contains_key(k),
        k.is_prefix_of(s),
    ensures
        exists|k2: Seq<char>| is_longest_prefix_key(m, s, k2),
    decreases s.len() - k.len(),
{
    if is_longest_prefix_key(m, s, k) {
    } else {
        let k2 = choose|k2: Seq<char>| #[trigger] m.contains_key(k2) && k2.is_prefix_of(s) && k2.len() > k.len();
        lemma_longest_prefix_exists(m, s, k2);
    }
}

/// The entries of a trie that holds nothing.
pub open spec fn no_entries() -> Map<Seq<char>, Seq<char>> {
    Map::empty()
}

/// An empty path trie (`Trie::new`).
#[verifier::external_body]
fn path_trie_new() -> (r: Trie<String, String>)
    ensures
        trie_entries(r) == no_entries(),
{
    Trie::new()
}

/// Registers `uri` under `key` (`Trie::insert`); a value already under `key` is replaced.
#[verifier::external_body]
fn path_trie_insert(t: Trie<String, String>, key: String, uri: String) -> (r: Trie<String, String>)
    ensures
        trie_entries(r) == trie_entries(t).insert(key@, uri@),
{
    let mut t = t;
    t.insert(key, uri);
    t
}

/// The value stored under the longest key that is a prefix of `path`
/// (`Trie::get_ancestor_value`). The trie compares UTF-8 bytes; for keys and paths that
/// are strings this is the same as comparing their characters.
#[verifier::external_body]
fn path_trie_ancestor(t: &Trie<String, String>, path: &str) -> (r: Option<String>)
    ensures
        opt_view(r) == ancestor_value(trie_entries(*t), path@),
{
    t.get_ancestor_value(path).cloned()
}

pub open spec fn opt_view(o: Option<String>) -> Option<Seq<char>> {
    match o {
        Some(s) => Some(s@),
        None => None,
    }
}

/// Where a request goes.
#[derive(Debug, Clone, PartialEq, Eq)]
pub enum Route {
    /// The path climbs out of the host's tree: answer with the 403 page.
    Forbidden,
    /// No registered path covers the request: answer with the 404 page.
    NotFound,
    /// Hand the request to the path registered as `path_uri`, with `target` the part of the
    /// request path below it.
    Dispatch { path_uri: String, target: String },
}

/// The abstract outcome of routing.
pub enum RouteView {
    Forbidden,
    NotFound,
    Dispatch { path_uri: Seq<char>, target: Seq<char> },
}

impl View for Route {
    type V = RouteView;

    open spec fn view(&self) -> RouteView {
        match self {
            Route::Forbidden => RouteView::Forbidden,
            Route::NotFound => RouteView::NotFound,
            Route::Dispatch { path_uri, target } => RouteView::Dispatch {
                path_uri: path_uri@,
                target: target@,
            },
        }
    }
}

/// Routing of `uri_path` once the trie has answered `matched`.
pub open spec fn route_spec(uri_path: Seq<char>, matched: Option<Seq<char>>) -> RouteView {
    if ".."@.is_prefix_of(uri_path) {
        RouteView::Forbidden
    } else {
        match matched {
            None => RouteView::NotFound,
            Some(p) => RouteView::Dispatch {
                path_uri: p,
                target: match strip_prefix_spec(uri_path, p) {
                    Some(rest) => rest,
                    None => uri_path,
                },
            },
        }
    }
}

/// Decides where a request for `uri_path` goes, given the URI of the path that the
/// trie found for it.
pub fn route_matched(uri_path: &str, matched: Option<String>) -> (r: Route)
    ensures
        r@ == route_spec(uri_path@, opt_view(matched)),
{
    proof {
        reveal_strlit("..");
    }
    if starts_with(uri_path, "..") {
        return Route::Forbidden;
    }
    match matched {
        None => Route::NotFound,
        Some(path_uri) => {
            let target = match strip_prefix(uri_path, path_uri.as_str()) {
                Some(rest) => rest.to_string(),
                None => uri_path.to_string(),
            };
            Route::Dispatch { path_uri, target }
        },
    }
}

/// The URIs of the paths a virtual host serves, in a trie keyed by URI.
pub struct PathTable {
    trie: Trie<String, String>,
}

impl View for PathTable {
    type V = Map<Seq<char>, Seq<char>>;

    /// Each registered URI, mapped to itself.
    closed spec fn view(&self) -> Map<Seq<char>, Seq<char>> {
        trie_entries(self.trie)
    }
}

impl PathTable {
    /// A table with no path.
    pub fn new() -> (r: PathTable)
        ensures
            r@ == no_entries(),
    {
        PathTable { trie: path_trie_new() }
    }

    /// Registers the path served under `uri`; registering a URI again keeps one entry.
    pub fn add_path(&mut self, uri: &str)
        ensures
            final(self)@ == old(self)@.insert(uri@, uri@),
    {
        let mut t = path_trie_new();
        std::mem::swap(&mut t, &mut self.trie);
        self.trie = path_trie_insert(t, uri.to_string(), uri.to_string());
    }

    /// Routes a request for `uri_path` over the registered paths.
    pub fn route(&self, uri_path: &str) -> (r: Route)
        ensures
            r@ == route_spec(uri_path@, ancestor_value(self@, uri_path@)),
    {
        let matched = path_trie_ancestor(&self.trie, uri_path);
        route_matched(uri_path, matched)
    }
}

/// A request whose path begins with a registered key, and does not climb out of the
/// host's tree, is dispatched to the path registered under the longest such key.
pub proof fn lemma_covered_request_dispatched(m: Map<Seq<char>, Seq<char>>, s: Seq<char>, k: Seq<char>)
    requires
        m.contains_key(k),
        k.is_prefix_of(s),
        !".."@.is_prefix_of(s),
    ensures
        route_spec(s, ancestor_value(m, s)) matches RouteView::Dispatch { path_uri, .. }
            && exists|k2: Seq<char>| is_longest_prefix_key(m, s, k2) && m[k2] == path_uri,
{
    lemma_longest_prefix_exists(m, s, k);
}

/// A request whose path begins with no registered key, and does not climb out of the
/// host's tree, is answered with the 404 page.
pub proof fn lemma_uncovered_request_not_found(m: Map<Seq<char>, Seq<char>>, s: Seq<char>)
    requires
        forall|k: Seq<char>| #[trigger] m.contains_key(k) ==> !k.is_prefix_of(s),
        !".."@.is_prefix_of(s),
    ensures
        route_spec(s, ancestor_value(m, s)) is NotFound,
{
}

/// When the matched path's URI begins the request path, the URI followed by the
/// dispatched target gives back the request path.
pub proof fn lemma_dispatch_target_rebuilds_path(s: Seq<char>, p: Seq<char>)
    requires
        !".."@.is_prefix_of(s),
        p.is_prefix_of(s),
    ensures
        route_spec(s, Some(p)) matches RouteView::Dispatch { path_uri, target } && path_uri + target
            == s,
{
    assert(p + s.skip(p.len() as int) =~= s);
}

/// A request whose path begins with `..` is refused, whatever paths are registered.
pub proof fn lemma_parent_path_forbidden(m: Map<Seq<char>, Seq<char>>, s: Seq<char>)
    requires
        ".."@.is_prefix_of(s),
    ensures
        route_spec(s, ancestor_value(m, s)) is Forbidden,
{
}

/// Once `uri` is registered under `key`, a request whose path begins with `key`, and
/// with no longer registered key that begins it, is served by `uri`.
pub proof fn lemma_registered_path_serves(
    m: Map<Seq<char>, Seq<char>>,
    key: Seq<char>,
    uri: Seq<char>,
    s: Seq<char>,
)
    requires
        key.is_prefix_of(s),
        forall|k2: Seq<char>| #[trigger] m.contains_key(k2) && k2.is_prefix_of(s) ==> k2.len() <= key.len(),
    ensures
        ancestor_value(m.insert(key, uri), s) == Some(uri),
{
    let m2 = m.insert(key, uri);
    assert(is_longest_prefix_key(m2, s, key));
    let k = choose|k: Seq<char>| is_longest_prefix_key(m2, s, k);
    lemma_longest_prefix_unique(m2, s, k, key);
}

/// Registering a path never leaves a request that was served unserved.
pub proof fn lemma_register_keeps_coverage(
    m: Map<Seq<char>, Seq<char>>,
    key: Seq<char>,
    uri: Seq<char>,
    s: Seq<char>,
)
    requires
        ancestor_value(m, s) is Some,
    ensures
        ancestor_value(m.insert(key, uri), s) is Some,
{
    let k = choose|k: Seq<char>| is_longest_prefix_key(m, s, k);
    lemma_longest_prefix_exists(m.insert(key, uri), s, k);
}

/// The status code whose page answers a handler failure, or `None` when the failure is
/// passed on to the caller.
pub open spec fn error_status_spec(e: VetisError) -> Option<u16> {
    match e {
        VetisError::VirtualHost(VirtualHostError::File(FileError::NotFound)) => Some(404),
        VetisError::VirtualHost(VirtualHostError::Proxy(_)) => Some(502),
        VetisError::VirtualHost(VirtualHostError::Auth(_)) => Some(401),
        _ => None,
    }
}

/// Maps a handler failure to the status page that answers it: a missing file to 404,
/// a proxy failure to 502 and a refused authentication to 401.
pub fn error_status(e: &VetisError) -> (r: Option<u16>)
    ensures
        r == error_status_spec(*e),
{
    match e {
        VetisError::VirtualHost(VirtualHostError::File(FileError::NotFound)) => Some(404),
        VetisError::VirtualHost(VirtualHostError::Proxy(_)) => Some(502),
        VetisError::VirtualHost(VirtualHostError::Auth(_)) => Some(401),
        _ => None,
    }
}

} // verus!
