//! Basic authentication: the user table, the password-hash algorithm, and the check of an
//! `Authorization` header against them.
use vstd::prelude::*;

use std::collections::HashMap;

use argon2::{PasswordHash, PasswordVerifier};
use base64::Engine;

use crate::errors::{ConfigError, VetisError, VirtualHostError};
use crate::model::opt_text;
use crate::std_types::file_exists;
use crate::text::{split_once, split_once_spec};

verus! {

broadcast use vstd::string::group_string_axioms;

/// How the stored passwords are hashed.
#[derive(Clone, Copy, Debug, PartialEq, Eq, Structural)]
pub enum Algorithm {
    BCrypt,
    Argon2,
}

/// Abstract content of a basic-authentication configuration.
pub struct BasicAuthView {
    pub users: Map<Seq<char>, Seq<char>>,
    pub algorithm: Algorithm,
    pub htpasswd: Option<Seq<char>>,
}

/// The user table as a map from user name to password hash.
pub open spec fn users_view(m: HashMap<String, String>) -> Map<Seq<char>, Seq<char>> {
    m.deep_view()
}

/// Looks a user up (`HashMap::get`): the stored hash for the user whose name has the
/// characters of `name`.
#[verifier::external_body]
fn users_get<'a>(m: &'a HashMap<String, String>, name: &str) -> (r: Option<&'a String>)
    ensures
        match r {
            Some(v) => users_view(*m).contains_key(name@) && users_view(*m)[name@] == v@,
            None => !users_view(*m).contains_key(name@),
        },
{
    m.get(name)
}

/// Adds or replaces a user (`HashMap::insert`).
#[verifier::external_body]
fn users_insert(m: HashMap<String, String>, name: String, hash: String) -> (r: HashMap<String, String>)
    ensures
        users_view(r) == users_view(m).insert(name@, hash@),
{
    let mut m = m;
    m.insert(name, hash);
    m
}

/// A user table with nobody in it.
pub open spec fn no_users() -> Map<Seq<char>, Seq<char>> {
    Map::empty()
}

/// An empty user table (`HashMap::new`).
#[verifier::external_body]
fn users_new() -> (r: HashMap<String, String>)
    ensures
        users_view(r) == no_users(),
{
    HashMap::new()
}

/// What standard base64 decoding makes of `input`: the bytes, or the text of the error.
pub uninterp spec fn base64_decode_result(input: Seq<u8>) -> Result<Seq<u8>, Seq<char>>;

/// Decodes standard base64 (`base64::engine::general_purpose::STANDARD.decode`).
#[verifier::external_body]
fn base64_decode(input: &[u8]) -> (r: Result<Vec<u8>, String>)
    ensures
        match (r, base64_decode_result(input@)) {
            (Ok(v), Ok(w)) => v@ == w,
            (Err(e), Err(f)) => e@ == f,
            _ => false,
        },
{
    match base64::engine::general_purpose::STANDARD.decode(input) {
        Ok(v) => Ok(v),
        Err(e) => Err(e.to_string()),
    }
}

/// Decodes UTF-8 (`String::from_utf8`): succeeds exactly on valid UTF-8.
#[verifier::external_body]
fn utf8_string(bytes: Vec<u8>) -> (r: Option<String>)
    ensures
        r is Some <==> vstd::utf8::valid_utf8(bytes@),
        r matches Some(s) ==> s@ == vstd::utf8::decode_utf8(bytes@),
{
    String::from_utf8(bytes).ok()
}

/// What `bcrypt::verify` answers for a password and a stored hash: whether they match,
/// or `None` when the hash cannot be read.
pub uninterp spec fn bcrypt_verify_result(password: Seq<char>, hash: Seq<char>) -> Option<bool>;

/// Checks a password against a bcrypt hash (`bcrypt::verify`).
#[verifier::external_body]
fn bcrypt_verify(password: &str, hash: &str) -> (r: Option<bool>)
    ensures
        r == bcrypt_verify_result(password@, hash@),
{
    bcrypt::verify(password, hash).ok()
}

/// Whether a stored hash is a PHC string that argon2 can read (`PasswordHash::new`).
pub uninterp spec fn argon2_hash_parses(hash: Seq<char>) -> bool;

/// Tests whether `hash` is a readable PHC string (`PasswordHash::new`).
#[verifier::external_body]
fn argon2_parse_ok(hash: &str) -> (r: bool)
    ensures
        r == argon2_hash_parses(hash@),
{
    PasswordHash::new(hash).is_ok()
}

/// Whether argon2 with default parameters accepts `password` for the readable hash `hash`.
pub uninterp spec fn argon2_accepts(password: Seq<char>, hash: Seq<char>) -> bool;

/// Checks a password against an argon2 hash (`Argon2::default().verify_password`); the
/// hash must be readable, as `PasswordHash::new(..).unwrap()` panics otherwise.
#[verifier::external_body]
fn argon2_verify(password: &str, hash: &str) -> (r: bool)
    requires
        argon2_hash_parses(hash@),
    ensures
        r == argon2_accepts(password@, hash@),
{
    let parsed = PasswordHash::new(hash).unwrap();
    argon2::Argon2::default().verify_password(password.as_bytes(), &parsed).is_ok()
}

/// Whether a stored hash can be checked without failing: an argon2 hash must be readable.
pub open spec fn hash_checkable(hash: Seq<char>, algorithm: Algorithm) -> bool {
    algorithm == Algorithm::Argon2 ==> argon2_hash_parses(hash)
}

/// Whether `password` matches the stored `hash` under `algorithm`; a bcrypt hash that
/// cannot be read matches nothing.
pub open spec fn password_matches(password: Seq<char>, hash: Seq<char>, algorithm: Algorithm) -> bool {
    match algorithm {
        Algorithm::BCrypt => bcrypt_verify_result(password, hash) == Some(true),
        Algorithm::Argon2 => argon2_accepts(password, hash),
    }
}

/// Checks a password against a stored hash.
pub fn verify_password(password: &str, hashed_password: &str, algorithm: &Algorithm) -> (r: bool)
    requires
        hash_checkable(hashed_password@, *algorithm),
    ensures
        r == password_matches(password@, hashed_password@, *algorithm),
{
    match algorithm {
        Algorithm::BCrypt => match bcrypt_verify(password, hashed_password) {
            Some(b) => b,
            None => false,
        },
        Algorithm::Argon2 => argon2_verify(password, hashed_password),
    }
}

/// `HeaderValue::to_str` accepts a byte when it is visible ASCII or a tab.
pub open spec fn visible_ascii(b: u8) -> bool {
    (32 <= b && b < 127) || b == 9
}

/// The characters of a header value made only of visible ASCII bytes.
pub open spec fn ascii_chars(bytes: Seq<u8>) -> Seq<char> {
    bytes.map_values(|b: u8| b as char)
}

/// The text after `Basic ` in an `Authorization` header, or why there is none.
pub open spec fn basic_payload(header: Option<Seq<u8>>) -> Result<Seq<u8>, Seq<char>> {
    match header {
        None => Err("Missing Authorization header"@),
        Some(h) => if !(forall|i: int| 0 <= i < h.len() ==> visible_ascii(#[trigger] h[i])) {
            Err("Invalid Authorization header"@)
        } else if !"Basic "@.is_prefix_of(ascii_chars(h)) {
            Err("Expected basic authentication"@)
        } else {
            Ok(h.skip(6))
        },
    }
}

/// The user name and password that an `Authorization` header carries, or the message of
/// the `Auth` error it is refused with.
pub open spec fn header_credentials(header: Option<Seq<u8>>) -> Result<(Seq<char>, Seq<char>), Seq<char>> {
    match basic_payload(header) {
        Err(m) => Err(m),
        Ok(payload) => match base64_decode_result(payload) {
            Err(e) => Err("Could not decode header: "@ + e),
            Ok(bytes) => if !vstd::utf8::valid_utf8(bytes) {
                Err("Invalid Authorization header"@)
            } else {
                match split_once_spec(vstd::utf8::decode_utf8(bytes), ':') {
                    None => Err("Invalid credentials"@),
                    Some((user, password)) => Ok((user, password)),
                }
            },
        },
    }
}

/// What checking an `Authorization` header against `users` gives: `Ok(true)` when the
/// user exists and the password matches its hash, `Ok(false)` for an unknown user or a
/// wrong password, and an `Auth` error with a message for a malformed header.
pub open spec fn authenticate_spec(
    users: Map<Seq<char>, Seq<char>>,
    algorithm: Algorithm,
    header: Option<Seq<u8>>,
) -> Result<bool, Seq<char>> {
    match header_credentials(header) {
        Err(m) => Err(m),
        Ok((user, password)) => if users.contains_key(user) {
            Ok(password_matches(password, users[user], algorithm))
        } else {
            Ok(false)
        },
    }
}

/// Whether checking the header can proceed without failing: the hash of the user it
/// names must be checkable.
pub open spec fn authenticate_ready(
    users: Map<Seq<char>, Seq<char>>,
    algorithm: Algorithm,
    header: Option<Seq<u8>>,
) -> bool {
    match header_credentials(header) {
        Ok((user, _)) => users.contains_key(user) ==> hash_checkable(users[user], algorithm),
        Err(_) => true,
    }
}

pub open spec fn opt_slice(o: Option<&[u8]>) -> Option<Seq<u8>> {
    match o {
        Some(s) => Some(s@),
        None => None,
    }
}

/// The result of an authentication check, with errors carrying their message.
pub open spec fn auth_result_view(r: Result<bool, VetisError>) -> Result<bool, Seq<char>> {
    match r {
        Ok(b) => Ok(b),
        Err(VetisError::VirtualHost(VirtualHostError::Auth(m))) => Err(m@),
        Err(_) => Err(Seq::empty()),
    }
}

fn auth_error(msg: String) -> (e: VetisError)
    ensures
        e == VetisError::VirtualHost(VirtualHostError::Auth(msg)),
{
    VetisError::VirtualHost(VirtualHostError::Auth(msg))
}

/// Whether every byte of `h` is visible ASCII.
fn all_visible_ascii(h: &[u8]) -> (r: bool)
    ensures
        r == (forall|i: int| 0 <= i < h@.len() ==> visible_ascii(#[trigger] h@[i])),
{
    let mut i: usize = 0;
    while i < h.len()
        invariant
            i <= h@.len(),
            forall|j: int| 0 <= j < i ==> visible_ascii(#[trigger] h@[j]),
        decreases h@.len() - i,
    {
        let b = h[i];
        if !((32 <= b && b < 127) || b == 9) {
            assert(!visible_ascii(h@[i as int]));
            return false;
        }
        i = i + 1;
    }
    true
}

/// The bytes after `Basic ` in a header value, or the refusal.
fn payload_of(header: Option<&[u8]>) -> (r: Result<Vec<u8>, VetisError>)
    ensures
        match (r, basic_payload(opt_slice(header))) {
            (Ok(v), Ok(p)) => v@ == p,
            (Err(e), Err(m)) => e matches VetisError::VirtualHost(VirtualHostError::Auth(msg))
                && msg@ == m,
            _ => false,
        },
{
    proof {
        reveal_strlit("Basic ");
        reveal_strlit("Missing Authorization header");
        reveal_strlit("Invalid Authorization header");
        reveal_strlit("Expected basic authentication");
    }
    let h = match header {
        None => return Err(auth_error("Missing Authorization header".to_string())),
        Some(h) => h,
    };
    if !all_visible_ascii(h) {
        return Err(auth_error("Invalid Authorization header".to_string()));
    }
    let prefix: [u8; 6] = [66, 97, 115, 105, 99, 32];
    let ghost hc = ascii_chars(h@);
    let mut ok = h.len() >= 6;
    let mut i: usize = 0;
    if ok {
        while i < 6
            invariant
                h@.len() >= 6,
                i <= 6,
                hc == ascii_chars(h@),
                ok == (forall|j: int| 0 <= j < i ==> h@[j] == prefix@[j]),
                prefix@ == seq![66u8, 97u8, 115u8, 105u8, 99u8, 32u8],
            decreases 6 - i,
        {
            ok = ok && h[i] == prefix[i];
            i = i + 1;
        }
    }
    let ghost basic = "Basic "@;
    assert(basic == seq!['B', 'a', 's', 'i', 'c', ' ']);
    if !ok {
        proof {
            if h@.len() >= 6 {
                let j = choose|j: int| 0 <= j < 6 && h@[j] != prefix@[j];
                assert(hc[j] == h@[j] as char);
                assert(hc.subrange(0, 6)[j] == hc[j]);
            }
        }
        return Err(auth_error("Expected basic authentication".to_string()));
    }
    assert(basic =~= hc.subrange(0, 6)) by {
        assert forall|j: int| 0 <= j < 6 implies basic[j] == hc.subrange(0, 6)[j] by {
            assert(h@[j] == prefix@[j]);
        }
    }
    let mut payload: Vec<u8> = Vec::new();
    let mut k: usize = 6;
    while k < h.len()
        invariant
            6 <= k <= h@.len(),
            payload@ =~= h@.subrange(6, k as int),
        decreases h@.len() - k,
    {
        payload.push(h[k]);
        k = k + 1;
    }
    Ok(payload)
}

/// Splits a decoded `user:password` text.
fn credentials_of(header: Option<&[u8]>) -> (r: Result<(String, String), VetisError>)
    ensures
        match (r, header_credentials(opt_slice(header))) {
            (Ok((u, p)), Ok((su, sp))) => u@ == su && p@ == sp,
            (Err(e), Err(m)) => e matches VetisError::VirtualHost(VirtualHostError::Auth(msg))
                && msg@ == m,
            _ => false,
        },
{
    proof {
        reveal_strlit("Could not decode header: ");
        reveal_strlit("Invalid Authorization header");
        reveal_strlit("Invalid credentials");
    }
    let payload = payload_of(header)?;
    let bytes = match base64_decode(payload.as_slice()) {
        Ok(b) => b,
        Err(e) => {
            let mut msg = "Could not decode header: ".to_string();
            msg.append(e.as_str());
            return Err(auth_error(msg));
        },
    };
    let text = match utf8_string(bytes) {
        Some(t) => t,
        None => return Err(auth_error("Invalid Authorization header".to_string())),
    };
    match split_once(text.as_str(), ':') {
        None => Err(auth_error("Invalid credentials".to_string())),
        Some((u, p)) => Ok((u.to_string(), p.to_string())),
    }
}

/// Checks the credentials of an `Authorization` header.
pub trait AuthConfig {
    /// Whether the check of `authorization` can run without failing.
    spec fn can_authenticate(&self, authorization: Option<Seq<u8>>) -> bool;

    /// The outcome of the check, with errors carrying their message.
    spec fn authenticate_outcome(&self, authorization: Option<Seq<u8>>) -> Result<bool, Seq<char>>;

    /// Checks the value of the `Authorization` header (`None` when the request has none).
    fn authenticate(&self, authorization: Option<&[u8]>) -> (r: Result<bool, VetisError>)
        requires
            self.can_authenticate(opt_slice(authorization)),
        ensures
            auth_result_view(r) == self.authenticate_outcome(opt_slice(authorization)),
            r is Err ==> r matches Err(VetisError::VirtualHost(VirtualHostError::Auth(_))),
    ;
}

/// The authentication schemes a path can demand.
#[derive(Clone)]
pub enum Auth {
    Basic(BasicAuthConfig),
}

impl AuthConfig for Auth {
    open spec fn can_authenticate(&self, authorization: Option<Seq<u8>>) -> bool {
        match self {
            Auth::Basic(c) => c.can_authenticate(authorization),
        }
    }

    open spec fn authenticate_outcome(&self, authorization: Option<Seq<u8>>) -> Result<bool, Seq<char>> {
        match self {
            Auth::Basic(c) => c.authenticate_outcome(authorization),
        }
    }

    fn authenticate(&self, authorization: Option<&[u8]>) -> (r: Result<bool, VetisError>) {
        match self {
            Auth::Basic(c) => c.authenticate(authorization),
        }
    }
}

/// Collects the settings of basic authentication.
pub struct BasicAuthConfigBuilder {
    users: HashMap<String, String>,
    algorithm: Algorithm,
    htpasswd: Option<String>,
}

impl View for BasicAuthConfigBuilder {
    type V = BasicAuthView;

    closed spec fn view(&self) -> BasicAuthView {
        BasicAuthView {
            users: users_view(self.users),
            algorithm: self.algorithm,
            htpasswd: opt_text(self.htpasswd),
        }
    }
}

impl BasicAuthConfigBuilder {
    /// Replaces the user table.
    pub fn users(self, users: HashMap<String, String>) -> (r: Self)
        ensures
            r@ == (BasicAuthView { users: users_view(users), ..self@ }),
    {
        BasicAuthConfigBuilder { users, ..self }
    }

    pub fn algorithm(self, algorithm: Algorithm) -> (r: Self)
        ensures
            r@ == (BasicAuthView { algorithm, ..self@ }),
    {
        BasicAuthConfigBuilder { algorithm, ..self }
    }

    /// Names the `.htpasswd` file whose users the configuration takes.
    pub fn htpasswd(self, htpasswd: &str) -> (r: Self)
        ensures
            r@ == (BasicAuthView { htpasswd: Some(htpasswd@), ..self@ }),
    {
        BasicAuthConfigBuilder { htpasswd: Some(htpasswd.to_string()), ..self }
    }

    /// The `.htpasswd` file named so far, whose entries `add_users` takes once it is read.
    pub fn htpasswd_file(&self) -> (r: &Option<String>)
        ensures
            opt_text(*r) == self@.htpasswd,
    {
        &self.htpasswd
    }

    /// Adds the entries of a `.htpasswd` file's content to the user table; a later entry
    /// for the same user replaces an earlier one.
    pub fn add_users(self, entries: Vec<(String, String)>) -> (r: Self)
        ensures
            r@.algorithm == self@.algorithm,
            r@.htpasswd == self@.htpasswd,
            r@.users == insert_all(self@.users, crate::model::pair_seq(entries@)),
    {
        let mut users = self.users;
        let mut i: usize = 0;
        while i < entries.len()
            invariant
                i <= entries@.len(),
                users_view(users) == insert_all(
                    users_view(self.users),
                    crate::model::pair_seq(entries@).take(i as int),
                ),
            decreases entries@.len() - i,
        {
            let name = entries[i].0.clone();
            let hash = entries[i].1.clone();
            proof {
                assert(crate::model::pair_seq(entries@).take(i + 1).drop_last() =~= crate::model::pair_seq(
                    entries@,
                ).take(i as int));
            }
            users = users_insert(users, name, hash);
            i = i + 1;
        }
        assert(crate::model::pair_seq(entries@).take(entries@.len() as int) =~= crate::model::pair_seq(
            entries@,
        ));
        BasicAuthConfigBuilder { users, algorithm: self.algorithm, htpasswd: self.htpasswd }
    }

    /// Builds the configuration once it is known whether the named `.htpasswd` file exists.
    pub fn build_checked(self, htpasswd_found: bool) -> (r: Result<BasicAuthConfig, VetisError>)
        ensures
            self@.htpasswd is Some && !htpasswd_found ==> (r matches Err(
                VetisError::Config(ConfigError::Auth(m)),
            ) && m@ == ".htpasswd file not found"@),
            self@.htpasswd is None || htpasswd_found ==> (r matches Ok(c) && c@ == self@),
    {
        if self.htpasswd.is_some() && !htpasswd_found {
            return Err(VetisError::Config(ConfigError::Auth(".htpasswd file not found".to_string())));
        }
        Ok(BasicAuthConfig { users: self.users, algorithm: self.algorithm, htpasswd: self.htpasswd })
    }

    /// Builds the configuration; a named `.htpasswd` file must exist.
    pub fn build(self) -> (r: Result<BasicAuthConfig, VetisError>)
        ensures
            self@.htpasswd is None ==> (r matches Ok(c) && c@ == self@),
            r matches Ok(c) ==> c@ == self@,
            r is Err ==> self@.htpasswd is Some && (r matches Err(
                VetisError::Config(ConfigError::Auth(m)),
            ) && m@ == ".htpasswd file not found"@),
    {
        let found = match &self.htpasswd {
            Some(p) => file_exists(p.as_str()),
            None => true,
        };
        self.build_checked(found)
    }
}

/// A line without its trailing carriage return, as `str::lines` gives it.
pub open spec fn strip_cr(line: Seq<char>) -> Seq<char> {
    if line.len() > 0 && line.last() == '\r' {
        line.drop_last()
    } else {
        line
    }
}

/// The entry of one `.htpasswd` line: `user:hash`; a line without `:` gives none.
pub open spec fn line_entry(line: Seq<char>) -> Seq<(Seq<char>, Seq<char>)> {
    match split_once_spec(line, ':') {
        Some((user, hash)) => seq![(user, hash)],
        None => Seq::empty(),
    }
}

/// The entries of a `.htpasswd` file, one per line (lines as `str::lines` splits them: a
/// `\r` is dropped only before a `\n`, so a final line without `\n` keeps it).
pub open spec fn htpasswd_entries(s: Seq<char>) -> Seq<(Seq<char>, Seq<char>)>
    decreases s.len(),
{
    if s.len() == 0 {
        Seq::empty()
    } else {
        match crate::text::first_index_of(s, '\n') {
            Some(i) => if 0 <= i < s.len() {
                line_entry(strip_cr(s.take(i))) + htpasswd_entries(s.skip(i + 1))
            } else {
                Seq::empty()
            },
            None => line_entry(s),
        }
    }
}

/// `s` holds no `c`.
pub open spec fn lacks_char(s: Seq<char>, c: char) -> bool {
    forall|k: int| 0 <= k < s.len() ==> s[k] != c
}

proof fn lemma_line_entry_user(line: Seq<char>)
    requires
        lacks_char(line, '\n'),
    ensures
        forall|j: int| 0 <= j < line_entry(line).len() ==> lacks_char(#[trigger] line_entry(line)[j].0, ':')
            && lacks_char(line_entry(line)[j].0, '\n'),
{
    crate::text::lemma_split_once_parts(line, ':');
}

/// The user names read from a `.htpasswd` file hold neither `:` nor a line break: a line
/// gives at most one entry, split at its first `:`.
pub proof fn lemma_htpasswd_user_names(s: Seq<char>)
    ensures
        forall|j: int| 0 <= j < htpasswd_entries(s).len() ==> lacks_char(#[trigger] htpasswd_entries(s)[j].0, ':')
            && lacks_char(htpasswd_entries(s)[j].0, '\n'),
    decreases s.len(),
{
    if s.len() > 0 {
        crate::text::lemma_split_once_parts(s, '\n');
        match crate::text::first_index_of(s, '\n') {
            Some(i) => {
                let line = strip_cr(s.take(i));
                assert(lacks_char(line, '\n'));
                lemma_line_entry_user(line);
                lemma_htpasswd_user_names(s.skip(i + 1));
                let a = line_entry(line);
                let b = htpasswd_entries(s.skip(i + 1));
                assert forall|j: int| 0 <= j < (a + b).len() implies lacks_char(#[trigger] (a + b)[j].0, ':')
                    && lacks_char((a + b)[j].0, '\n') by {
                    if j < a.len() {
                        assert((a + b)[j] == a[j]);
                    } else {
                        assert((a + b)[j] == b[j - a.len()]);
                    }
                }
            },
            None => {
                assert(lacks_char(s, '\n'));
                lemma_line_entry_user(s);
            },
        }
    }
}

/// One `.htpasswd` line, without its trailing carriage return, read as an entry.
fn parse_line(line: &str) -> (r: Option<(String, String)>)
    ensures
        match r {
            Some((u, h)) => line_entry(strip_cr(line@)) == seq![(u@, h@)],
            None => line_entry(strip_cr(line@)) == Seq::<(Seq<char>, Seq<char>)>::empty(),
        },
{
    let n = line.unicode_len();
    let body = if n > 0 && line.get_char(n - 1) == '\r' {
        line.substring_char(0, n - 1)
    } else {
        line
    };
    assert(body@ =~= strip_cr(line@));
    match split_once(body, ':') {
        Some((u, h)) => Some((u.to_string(), h.to_string())),
        None => None,
    }
}

/// The entries of a `.htpasswd` file's content, in order: one per line that holds a `:`,
/// split at its first `:` into user name and password hash.
pub fn parse_htpasswd(content: &str) -> (r: Vec<(String, String)>)
    ensures
        crate::model::pair_seq(r@) == htpasswd_entries(content@),
{
    let mut r: Vec<(String, String)> = Vec::new();
    let mut rest: &str = content;
    loop
        invariant
            htpasswd_entries(content@) == crate::model::pair_seq(r@) + htpasswd_entries(rest@),
        decreases rest@.len(),
    {
        let ghost before = r@;
        match split_once(rest, '\n') {
            Some((line, tail)) => {
                proof {
                    crate::text::lemma_split_once_parts(rest@, '\n');
                }
                let ghost i = line@.len() as int;
                assert(line@ =~= rest@.take(i));
                assert(tail@ =~= rest@.skip(i + 1));
                match parse_line(line) {
                    Some(e) => {
                        r.push(e);
                    },
                    None => {},
                }
                assert(crate::model::pair_seq(r@) =~= crate::model::pair_seq(before) + line_entry(
                    strip_cr(line@),
                ));
                rest = tail;
            },
            None => {
                proof {
                    crate::text::lemma_split_once_parts(rest@, '\n');
                }
                if rest.unicode_len() > 0 {
                    proof {
                        crate::text::lemma_split_once_parts(rest@, ':');
                    }
                    match split_once(rest, ':') {
                        Some((u, h)) => {
                            r.push((u.to_string(), h.to_string()));
                        },
                        None => {},
                    }
                    assert(crate::model::pair_seq(r@) =~= crate::model::pair_seq(before)
                        + line_entry(rest@));
                } else {
                    assert(crate::model::pair_seq(r@) =~= crate::model::pair_seq(before));
                }
                assert(crate::model::pair_seq(r@) =~= crate::model::pair_seq(r@) + Seq::empty());
                return r;
            },
        }
    }
}

/// The user table after adding `entries` in order.
pub open spec fn insert_all(
    users: Map<Seq<char>, Seq<char>>,
    entries: Seq<(Seq<char>, Seq<char>)>,
) -> Map<Seq<char>, Seq<char>>
    decreases entries.len(),
{
    if entries.len() == 0 {
        users
    } else {
        insert_all(users, entries.drop_last()).insert(entries.last().0, entries.last().1)
    }
}

/// After adding `entries` to a user table, a user named by an entry holds the hash of
/// the last entry that names it.
pub proof fn lemma_insert_all_last_entry_wins(
    users: Map<Seq<char>, Seq<char>>,
    entries: Seq<(Seq<char>, Seq<char>)>,
    i: int,
)
    requires
        0 <= i < entries.len(),
        forall|j: int| i < j < entries.len() ==> (#[trigger] entries[j]).0 != entries[i].0,
    ensures
        insert_all(users, entries).contains_key(entries[i].0),
        insert_all(users, entries)[entries[i].0] == entries[i].1,
    decreases entries.len(),
{
    if i < entries.len() - 1 {
        let init = entries.drop_last();
        assert forall|j: int| i < j < init.len() implies (#[trigger] init[j]).0 != init[i].0 by {
            assert(init[j] == entries[j]);
        }
        lemma_insert_all_last_entry_wins(users, init, i);
        assert(entries.last() == entries[entries.len() - 1]);
    }
}

/// Adding entries that name none of them leaves a user's presence and hash as they were.
pub proof fn lemma_insert_all_keeps_other_users(
    users: Map<Seq<char>, Seq<char>>,
    entries: Seq<(Seq<char>, Seq<char>)>,
    user: Seq<char>,
)
    requires
        forall|j: int| 0 <= j < entries.len() ==> (#[trigger] entries[j]).0 != user,
    ensures
        insert_all(users, entries).contains_key(user) == users.contains_key(user),
        users.contains_key(user) ==> insert_all(users, entries)[user] == users[user],
    decreases entries.len(),
{
    if entries.len() > 0 {
        let init = entries.drop_last();
        assert forall|j: int| 0 <= j < init.len() implies (#[trigger] init[j]).0 != user by {
            assert(init[j] == entries[j]);
        }
        lemma_insert_all_keeps_other_users(users, init, user);
        assert(entries.last() == entries[entries.len() - 1]);
    }
}

/// Basic-authentication settings of a path.
#[derive(Clone)]
pub struct BasicAuthConfig {
    users: HashMap<String, String>,
    algorithm: Algorithm,
    htpasswd: Option<String>,
}

impl View for BasicAuthConfig {
    type V = BasicAuthView;

    closed spec fn view(&self) -> BasicAuthView {
        BasicAuthView {
            users: users_view(self.users),
            algorithm: self.algorithm,
            htpasswd: opt_text(self.htpasswd),
        }
    }
}

impl BasicAuthConfig {
    /// A builder with no users, bcrypt hashes and no `.htpasswd` file.
    pub fn builder() -> (r: BasicAuthConfigBuilder)
        ensures
            r@ == (BasicAuthView {
                users: Map::empty(),
                algorithm: Algorithm::BCrypt,
                htpasswd: None,
            }),
    {
        BasicAuthConfigBuilder { users: users_new(), algorithm: Algorithm::BCrypt, htpasswd: None }
    }

    pub fn users(&self) -> (r: &HashMap<String, String>)
        ensures
            users_view(*r) == self@.users,
    {
        &self.users
    }

    pub fn algorithm(&self) -> (r: &Algorithm)
        ensures
            *r == self@.algorithm,
    {
        &self.algorithm
    }

    pub fn htpasswd(&self) -> (r: &Option<String>)
        ensures
            opt_text(*r) == self@.htpasswd,
    {
        &self.htpasswd
    }

    /// Checks an `Authorization` header when the check cannot fail, and says `None`
    /// when the named user's argon2 hash cannot be read.
    pub fn try_authenticate(&self, authorization: Option<&[u8]>) -> (r: Option<Result<bool, VetisError>>)
        ensures
            r is None <==> !authenticate_ready(self@.users, self@.algorithm, opt_slice(authorization)),
            r matches Some(res) ==> auth_result_view(res) == authenticate_spec(
                self@.users,
                self@.algorithm,
                opt_slice(authorization),
            ),
            r matches Some(Err(e)) ==> e is VirtualHost && (e matches VetisError::VirtualHost(
                VirtualHostError::Auth(_),
            )),
    {
        let (user, password) = match credentials_of(authorization) {
            Err(e) => return Some(Err(e)),
            Ok(c) => c,
        };
        match users_get(&self.users, user.as_str()) {
            None => Some(Ok(false)),
            Some(hash) => {
                let checkable = match self.algorithm {
                    Algorithm::Argon2 => argon2_parse_ok(hash.as_str()),
                    Algorithm::BCrypt => true,
                };
                if !checkable {
                    return None;
                }
                Some(Ok(verify_password(password.as_str(), hash.as_str(), &self.algorithm)))
            },
        }
    }
}

impl AuthConfig for BasicAuthConfig {
    open spec fn can_authenticate(&self, authorization: Option<Seq<u8>>) -> bool {
        authenticate_ready(self@.users, self@.algorithm, authorization)
    }

    open spec fn authenticate_outcome(&self, authorization: Option<Seq<u8>>) -> Result<bool, Seq<char>> {
        authenticate_spec(self@.users, self@.algorithm, authorization)
    }

    fn authenticate(&self, authorization: Option<&[u8]>) -> (r: Result<bool, VetisError>) {
        match self.try_authenticate(authorization) {
            Some(r) => r,
            None => Ok(false),
        }
    }
}

} // verus!
