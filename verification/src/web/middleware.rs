//! Keeping the identity of a client in an encrypted cookie.

use super::security::{Identity, SecurityContext};
use cookie::{Cookie, CookieJar, Key};
use vstd::prelude::*;
use vstd::string::StringExecFns;

verus! {

#[verifier::external_type_specification]
#[verifier::external_body]
pub struct ExKey(cookie::Key);

/// A failure that is reported as text.
#[derive(Debug, PartialEq, Eq)]
pub struct StringError(pub String);

/// One cookie of a request header as it was parsed: its name and value, or
/// why it could not be read.
pub type Parsed = Result<(String, String), String>;

/// A parsed cookie as contracts see it.
pub type ParsedView = Result<(Seq<char>, Seq<char>), Seq<char>>;

/// What `Cookie::split_parse_encoded` yields for the value of a `Cookie`
/// header, in order: for each piece between semicolons that is not blank,
/// the percent-decoded name and value, or the text of the parse error.
pub uninterp spec fn parsed_cookies(header: Seq<char>) -> Seq<ParsedView>;

/// What `serde_json::from_str` makes of a document that is to hold one JSON
/// string: the string, or the text of the error.
pub uninterp spec fn json_text(document: Seq<char>) -> Result<Seq<char>, Seq<char>>;

/// What `serde_json::to_string` makes of a text: the JSON string that holds
/// it, or the text of the error.
pub uninterp spec fn text_json(text: Seq<char>) -> Result<Seq<char>, Seq<char>>;

/// Whether a parsed cookie reads as `view` does.
pub open spec fn parsed_as(item: Parsed, view: ParsedView) -> bool {
    match (item, view) {
        (Ok(pair), Ok(expected)) => pair.0@ == expected.0 && pair.1@ == expected.1,
        (Err(why), Err(expected)) => why@ == expected,
        _ => false,
    }
}

/// Whether a text or an error reads as `view` does.
pub open spec fn reads_as(item: Result<String, String>, view: Result<Seq<char>, Seq<char>>) -> bool {
    match (item, view) {
        (Ok(text), Ok(expected)) => text@ == expected,
        (Err(why), Err(expected)) => why@ == expected,
        _ => false,
    }
}

/// `Key::derive_from`: the signing and encryption keys that belong to a
/// master key. It panics on fewer than 32 bytes, which are left out.
/// Nothing is said of the key itself, which stays sealed.
#[verifier::external_body]
fn derive_key(master: &[u8]) -> Key
    requires
        master@.len() >= 32,
{
    Key::derive_from(master)
}

/// `Key::try_generate`: keys from the system's randomness, or `None` where
/// it gives none.
#[verifier::external_body]
fn generate_key() -> Option<Key> {
    Key::try_generate()
}

/// `Cookie::split_parse_encoded` on the value of one `Cookie` header, each
/// result given as plain text.
#[verifier::external_body]
fn parse_cookies(header: &str) -> (found: Vec<Parsed>)
    ensures
        found@.len() == parsed_cookies(header@).len(),
        forall|i: int|
            0 <= i < found@.len() ==> parsed_as(#[trigger] found@[i], parsed_cookies(header@)[i]),
{
    Cookie::split_parse_encoded(header.to_owned()).map(
        |parsed| match parsed {
            Ok(cookie) => Ok((cookie.name().to_owned(), cookie.value().to_owned())),
            Err(e) => Err(e.to_string()),
        },
    ).collect()
}

/// `PrivateJar::decrypt` on the cookie `name` with the sealed `value`: the
/// plain value, or `None` where the value was not sealed with this key for
/// this name. Nothing more is said, since the key stays sealed.
#[verifier::external_body]
fn unseal(key: &Key, name: &str, value: &str) -> Option<String> {
    let sealed = Cookie::new(name.to_owned(), value.to_owned());
    CookieJar::new().private(key).decrypt(sealed).map(|cookie| cookie.value().to_owned())
}

/// `PrivateJar::add` on a fresh jar, then the value of the one cookie that
/// `CookieJar::delta` yields: the value sealed with this key for this name.
/// The seal takes a random nonce, so nothing is said of the text; `unseal`
/// with the same key and name gives `value` back. The crate panics where
/// the system gives no randomness for the nonce.
#[verifier::external_body]
fn seal(key: &Key, name: &str, value: &str) -> String {
    let mut jar = CookieJar::new();
    jar.private_mut(key).add(Cookie::new(name.to_owned(), value.to_owned()));
    jar.delta().map(|cookie| cookie.value()).collect()
}

/// `serde_json::from_str` for one JSON string.
#[verifier::external_body]
fn read_json_text(document: &str) -> (text: Result<String, String>)
    ensures
        reads_as(text, json_text(document@)),
{
    match serde_json::from_str::<String>(document) {
        Ok(text) => Ok(text),
        Err(e) => Err(e.to_string()),
    }
}

/// `serde_json::to_string` for one text.
#[verifier::external_body]
fn write_json_text(text: &str) -> (document: Result<String, String>)
    ensures
        reads_as(document, text_json(text@)),
{
    match serde_json::to_string(text) {
        Ok(document) => Ok(document),
        Err(e) => Err(e.to_string()),
    }
}

/// The value of the last cookie named `name` among `items` from position
/// `from` on, or `current` where there is none; the first parse error on the
/// way comes first.
pub open spec fn scan(items: Seq<ParsedView>, from: int, name: Seq<char>, current: Option<Seq<char>>)
    -> Result<Option<Seq<char>>, Seq<char>>
    decreases items.len() - from,
{
    if from < 0 || from >= items.len() {
        Ok(current)
    } else {
        match items[from] {
            Err(why) => Err("Failed to parse cookie: "@ + why),
            Ok(pair) => scan(
                items,
                from + 1,
                name,
                if pair.0 == name {
                    Some(pair.1)
                } else {
                    current
                },
            ),
        }
    }
}

/// An optional text as contracts see it.
pub open spec fn text_of(text: Option<String>) -> Option<Seq<char>> {
    match text {
        Some(value) => Some(value@),
        None => None,
    }
}

/// A header as contracts see it.
pub open spec fn header_view(header: Result<String, String>) -> Result<Seq<char>, Seq<char>> {
    match header {
        Ok(text) => Ok(text@),
        Err(why) => Err(why@),
    }
}

/// The sealed value of the cookie named `name` in the `Cookie` headers of a
/// request from position `from` on, or `current` where none of them has it.
/// Within a header and from header to header the last such cookie counts.
/// The first header that is no text, or the first cookie that cannot be
/// parsed, ends the search with its message.
pub open spec fn lookup(
    headers: Seq<Result<String, String>>,
    from: int,
    name: Seq<char>,
    current: Option<Seq<char>>,
) -> Result<Option<Seq<char>>, Seq<char>>
    decreases headers.len() - from,
{
    if from < 0 || from >= headers.len() {
        Ok(current)
    } else {
        match header_view(headers[from]) {
            Err(why) => Err("Failed to parse header value: "@ + why),
            Ok(text) => match scan(parsed_cookies(text), 0, name, current) {
                Err(message) => Err(message),
                Ok(found) => lookup(headers, from + 1, name, found),
            },
        }
    }
}

/// The identity that an unsealed cookie value holds: the value is a JSON
/// string with the identity's name.
pub open spec fn identity_in(plain: Seq<char>) -> Result<Seq<char>, Seq<char>> {
    match json_text(plain) {
        Ok(name) => Ok(name),
        Err(why) => Err("Failed to deserialize: "@ + why),
    }
}

/// Whether `identity` is what a request's cookie comes to, given what
/// unsealing it gave: without a plain value there is no identity; with one,
/// the identity that it holds, or the error of reading it.
pub open spec fn comes_of(identity: Result<Option<Identity>, StringError>, unsealed: Option<String>)
    -> bool {
    match unsealed {
        None => identity matches Ok(None),
        Some(plain) => match identity_in(plain@) {
            Ok(name) => identity matches Ok(Some(who)) && who@ == name,
            Err(message) => identity matches Err(error) && error.0@ == message,
        },
    }
}

/// The attributes of the cookie that a response is to set.
#[derive(Debug, PartialEq, Eq)]
pub struct CookieSpec {
    pub name: String,
    /// The value before it is sealed; empty for a removal.
    pub value: String,
    pub path: String,
    pub domain: Option<String>,
    pub secure: bool,
    pub http_only: bool,
    /// The lifetime in seconds, if limited.
    pub max_age: Option<i64>,
    /// Whether the cookie is to be removed from the client.
    pub removal: bool,
}

/// How identities are kept in a cookie: under which name and attributes,
/// sealed with which key.
pub struct CookieIdentityPolicy {
    key: Key,
    path: String,
    name: String,
    domain: Option<String>,
    secure: bool,
    max_age: Option<i64>,
}

/// A policy's settings as contracts see them.
pub struct PolicyView {
    pub path: Seq<char>,
    pub name: Seq<char>,
    pub domain: Option<Seq<char>>,
    pub secure: bool,
    pub max_age: Option<i64>,
}

impl View for CookieIdentityPolicy {
    type V = PolicyView;

    closed spec fn view(&self) -> PolicyView {
        PolicyView {
            path: self.path@,
            name: self.name@,
            domain: match self.domain {
                Some(domain) => Some(domain@),
                None => None,
            },
            secure: self.secure,
            max_age: self.max_age,
        }
    }
}

impl PolicyView {
    /// The settings of a policy that nothing has been said of: the cookie
    /// `tide-auth` on the path `/`, for any domain, not limited to secure
    /// connections, for the session.
    pub open spec fn initial() -> PolicyView {
        PolicyView { path: "/"@, name: "tide-auth"@, domain: None, secure: false, max_age: None }
    }
}

impl CookieIdentityPolicy {
    /// The keys that the policy seals with, as contracts see them.
    pub closed spec fn spec_key(&self) -> Key {
        self.key
    }

    fn with_key(key: Key) -> (policy: Self)
        ensures
            policy@ == PolicyView::initial(),
            policy.spec_key() == key,
    {
        CookieIdentityPolicy {
            key,
            path: String::from_str("/"),
            name: String::from_str("tide-auth"),
            domain: None,
            secure: false,
            max_age: None,
        }
    }

    /// A policy with the keys that belong to the master key `key`, of at
    /// least 32 bytes.
    pub fn new(key: &[u8]) -> (policy: Self)
        requires
            key@.len() >= 32,
        ensures
            policy@ == PolicyView::initial(),
    {
        CookieIdentityPolicy::with_key(derive_key(key))
    }

    /// A policy with keys made at random, where the system gives
    /// randomness.
    pub fn generated() -> (policy: Option<Self>)
        ensures
            policy matches Some(made) ==> made@ == PolicyView::initial(),
    {
        CookieIdentityPolicy::with_keys(generate_key())
    }

    /// A policy with the given keys and the initial settings; none where
    /// there are no keys.
    pub fn with_keys(keys: Option<Key>) -> (policy: Option<Self>)
        ensures
            match keys {
                Some(key) => policy matches Some(made) && made@ == PolicyView::initial()
                    && made.spec_key() == key,
                None => policy.is_none(),
            },
    {
        match keys {
            Some(key) => Some(CookieIdentityPolicy::with_key(key)),
            None => None,
        }
    }

    /// The same policy for the path `value`.
    pub fn path(self, value: &str) -> (policy: Self)
        ensures
            policy@ == (PolicyView { path: value@, ..self@ }),
    {
        let mut policy = self;
        policy.path = String::from_str(value);
        policy
    }

    /// The same policy with the cookie named `value`.
    pub fn name(self, value: &str) -> (policy: Self)
        ensures
            policy@ == (PolicyView { name: value@, ..self@ }),
    {
        let mut policy = self;
        policy.name = String::from_str(value);
        policy
    }

    /// The same policy for the domain `value`.
    pub fn domain(self, value: &str) -> (policy: Self)
        ensures
            policy@ == (PolicyView { domain: Some(value@), ..self@ }),
    {
        let mut policy = self;
        policy.domain = Some(String::from_str(value));
        policy
    }

    /// The same policy, limited to secure connections or not.
    pub fn secure(self, value: bool) -> (policy: Self)
        ensures
            policy@ == (PolicyView { secure: value, ..self@ }),
    {
        let mut policy = self;
        policy.secure = value;
        policy
    }

    /// The same policy with cookies that live for `seconds`.
    pub fn max_age(self, seconds: i64) -> (policy: Self)
        ensures
            policy@ == (PolicyView { max_age: Some(seconds), ..self@ }),
    {
        self.max_age_time(seconds)
    }

    /// The same policy with cookies that live for `value` seconds.
    pub fn max_age_time(self, value: i64) -> (policy: Self)
        ensures
            policy@ == (PolicyView { max_age: Some(value), ..self@ }),
    {
        let mut policy = self;
        policy.max_age = Some(value);
        policy
    }

    /// The sealed value of the policy's cookie among the `Cookie` headers of
    /// a request, each given as its text or as the reason why it is none.
    pub fn auth_cookie(&self, headers: &Vec<Result<String, String>>) -> (found: Result<
        Option<String>,
        StringError,
    >)
        ensures
            match lookup(headers@, 0, self@.name, None) {
                Err(message) => found matches Err(error) && error.0@ == message,
                Ok(None) => found matches Ok(None),
                Ok(Some(sealed)) => found matches Ok(Some(value)) && value@ == sealed,
            },
    {
        let mut current: Option<String> = None;
        let mut h: usize = 0;
        while h < headers.len()
            invariant
                h <= headers@.len(),
                lookup(headers@, 0, self@.name, None) == lookup(
                    headers@,
                    h as int,
                    self@.name,
                    text_of(current),
                ),
            decreases headers@.len() - h,
        {
            match &headers[h] {
                Err(why) => {
                    let message = String::from_str("Failed to parse header value: ").concat(
                        why.as_str(),
                    );
                    return Err(StringError(message));
                },
                Ok(text) => {
                    let parsed = parse_cookies(text.as_str());
                    let ghost items = parsed_cookies(text@);
                    let ghost start = text_of(current);
                    let mut c: usize = 0;
                    while c < parsed.len()
                        invariant
                            c <= parsed@.len(),
                            parsed@.len() == items.len(),
                            h < headers@.len(),
                            header_view(headers@[h as int]) == Ok::<Seq<char>, Seq<char>>(text@),
                            items == parsed_cookies(text@),
                            lookup(headers@, 0, self@.name, None) == lookup(
                                headers@,
                                h as int,
                                self@.name,
                                start,
                            ),
                            forall|i: int|
                                0 <= i < parsed@.len() ==> parsed_as(#[trigger] parsed@[i], items[i]),
                            scan(items, 0, self@.name, start) == scan(
                                items,
                                c as int,
                                self@.name,
                                text_of(current),
                            ),
                        decreases parsed@.len() - c,
                    {
                        assert(parsed_as(parsed@[c as int], items[c as int]));
                        match &parsed[c] {
                            Err(why) => {
                                let message = String::from_str("Failed to parse cookie: ").concat(
                                    why.as_str(),
                                );
                                return Err(StringError(message));
                            },
                            Ok(pair) => {
                                if pair.0 == self.name {
                                    current = Some(pair.1.clone());
                                }
                            },
                        }
                        c += 1;
                    }
                },
            }
            h += 1;
        }
        Ok(current)
    }

    /// The plain value of the policy's cookie in a request, given its
    /// `Cookie` headers: none without the cookie; with it, what unsealing
    /// gave, which is nothing where this key did not seal the value for this
    /// name.
    pub fn payload(&self, headers: &Vec<Result<String, String>>) -> (plain: Result<
        Option<String>,
        StringError,
    >)
        ensures
            match lookup(headers@, 0, self@.name, None) {
                Err(message) => plain matches Err(error) && error.0@ == message,
                Ok(None) => plain matches Ok(None),
                Ok(Some(_)) => plain.is_ok(),
            },
    {
        match self.auth_cookie(headers) {
            Err(error) => Err(error),
            Ok(None) => Ok(None),
            Ok(Some(sealed)) => Ok(unseal(&self.key, self.name.as_str(), sealed.as_str())),
        }
    }

    /// The policy's cookie with `plain` sealed for its value.
    pub fn sealed_cookie(&self, plain: &str) -> (spec: CookieSpec)
        ensures
            self.sets(spec, spec.value@, false),
    {
        self.cookie_with(seal(&self.key, self.name.as_str(), plain), false)
    }

    /// The identity that an unsealed cookie value holds.
    pub fn identity_of(plain: &str) -> (identity: Result<Identity, StringError>)
        ensures
            match identity_in(plain@) {
                Ok(name) => identity matches Ok(who) && who@ == name,
                Err(message) => identity matches Err(error) && error.0@ == message,
            },
    {
        match read_json_text(plain) {
            Ok(name) => Ok(Identity::new(name.as_str())),
            Err(why) => Err(
                StringError(String::from_str("Failed to deserialize: ").concat(why.as_str())),
            ),
        }
    }

    /// What a request's cookie comes to once it was looked up and, where
    /// found, unsealed: without a cookie, or with one that this key did not
    /// seal, there is no identity; otherwise the identity that the plain
    /// value holds.
    pub fn identity_from(unsealed: Option<String>) -> (identity: Result<
        Option<Identity>,
        StringError,
    >)
        ensures
            comes_of(identity, unsealed),
    {
        match unsealed {
            None => Ok(None),
            Some(plain) => match CookieIdentityPolicy::identity_of(plain.as_str()) {
                Ok(who) => Ok(Some(who)),
                Err(error) => Err(error),
            },
        }
    }

    /// The value that the cookie of an identity holds before it is sealed:
    /// the identity's name as a JSON string.
    pub fn plain_value(identity: &Identity) -> (value: Result<String, StringError>)
        ensures
            match text_json(identity@) {
                Ok(document) => value matches Ok(text) && text@ == document,
                Err(why) => value matches Err(error) && error.0@ == "Failed to serialize: "@
                    + why,
            },
    {
        match write_json_text(identity.name()) {
            Ok(document) => Ok(document),
            Err(why) => Err(
                StringError(String::from_str("Failed to serialize: ").concat(why.as_str())),
            ),
        }
    }

    /// The policy's cookie with the given value as it goes over the wire, or
    /// the removal of that cookie. The cookie is hidden from scripts either
    /// way.
    pub fn cookie_with(&self, value: String, removal: bool) -> (spec: CookieSpec)
        ensures
            self.sets(spec, value@, removal),
    {
        CookieSpec {
            name: self.name.clone(),
            value,
            path: self.path.clone(),
            domain: match &self.domain {
                Some(domain) => Some(domain.clone()),
                None => None,
            },
            secure: self.secure,
            http_only: true,
            max_age: self.max_age,
            removal,
        }
    }

    /// Whether `spec` is this policy's cookie with the given value.
    pub open spec fn sets(&self, spec: CookieSpec, value: Seq<char>, removal: bool) -> bool {
        &&& spec.name@ == self@.name
        &&& spec.value@ == value
        &&& spec.path@ == self@.path
        &&& match spec.domain {
            Some(domain) => self@.domain == Some(domain@),
            None => self@.domain.is_none(),
        }
        &&& spec.secure == self@.secure
        &&& spec.http_only
        &&& spec.max_age == self@.max_age
        &&& spec.removal == removal
    }
}

/// A way of keeping the identity of a client from request to request.
pub trait SecurityIdentityPolicy {
    /// The identity that a request carries, given its `Cookie` headers, each
    /// as its text or as the reason why it is none.
    fn from_request(&self, headers: &Vec<Result<String, String>>) -> Result<
        Option<Identity>,
        StringError,
    >;

    /// The cookie that a response is to set for `identity`.
    fn write_response(&self, identity: Option<Identity>) -> Result<CookieSpec, StringError>;
}

impl SecurityIdentityPolicy for CookieIdentityPolicy {
    /// The identity that a request carries, given its `Cookie` headers.
    ///
    /// A header that is no text or a cookie that cannot be parsed is an
    /// error. Without the policy's cookie there is no identity. With it, the
    /// outcome is that of `identity_from` on what unsealing gave.
    fn from_request(&self, headers: &Vec<Result<String, String>>) -> (identity: Result<
        Option<Identity>,
        StringError,
    >)
        ensures
            match lookup(headers@, 0, self@.name, None) {
                Err(message) => identity matches Err(error) && error.0@ == message,
                Ok(None) => identity matches Ok(None),
                Ok(Some(_)) => exists|unsealed: Option<String>| #[trigger]
                    comes_of(identity, unsealed),
            },
    {
        match self.payload(headers) {
            Err(error) => Err(error),
            Ok(unsealed) => CookieIdentityPolicy::identity_from(unsealed),
        }
    }

    /// The cookie that a response is to set once the identity has changed:
    /// with an identity, the policy's cookie with the sealed JSON string of
    /// the identity for its value; without, the removal of that cookie, with
    /// no value.
    fn write_response(&self, identity: Option<Identity>) -> (cookie: Result<
        CookieSpec,
        StringError,
    >)
        ensures
            match identity {
                None => cookie matches Ok(spec) && self.sets(spec, Seq::empty(), true),
                Some(who) => match text_json(who@) {
                    Ok(_) => cookie matches Ok(spec) && self.sets(spec, spec.value@, false),
                    Err(why) => cookie matches Err(error) && error.0@
                        == "Failed to serialize: "@ + why,
                },
            },
    {
        match identity {
            None => Ok(self.cookie_with(String::new(), true)),
            Some(who) => match CookieIdentityPolicy::plain_value(&who) {
                Err(error) => Err(error),
                Ok(plain) => Ok(self.sealed_cookie(plain.as_str())),
            },
        }
    }
}

/// Gives every request a security context and, when a handler has changed
/// the identity, has the response say so.
pub struct SecurityMiddleware<P> {
    policy: P,
}

/// Whether `current` is the identity `identity`, if any.
pub open spec fn is_identity(current: Option<Identity>, identity: Option<Seq<char>>) -> bool {
    match current {
        Some(who) => identity == Some(who@),
        None => identity.is_none(),
    }
}

impl<P: SecurityIdentityPolicy> SecurityMiddleware<P> {
    /// The policy, as contracts see it.
    pub closed spec fn spec_policy(&self) -> P {
        self.policy
    }

    /// The middleware that keeps identities by `policy`.
    pub fn new(policy: P) -> (middleware: Self)
        ensures
            middleware.spec_policy() == policy,
    {
        SecurityMiddleware { policy }
    }

    /// The middleware that keeps identities by `policy`; none where there
    /// is no policy.
    pub fn with_policy(policy: Option<P>) -> (middleware: Option<Self>)
        ensures
            match policy {
                Some(given) => middleware matches Some(made) && made.spec_policy() == given,
                None => middleware.is_none(),
            },
    {
        match policy {
            Some(given) => Some(SecurityMiddleware::new(given)),
            None => None,
        }
    }

    /// The policy.
    pub fn policy(&self) -> (policy: &P)
        ensures
            *policy == self.spec_policy(),
    {
        &self.policy
    }

    /// Before the handlers run: the context of the request, unchanged, with
    /// the identity that the policy finds in the `Cookie` headers; or the
    /// policy's error.
    pub fn enter(&self, headers: &Vec<Result<String, String>>) -> (context: Result<
        SecurityContext,
        StringError,
    >)
        ensures
            exists|loaded: Result<Option<Identity>, StringError>|
                #![trigger P::from_request.ensures((&self.spec_policy(), headers), loaded)]
                P::from_request.ensures((&self.spec_policy(), headers), loaded) && match loaded {
                    Ok(found) => context matches Ok(made) && !made@.changed && is_identity(
                        found,
                        made@.identity,
                    ),
                    Err(error) => context matches Err(same) && same == error,
                },
    {
        let loaded = self.policy.from_request(headers);
        let ghost seen = loaded;
        let context = match loaded {
            Ok(found) => Ok(SecurityContext::new(found)),
            Err(error) => Err(error),
        };
        proof {
            assert(P::from_request.ensures((&self.spec_policy(), headers), seen));
        }
        context
    }

    /// After the handlers have run: nothing where the identity is as it came
    /// in; otherwise the cookie that the policy sets for the identity as it
    /// is now, or the policy's error.
    pub fn leave(&self, context: &SecurityContext) -> (cookie: Result<
        Option<CookieSpec>,
        StringError,
    >)
        ensures
            !context@.changed ==> cookie matches Ok(None),
            context@.changed ==> exists|
                current: Option<Identity>,
                written: Result<CookieSpec, StringError>,
            |
                #![trigger P::write_response.ensures((&self.spec_policy(), current), written)]
                is_identity(current, context@.identity) && P::write_response.ensures(
                    (&self.spec_policy(), current),
                    written,
                ) && match written {
                    Ok(spec) => cookie matches Ok(Some(set)) && set == spec,
                    Err(error) => cookie matches Err(same) && same == error,
                },
    {
        match pending_write(context) {
            None => Ok(None),
            Some(current) => {
                let ghost asked = current;
                let written = self.policy.write_response(current);
                let ghost said = written;
                let cookie = match written {
                    Ok(spec) => Ok(Some(spec)),
                    Err(error) => Err(error),
                };
                proof {
                    assert(is_identity(asked, context@.identity));
                    assert(P::write_response.ensures((&self.spec_policy(), asked), said));
                }
                cookie
            },
        }
    }
}

impl SecurityMiddleware<CookieIdentityPolicy> {
    /// The middleware that keeps identities in the cookie `tide-auth`,
    /// sealed with keys made at random, where the system gives randomness.
    pub fn generated() -> (middleware: Option<Self>)
        ensures
            middleware matches Some(made) ==> made.spec_policy()@ == PolicyView::initial(),
    {
        SecurityMiddleware::with_policy(CookieIdentityPolicy::generated())
    }
}

/// What the middleware does with a response once the handlers are done:
/// nothing where the identity is as it came in; otherwise the response gets
/// the cookie for the identity as it is now.
pub fn pending_write(context: &SecurityContext) -> (write: Option<Option<Identity>>)
    ensures
        !context@.changed ==> write.is_none(),
        context@.changed ==> (write matches Some(current) && match current {
            Some(who) => context@.identity == Some(who@),
            None => context@.identity.is_none(),
        }),
{
    if context.is_changed() {
        Some(context.identity())
    } else {
        None
    }
}

} // verus!
