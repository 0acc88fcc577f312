//! Credentials, and the headers that prove identity to the exchange.
//!
//! A bearer token is presented as it is. A key and a secret sign the request:
//! the secret never leaves the process, what is sent is the HMAC-SHA256 of
//! the request's body under that secret, in lower-case hexadecimal. The same
//! credentials and the same body always give the same headers; there is no
//! timestamp and no nonce in what is signed.

use vstd::prelude::*;
use vstd::string::*;
use vstd::utf8::encode_utf8;
use secrecy::{ExposeSecret, SecretString};
use crate::richamster::request::Request;
use crate::text::same_text;

verus! {

/// A secret text in the keeping of the `secrecy` crate, which wipes it from
/// memory when it is dropped and leaves it out of debug output. Verus does
/// not look inside: the contracts speak of `secret_text`.
#[verifier::external_body]
#[derive(Debug)]
pub struct Secret {
    inner: SecretString,
}

/// The text that a `Secret` holds.
pub uninterp spec fn secret_text(secret: Secret) -> Seq<char>;

/// The HMAC-SHA256 of `message` under `key`: what `hmac_sha256::HMAC::mac`
/// returns, as a sequence of 32 bytes.
pub uninterp spec fn hmac_sha256(key: Seq<u8>, message: Seq<u8>) -> Seq<u8>;

/// Hands a text to `SecretString::from`, which moves it into the secret.
#[verifier::external_body]
fn seal(text: String) -> (secret: Secret)
    ensures
        secret_text(secret) == text@,
{
    Secret { inner: SecretString::from(text) }
}

/// Calls `ExposeSecret::expose_secret`, which lends the text out.
#[verifier::external_body]
fn expose(secret: &Secret) -> (text: &str)
    ensures
        text@ == secret_text(*secret),
{
    secret.inner.expose_secret()
}

impl Clone for Secret {
    /// Calls `SecretString::clone`, which copies the text into a new secret.
    #[verifier::external_body]
    fn clone(&self) -> (copy: Self)
        ensures
            secret_text(copy) == secret_text(*self),
    {
        Secret { inner: self.inner.clone() }
    }
}

/// Calls `hmac_sha256::HMAC::mac`, which takes the message first and the key
/// second; the contract names the code it returns.
#[verifier::external_body]
fn mac(message: &[u8], key: &[u8]) -> (code: [u8; 32])
    ensures
        code@ == hmac_sha256(key@, message@),
{
    ::hmac_sha256::HMAC::mac(message, key)
}

/// The character of a hexadecimal digit, in lower case.
pub open spec fn hex_digit(d: int) -> char {
    if d < 10 {
        ((48 + d) as u8) as char
    } else {
        ((87 + d) as u8) as char
    }
}

/// The bytes written in hexadecimal, two lower-case digits for each, the
/// high half first.
pub open spec fn hex_lower(bytes: Seq<u8>) -> Seq<char> {
    Seq::new(
        2 * bytes.len(),
        |i: int|
            if i % 2 == 0 {
                hex_digit(bytes[i / 2] as int / 16)
            } else {
                hex_digit(bytes[i / 2] as int % 16)
            },
    )
}

/// Calls `hex::encode`, which writes each byte as two digits taken from
/// `0123456789abcdef`, the high half first.
#[verifier::external_body]
fn hex_encode(bytes: &[u8]) -> (text: String)
    ensures
        text@ == hex_lower(bytes@),
{
    hex::encode(bytes)
}

/// A bearer token: a session credential that is presented as it is.
#[derive(Debug, Clone)]
pub struct JwtToken(pub Secret);

/// The public half of a key pair: it tells the exchange whose signature a
/// request carries.
#[derive(Debug, Clone)]
pub struct ApiKey(pub Secret);

/// The secret half of a key pair: the key that requests are signed with.
#[derive(Debug, Clone)]
pub struct SecretKey(pub Secret);

impl View for JwtToken {
    type V = Seq<char>;

    open spec fn view(&self) -> Seq<char> {
        secret_text(self.0)
    }
}

impl View for ApiKey {
    type V = Seq<char>;

    open spec fn view(&self) -> Seq<char> {
        secret_text(self.0)
    }
}

impl View for SecretKey {
    type V = Seq<char>;

    open spec fn view(&self) -> Seq<char> {
        secret_text(self.0)
    }
}

impl JwtToken {
    pub fn new(token: String) -> (made: Self)
        ensures
            made@ == token@,
    {
        JwtToken(seal(token))
    }

    fn value(&self) -> (text: &str)
        ensures
            text@ == self@,
    {
        expose(&self.0)
    }
}

impl ApiKey {
    pub fn new(key: String) -> (made: Self)
        ensures
            made@ == key@,
    {
        ApiKey(seal(key))
    }

    fn value(&self) -> (text: &str)
        ensures
            text@ == self@,
    {
        expose(&self.0)
    }
}

impl SecretKey {
    pub fn new(key: String) -> (made: Self)
        ensures
            made@ == key@,
    {
        SecretKey(seal(key))
    }

    fn value(&self) -> (text: &str)
        ensures
            text@ == self@,
    {
        expose(&self.0)
    }
}

/// How a client proves its identity: with nothing, with a bearer token, with
/// a key pair, or with both. Each variant holds exactly the credentials that
/// it needs.
#[derive(Clone, Debug)]
pub enum AuthState {
    Unauthorized,
    JwtTokenAuth(JwtToken),
    ApiSecretKeyAuth(ApiKey, SecretKey),
    JwtTokenWithApiSecretKeyAuth(JwtToken, ApiKey, SecretKey),
}

/// One header of a request.
#[derive(Debug, Clone, PartialEq, Eq)]
pub struct Header {
    pub name: String,
    pub value: String,
}

impl View for Header {
    type V = (Seq<char>, Seq<char>);

    open spec fn view(&self) -> (Seq<char>, Seq<char>) {
        (self.name@, self.value@)
    }
}

/// The headers of a list, each as its name and its value.
pub open spec fn header_views(headers: Seq<Header>) -> Seq<(Seq<char>, Seq<char>)> {
    Seq::new(headers.len(), |i: int| headers[i]@)
}

/// No name occurs twice.
pub open spec fn distinct_names(headers: Seq<(Seq<char>, Seq<char>)>) -> bool {
    forall|i: int, j: int|
        0 <= i < j < headers.len() ==> (#[trigger] headers[i]).0 != (#[trigger] headers[j]).0
}

/// The value of the `Authorization` header for a bearer token.
pub open spec fn bearer_value(token: Seq<char>) -> Seq<char> {
    "JWT "@ + token
}

/// The value of the `Signature` header: the HMAC-SHA256 of the body under the
/// secret's UTF-8 bytes, in lower-case hexadecimal.
pub open spec fn signature(secret: Seq<char>, body: Seq<u8>) -> Seq<char> {
    hex_lower(hmac_sha256(encode_utf8(secret), body))
}

/// The bytes that are signed for a request: its body, or nothing where it
/// has none.
pub open spec fn signed_bytes(body: Option<&[u8]>) -> Seq<u8> {
    match body {
        Some(bytes) => bytes@,
        None => Seq::empty(),
    }
}

impl AuthState {
    /// The bearer token, where the state holds one.
    pub open spec fn bearer(self) -> Option<Seq<char>> {
        match self {
            AuthState::Unauthorized => None,
            AuthState::JwtTokenAuth(token) => Some(token@),
            AuthState::ApiSecretKeyAuth(_, _) => None,
            AuthState::JwtTokenWithApiSecretKeyAuth(token, _, _) => Some(token@),
        }
    }

    /// The key and the secret, where the state holds them.
    pub open spec fn keys(self) -> Option<(Seq<char>, Seq<char>)> {
        match self {
            AuthState::Unauthorized => None,
            AuthState::JwtTokenAuth(_) => None,
            AuthState::ApiSecretKeyAuth(api, secret) => Some((api@, secret@)),
            AuthState::JwtTokenWithApiSecretKeyAuth(_, api, secret) => Some((api@, secret@)),
        }
    }

    /// The headers that prove this identity for a request with the given
    /// body: `Authorization` for a bearer token, then `Api-Key` and
    /// `Signature` for a key pair.
    pub open spec fn headers(self, body: Seq<u8>) -> Seq<(Seq<char>, Seq<char>)> {
        let bearer = match self.bearer() {
            Some(token) => seq![("Authorization"@, bearer_value(token))],
            None => Seq::empty(),
        };
        let keyed = match self.keys() {
            Some((api, secret)) => seq![("Api-Key"@, api), ("Signature"@, signature(secret, body))],
            None => Seq::empty(),
        };
        bearer + keyed
    }

    /// The headers that prove this identity for a request with the given
    /// body. The body is read, not changed; a request without a body is
    /// signed as one with an empty body.
    pub fn sign(&self, body: Option<&[u8]>) -> (signed: SignedHeaders)
        ensures
            signed@ == self.headers(signed_bytes(body)),
            distinct_names(signed@),
    {
        let mut entries: Vec<Header> = Vec::new();
        let empty: [u8; 0] = [];
        let bytes: &[u8] = match body {
            Some(bytes) => bytes,
            None => empty.as_slice(),
        };
        assert(bytes@ =~= signed_bytes(body));
        match self {
            AuthState::Unauthorized => {},
            AuthState::JwtTokenAuth(token) => {
                entries.push(AuthState::jwt_token_header(token));
            },
            AuthState::ApiSecretKeyAuth(api, secret) => {
                entries.push(AuthState::api_key_header(api));
                entries.push(AuthState::signature_header(secret, bytes));
            },
            AuthState::JwtTokenWithApiSecretKeyAuth(token, api, secret) => {
                entries.push(AuthState::jwt_token_header(token));
                entries.push(AuthState::api_key_header(api));
                entries.push(AuthState::signature_header(secret, bytes));
            },
        }
        proof {
            reveal_strlit("Authorization");
            reveal_strlit("Api-Key");
            reveal_strlit("Signature");
            assert("Authorization"@.len() == 13 && "Api-Key"@.len() == 7 && "Signature"@.len()
                == 9);
            assert(header_views(entries@) =~= self.headers(signed_bytes(body)));
        }
        SignedHeaders { entries }
    }

    fn jwt_token_header(token: &JwtToken) -> (header: Header)
        ensures
            header@ == ("Authorization"@, bearer_value(token@)),
    {
        let mut value = "JWT ".to_owned();
        value.append(token.value());
        Header { name: "Authorization".to_owned(), value }
    }

    fn api_key_header(api: &ApiKey) -> (header: Header)
        ensures
            header@ == ("Api-Key"@, api@),
    {
        Header { name: "Api-Key".to_owned(), value: api.value().to_owned() }
    }

    fn signature_header(secret: &SecretKey, body: &[u8]) -> (header: Header)
        ensures
            header@ == ("Signature"@, signature(secret@, body@)),
    {
        let code = mac(body, secret.value().as_bytes());
        Header { name: "Signature".to_owned(), value: hex_encode(code.as_slice()) }
    }
}

/// The headers that prove a request's origin, in the order in which they are
/// attached. No name occurs twice among them.
#[derive(Debug)]
pub struct SignedHeaders {
    entries: Vec<Header>,
}

impl View for SignedHeaders {
    type V = Seq<(Seq<char>, Seq<char>)>;

    closed spec fn view(&self) -> Seq<(Seq<char>, Seq<char>)> {
        header_views(self.entries@)
    }
}

impl SignedHeaders {
    #[verifier::type_invariant]
    spec fn names_are_distinct(&self) -> bool {
        distinct_names(header_views(self.entries@))
    }

    pub fn len(&self) -> (n: usize)
        ensures
            n == self@.len(),
            distinct_names(self@),
    {
        proof {
            use_type_invariant(self);
        }
        self.entries.len()
    }

    pub fn is_empty(&self) -> (empty: bool)
        ensures
            empty == (self@.len() == 0),
    {
        self.entries.len() == 0
    }

    /// The first header with the given name, compared letter for letter.
    pub fn get(&self, name: &str) -> (found: Option<&Header>)
        ensures
            match found {
                Some(header) => exists|i: int|
                    {
                        &&& 0 <= i < self@.len()
                        &&& #[trigger] self@[i] == header@
                        &&& header.name@ == name@
                        &&& forall|j: int| 0 <= j < i ==> (#[trigger] self@[j]).0 != name@
                    },
                None => forall|j: int| 0 <= j < self@.len() ==> (#[trigger] self@[j]).0 != name@,
            },
    {
        let mut i: usize = 0;
        while i < self.entries.len()
            invariant
                i <= self.entries@.len(),
                forall|j: int| 0 <= j < i ==> (#[trigger] self@[j]).0 != name@,
            decreases self.entries@.len() - i,
        {
            let header = &self.entries[i];
            if same_text(header.name.as_str(), name) {
                assert(self@[i as int] == header@);
                return Some(header);
            }
            i = i + 1;
        }
        None
    }

    /// The headers as a list, in their order.
    pub fn into_vec(self) -> (list: Vec<Header>)
        ensures
            header_views(list@) == self@,
            distinct_names(self@),
    {
        proof {
            use_type_invariant(&self);
        }
        self.entries
    }
}

/// Attaching the proof of identity to a request that is otherwise ready.
pub trait HeaderCompose {
    /// Attaches the headers for a request without a body.
    fn compose(self, auth_state: &AuthState) -> Request;

    /// Attaches the headers for a request whose body is `payload`.
    fn compose_with_payload(self, auth_state: &AuthState, payload: &str) -> Request;
}

impl HeaderCompose for Request {
    fn compose(self, auth_state: &AuthState) -> (composed: Request)
        ensures
            composed.method == self.method,
            composed.url == self.url,
            composed.body == self.body,
            header_views(composed.headers@) == header_views(self.headers@) + auth_state.headers(
                Seq::empty(),
            ),
    {
        attach(self, auth_state, None)
    }

    fn compose_with_payload(self, auth_state: &AuthState, payload: &str) -> (composed: Request)
        ensures
            composed.method == self.method,
            composed.url == self.url,
            composed.body == self.body,
            header_views(composed.headers@) == header_views(self.headers@) + auth_state.headers(
                encode_utf8(payload@),
            ),
    {
        attach(self, auth_state, Some(payload.as_bytes()))
    }
}

/// Adds the headers that sign `body` to the end of the request's headers.
fn attach(request: Request, auth_state: &AuthState, body: Option<&[u8]>) -> (composed: Request)
    ensures
        composed.method == request.method,
        composed.url == request.url,
        composed.body == request.body,
        header_views(composed.headers@) == header_views(request.headers@) + auth_state.headers(
            signed_bytes(body),
        ),
{
    let mut composed = request;
    let ghost before = composed.headers@;
    let mut added = auth_state.sign(body).into_vec();
    let ghost signed = added@;
    composed.headers.append(&mut added);
    assert(header_views(composed.headers@) =~= header_views(before) + header_views(signed));
    composed
}

/// Computes the value of the `Signature` header on its own: the HMAC-SHA256
/// of `body` under the secret's bytes, in lower-case hexadecimal.
pub fn signature_of(secret: &str, body: &[u8]) -> (value: String)
    ensures
        value@ == signature(secret@, body@),
{
    let code = mac(body, secret.as_bytes());
    hex_encode(code.as_slice())
}

/// Signing takes nothing from outside: two identities that hold the same
/// credentials give the same headers for the same body.
pub proof fn lemma_sign_is_deterministic(
    first: AuthState,
    second: AuthState,
    first_body: Seq<u8>,
    second_body: Seq<u8>,
)
    requires
        first.bearer() == second.bearer(),
        first.keys() == second.keys(),
        first_body == second_body,
    ensures
        first.headers(first_body) == second.headers(second_body),
{
}

/// Each kind of identity gives exactly its own headers and no others: none
/// without credentials, `Authorization` for a bearer token, `Api-Key` and
/// `Signature` for a key pair, and these three for both together.
pub proof fn lemma_headers_by_variant(auth: AuthState, body: Seq<u8>)
    ensures
        match auth {
            AuthState::Unauthorized => auth.headers(body) == Seq::<
                (Seq<char>, Seq<char>),
            >::empty(),
            AuthState::JwtTokenAuth(token) => auth.headers(body) == seq![
                ("Authorization"@, bearer_value(token@)),
            ],
            AuthState::ApiSecretKeyAuth(api, secret) => auth.headers(body) == seq![
                ("Api-Key"@, api@),
                ("Signature"@, signature(secret@, body)),
            ],
            AuthState::JwtTokenWithApiSecretKeyAuth(token, api, secret) => auth.headers(body)
                == seq![
                ("Authorization"@, bearer_value(token@)),
                ("Api-Key"@, api@),
                ("Signature"@, signature(secret@, body)),
            ],
        },
        distinct_names(auth.headers(body)),
{
    reveal_strlit("Authorization");
    reveal_strlit("Api-Key");
    reveal_strlit("Signature");
    assert("Authorization"@.len() == 13 && "Api-Key"@.len() == 7 && "Signature"@.len() == 9);
    match auth {
        AuthState::Unauthorized => {
            assert(auth.headers(body) =~= Seq::<(Seq<char>, Seq<char>)>::empty());
        },
        AuthState::JwtTokenAuth(token) => {
            assert(auth.headers(body) =~= seq![("Authorization"@, bearer_value(token@))]);
        },
        AuthState::ApiSecretKeyAuth(api, secret) => {
            assert(auth.headers(body) =~= seq![
                ("Api-Key"@, api@),
                ("Signature"@, signature(secret@, body)),
            ]);
        },
        AuthState::JwtTokenWithApiSecretKeyAuth(token, api, secret) => {
            assert(auth.headers(body) =~= seq![
                ("Authorization"@, bearer_value(token@)),
                ("Api-Key"@, api@),
                ("Signature"@, signature(secret@, body)),
            ]);
        },
    }
}

/// Where an identity holds a key pair, the last of its headers is
/// `Signature`, and its value is what computing the HMAC-SHA256 of the body
/// under the secret and writing it in hexadecimal gives.
pub proof fn lemma_signature_round_trip(auth: AuthState, body: Seq<u8>)
    requires
        auth.keys() is Some,
    ensures
        auth.headers(body).len() > 0,
        auth.headers(body).last() == ("Signature"@, signature(auth.keys().unwrap().1, body)),
        signature(auth.keys().unwrap().1, body) == hex_lower(
            hmac_sha256(encode_utf8(auth.keys().unwrap().1), body),
        ),
{
    lemma_headers_by_variant(auth, body);
}

} // verus!
