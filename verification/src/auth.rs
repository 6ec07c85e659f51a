//! Participant tokens: how they are made, how they are hashed for storage,
//! and how a request is let through or refused on its token.
use vstd::prelude::*;

verus! {

/// Random bytes behind a token.
pub const TOKEN_BYTES: usize = 32;

/// The digit the URL-safe base64 alphabet (RFC 4648, section 5) writes for a
/// six-bit value: `A`-`Z`, `a`-`z`, `0`-`9`, `-`, `_`.
pub open spec fn base64_url_digit(v: int) -> char {
    if v < 26 {
        (65 + v) as char
    } else if v < 52 {
        (97 + v - 26) as char
    } else if v < 62 {
        (48 + v - 52) as char
    } else if v == 62 {
        '-'
    } else {
        '_'
    }
}

/// Base64 with the URL-safe alphabet and no padding: every three bytes become
/// four digits; a final single byte becomes two digits, a final pair three.
pub open spec fn base64_url_no_pad(s: Seq<u8>) -> Seq<char>
    decreases s.len(),
{
    if s.len() == 0 {
        seq![]
    } else if s.len() == 1 {
        seq![base64_url_digit((s[0] as int) / 4), base64_url_digit(((s[0] as int) % 4) * 16)]
    } else if s.len() == 2 {
        seq![
            base64_url_digit((s[0] as int) / 4),
            base64_url_digit(((s[0] as int) % 4) * 16 + (s[1] as int) / 16),
            base64_url_digit(((s[1] as int) % 16) * 4),
        ]
    } else {
        seq![
            base64_url_digit((s[0] as int) / 4),
            base64_url_digit(((s[0] as int) % 4) * 16 + (s[1] as int) / 16),
            base64_url_digit(((s[1] as int) % 16) * 4 + (s[2] as int) / 64),
            base64_url_digit((s[2] as int) % 64),
        ] + base64_url_no_pad(s.skip(3))
    }
}

/// A character of the URL-safe base64 alphabet; none of them needs escaping in a URL.
pub open spec fn is_url_safe_char(c: char) -> bool {
    ||| 'A' <= c <= 'Z'
    ||| 'a' <= c <= 'z'
    ||| '0' <= c <= '9'
    ||| c == '-'
    ||| c == '_'
}

/// Length of the unpadded encoding of `n` bytes.
pub open spec fn base64_no_pad_len(n: nat) -> nat {
    4 * (n / 3) + if n % 3 == 0 {
        0
    } else {
        n % 3 + 1
    }
}

/// The text of a token: the unpadded URL-safe base64 encoding of some random bytes.
pub open spec fn is_token_text(t: Seq<char>) -> bool {
    exists|b: Seq<u8>| b.len() == TOKEN_BYTES && t == base64_url_no_pad(b)
}

/// The SHA-256 digest of a byte string.
pub uninterp spec fn sha256_digest(data: Seq<u8>) -> Seq<u8>;

/// Calls `sha2::Sha256::digest`. Claimed: the result is the SHA-256 digest of
/// the input, a function of the input alone, 32 bytes long.
#[verifier::external_body]
fn sha256(data: &[u8]) -> (res: Vec<u8>)
    ensures
        res@ == sha256_digest(data@),
        res@.len() == 32,
{
    <sha2::Sha256 as sha2::Digest>::digest(data).to_vec()
}

/// Calls `rand::RngCore::fill_bytes` on the thread-local generator. Claimed:
/// `len` bytes come back; what they are is left open, as it rests on chance.
#[verifier::external_body]
fn random_bytes(len: usize) -> (res: Vec<u8>)
    ensures
        res@.len() == len,
{
    let mut buf = vec![0u8; len];
    rand::RngCore::fill_bytes(&mut rand::rng(), &mut buf);
    buf
}

/// Calls `base64::Engine::encode` with `URL_SAFE_NO_PAD`. Claimed: the result
/// is the unpadded URL-safe base64 text of the input, as RFC 4648 defines it
/// and as the crate's encoder writes it.
#[verifier::external_body]
fn encode_base64_url_no_pad(bytes: &[u8]) -> (res: String)
    ensures
        res@ == base64_url_no_pad(bytes@),
{
    base64::Engine::encode(&base64::engine::general_purpose::URL_SAFE_NO_PAD, bytes)
}

proof fn lemma_digit_url_safe(v: int)
    requires
        0 <= v < 64,
    ensures
        is_url_safe_char(base64_url_digit(v)),
{
}

/// Every digit of an unpadded URL-safe encoding is URL-safe, and the
/// encoding of `n` bytes is `base64_no_pad_len(n)` long.
pub proof fn lemma_base64_shape(s: Seq<u8>)
    ensures
        base64_url_no_pad(s).len() == base64_no_pad_len(s.len()),
        forall|i: int| 0 <= i < base64_url_no_pad(s).len() ==> is_url_safe_char(
            #[trigger] base64_url_no_pad(s)[i],
        ),
    decreases s.len(),
{
    let e = base64_url_no_pad(s);
    if s.len() == 0 {
    } else if s.len() == 1 {
        lemma_digit_url_safe((s[0] as int) / 4);
        lemma_digit_url_safe(((s[0] as int) % 4) * 16);
    } else if s.len() == 2 {
        lemma_digit_url_safe((s[0] as int) / 4);
        lemma_digit_url_safe(((s[0] as int) % 4) * 16 + (s[1] as int) / 16);
        lemma_digit_url_safe(((s[1] as int) % 16) * 4);
    } else {
        lemma_digit_url_safe((s[0] as int) / 4);
        lemma_digit_url_safe(((s[0] as int) % 4) * 16 + (s[1] as int) / 16);
        lemma_digit_url_safe(((s[1] as int) % 16) * 4 + (s[2] as int) / 64);
        lemma_digit_url_safe((s[2] as int) % 64);
        let rest = s.skip(3);
        lemma_base64_shape(rest);
        let head = seq![
            base64_url_digit((s[0] as int) / 4),
            base64_url_digit(((s[0] as int) % 4) * 16 + (s[1] as int) / 16),
            base64_url_digit(((s[1] as int) % 16) * 4 + (s[2] as int) / 64),
            base64_url_digit((s[2] as int) % 64),
        ];
        assert(e == head + base64_url_no_pad(rest));
        assert forall|i: int| 0 <= i < e.len() implies is_url_safe_char(#[trigger] e[i]) by {
            if i >= 4 {
                assert(e[i] == base64_url_no_pad(rest)[i - 4]);
            }
        }
    }
}

/// Law: a token is 43 characters long and uses only the URL-safe base64
/// alphabet, so it can stand in a URL query as it is.
pub proof fn law_token_is_url_safe(t: Seq<char>)
    requires
        is_token_text(t),
    ensures
        t.len() == 43,
        forall|i: int| 0 <= i < t.len() ==> is_url_safe_char(#[trigger] t[i]),
{
    let b = choose|b: Seq<u8>| b.len() == TOKEN_BYTES && t == base64_url_no_pad(b);
    lemma_base64_shape(b);
}

/// A fresh participant token: 32 random bytes in unpadded URL-safe base64.
pub fn generate_token() -> (res: String)
    ensures
        is_token_text(res@),
        res@.len() == 43,
{
    let bytes = random_bytes(TOKEN_BYTES);
    let token = encode_base64_url_no_pad(bytes.as_slice());
    proof {
        lemma_base64_shape(bytes@);
    }
    token
}

/// The key under which a token is stored and looked up: the SHA-256 of its UTF-8 bytes.
pub open spec fn token_hash(token: Seq<char>) -> Seq<u8> {
    sha256_digest(vstd::utf8::encode_utf8(token))
}

/// Hashes a token for storage; the token itself is never stored.
pub fn hash_token(token: &str) -> (res: Vec<u8>)
    ensures
        res@ == token_hash(token@),
        res@.len() == 32,
{
    sha256(token.as_bytes())
}

/// A participant known to the service.
#[derive(Clone, Copy, Debug, PartialEq, Eq, Structural)]
pub struct Participant {
    /// The participant's UUID, as its 128-bit number.
    pub id: u128,
}

/// Why a request was refused.
#[derive(Clone, Copy, Debug, PartialEq, Eq, Structural)]
pub enum AuthError {
    /// No usable token, or no participant holds it (401).
    Unauthorized,
    /// The participant store could not be asked (500).
    StoreFailed,
}

impl AuthError {
    /// The HTTP status the refusal is answered with.
    pub fn status(&self) -> (res: u16)
        ensures
            res == auth_status(*self),
    {
        match self {
            AuthError::Unauthorized => 401,
            AuthError::StoreFailed => 500,
        }
    }
}

/// HTTP status of each refusal.
pub open spec fn auth_status(e: AuthError) -> u16 {
    match e {
        AuthError::Unauthorized => 401,
        AuthError::StoreFailed => 500,
    }
}

/// The `token` query parameter when it is present and not empty.
pub open spec fn required_token(token: Option<Seq<char>>) -> Option<Seq<char>> {
    match token {
        Some(t) => if t.len() > 0 {
            Some(t)
        } else {
            None
        },
        None => None,
    }
}

/// Takes the token from the query: a missing or empty token is refused.
pub fn token_from_query(token: Option<String>) -> (res: Result<String, AuthError>)
    ensures
        match required_token(match token {
            Some(t) => Some(t@),
            None => None,
        }) {
            Some(t) => res matches Ok(r) && r@ == t,
            None => res == Err::<String, AuthError>(AuthError::Unauthorized),
        },
{
    match token {
        Some(t) => {
            if t.as_str().is_empty() {
                Err(AuthError::Unauthorized)
            } else {
                Ok(t)
            }
        },
        None => Err(AuthError::Unauthorized),
    }
}

/// The key a request's token is looked up under, if the token is usable.
pub open spec fn request_lookup_key(token: Option<Seq<char>>) -> Option<Seq<u8>> {
    match required_token(token) {
        Some(t) => Some(token_hash(t)),
        None => None,
    }
}

/// The lookup key for the `token` query parameter of a request: refused when
/// the token is missing or empty, else the hash under which it is stored.
pub fn lookup_key_for(token: Option<String>) -> (res: Result<Vec<u8>, AuthError>)
    ensures
        match request_lookup_key(match token {
            Some(t) => Some(t@),
            None => None,
        }) {
            Some(k) => res matches Ok(r) && r@ == k,
            None => res == Err::<Vec<u8>, AuthError>(AuthError::Unauthorized),
        },
{
    let t = token_from_query(token)?;
    Ok(hash_token(t.as_str()))
}

/// Decides on the answer of the participant store to a lookup by token hash:
/// a failed lookup is a server error, no participant is a refusal.
pub fn participant_from_lookup(found: Result<Option<u128>, ()>) -> (res: Result<
    Participant,
    AuthError,
>)
    ensures
        res == match found {
            Ok(Some(id)) => Ok(Participant { id }),
            Ok(None) => Err(AuthError::Unauthorized),
            Err(_) => Err::<Participant, AuthError>(AuthError::StoreFailed),
        },
{
    match found {
        Ok(Some(id)) => Ok(Participant { id }),
        Ok(None) => Err(AuthError::Unauthorized),
        Err(_) => Err(AuthError::StoreFailed),
    }
}

/// Law: the key of a token is the SHA-256 of the token's whole UTF-8
/// encoding, bytes that decode back to exactly the token; so two different
/// tokens are hashed from different bytes, and an ASCII token (every token
/// `generate_token` makes) is hashed from one byte per character.
pub proof fn law_token_key_hashes_whole_token(t: Seq<char>, u: Seq<char>)
    ensures
        token_hash(t) == sha256_digest(vstd::utf8::encode_utf8(t)),
        vstd::utf8::decode_utf8(vstd::utf8::encode_utf8(t)) == t,
        t != u ==> vstd::utf8::encode_utf8(t) != vstd::utf8::encode_utf8(u),
        vstd::utf8::is_ascii_chars(t) ==> vstd::utf8::encode_utf8(t).len() == t.len(),
{
    vstd::utf8::encode_utf8_decode_utf8(t);
    vstd::utf8::encode_utf8_decode_utf8(u);
    if vstd::utf8::is_ascii_chars(t) {
        vstd::utf8::is_ascii_chars_encode_utf8(t);
    }
}

} // verus!
