use vstd::prelude::*;
use vstd::utf8::{decode_utf8, encode_utf8, encode_utf8_decode_utf8, encode_utf8_valid_utf8, pop_first_scalar, valid_utf8};

use base64ct::Encoding;
use base64ct::Error as Base64Error;

use crate::state::AuthMode;

verus! {

/// The status code of a refused request: 401 UNAUTHORIZED.
pub const UNAUTHORIZED_STATUS: u16 = 401;

/// The `WWW-Authenticate` value sent with a refused request.
pub const BASIC_CHALLENGE: &'static str = "Basic realm=\"User Visible Realm\", charset=\"UTF-8\"";

/// What is done with a request that HTTP Basic authentication guards.
#[derive(Debug)]
pub enum AuthOutcome {
    /// The credentials check out: the request proceeds.
    Proceed,
    /// The request is answered with `status` and a `WWW-Authenticate: challenge` header.
    Unauthorized { status: u16, challenge: &'static str },
}

/// A byte that `HeaderValue::to_str` of the http crate accepts: visible ASCII or a tab.
pub open spec fn is_visible_ascii(b: u8) -> bool {
    (32 <= b && b < 127) || b == 9
}

/// The bytes of `Basic ` (with its trailing space).
pub open spec fn basic_prefix() -> Seq<u8> {
    seq![66u8, 97, 115, 105, 99, 32]
}

/// The part after `Basic ` of an `Authorization` header value that is text (visible
/// ASCII and tabs only) and starts with `Basic `; `None` for any other value.
pub open spec fn basic_payload(value: Seq<u8>) -> Option<Seq<u8>> {
    if (forall|i: int| 0 <= i < value.len() ==> is_visible_ascii(#[trigger] value[i]))
        && value.len() >= 6 && value.take(6) == basic_prefix() {
        Some(value.skip(6))
    } else {
        None
    }
}

/// ASCII bytes read as characters.
pub open spec fn ascii_text(bytes: Seq<u8>) -> Seq<char> {
    bytes.map_values(|b: u8| b as char)
}

/// `credentials`, split at its first `:`, is `username` before it and `password` after it.
pub open spec fn credentials_valid(credentials: Seq<char>, username: Seq<char>, password: Seq<char>) -> bool {
    credentials == username + seq![':'] + password && !username.contains(':')
}

/// The character of the standard Base64 alphabet (`A`-`Z`, `a`-`z`, `0`-`9`, `+`,
/// `/`) for a value below 64.
pub open spec fn base64_symbol(v: int) -> char {
    if v < 26 {
        (65 + v) as char
    } else if v < 52 {
        (71 + v) as char
    } else if v < 62 {
        (v - 4) as char
    } else if v == 62 {
        '+'
    } else {
        '/'
    }
}

/// The standard Base64 encoding of `bytes` (RFC 4648, with `=` padding): every
/// three bytes become four characters of six bits each.
pub open spec fn base64_text(bytes: Seq<u8>) -> Seq<char>
    decreases bytes.len(),
{
    if bytes.len() == 0 {
        seq![]
    } else if bytes.len() == 1 {
        seq![
            base64_symbol((bytes[0] as int) / 4),
            base64_symbol(((bytes[0] as int) % 4) * 16),
            '=',
            '=',
        ]
    } else if bytes.len() == 2 {
        seq![
            base64_symbol((bytes[0] as int) / 4),
            base64_symbol(((bytes[0] as int) % 4) * 16 + (bytes[1] as int) / 16),
            base64_symbol(((bytes[1] as int) % 16) * 4),
            '=',
        ]
    } else {
        seq![
            base64_symbol((bytes[0] as int) / 4),
            base64_symbol(((bytes[0] as int) % 4) * 16 + (bytes[1] as int) / 16),
            base64_symbol(((bytes[1] as int) % 16) * 4 + (bytes[2] as int) / 64),
            base64_symbol((bytes[2] as int) % 64),
        ] + base64_text(bytes.skip(3))
    }
}

/// Characters read as the bytes of their code points.
pub open spec fn ascii_bytes(text: Seq<char>) -> Seq<u8> {
    text.map_values(|c: char| c as u8)
}

/// The `Authorization` value that a client sends for `username` and `password`:
/// `Basic ` and the standard Base64 encoding of the UTF-8 text `username:password`.
pub open spec fn basic_authorization(username: Seq<char>, password: Seq<char>) -> Seq<u8> {
    basic_prefix() + ascii_bytes(base64_text(encode_utf8(username + seq![':'] + password)))
}

/// A character that standard Base64 text holds: the alphabet and `=`.
pub open spec fn is_base64_char(c: char) -> bool {
    ('A' <= c && c <= 'Z') || ('a' <= c && c <= 'z') || ('0' <= c && c <= '9') || c == '+'
        || c == '/' || c == '='
}

/// What `Base64::decode_vec` of base64ct (the standard alphabet, with padding)
/// decodes `text` to; `None` where it reports an error.
pub uninterp spec fn base64_decoded(text: Seq<char>) -> Option<Seq<u8>>;

/// HTTP Basic authentication accepts the `Authorization` header value `value`
/// for `username` and `password`: it is text, `Basic ` followed by what
/// `Base64::decode_vec` decodes to the UTF-8 encoding of `username:password`, and
/// `username` holds no `:`.
pub open spec fn basic_accepts(value: Seq<u8>, username: Seq<char>, password: Seq<char>) -> bool {
    match basic_payload(value) {
        None => false,
        Some(payload) => match base64_decoded(ascii_text(payload)) {
            None => false,
            Some(raw) => valid_utf8(raw) && credentials_valid(decode_utf8(raw), username, password),
        },
    }
}

#[verifier::external_type_specification]
#[verifier::external_body]
pub struct ExBase64Error(Base64Error);

/// Calls `Base64::decode_vec` of base64ct; its contract claims that the result is
/// `base64_decoded` of the text (the same text always decodes the same way), and
/// that the standard Base64 encoding of any bytes decodes back to those bytes.
#[verifier::external_body]
fn decode_base64(text: &str) -> (decoded: Result<Vec<u8>, Base64Error>)
    ensures
        decoded is Ok <==> base64_decoded(text@) is Some,
        decoded matches Ok(bytes) ==> base64_decoded(text@) == Some(bytes@),
        decoded is Err ==> forall|bytes: Seq<u8>| text@ != #[trigger] base64_text(bytes),
        decoded matches Ok(out) ==> forall|bytes: Seq<u8>|
            text@ == #[trigger] base64_text(bytes) ==> out@ == bytes,
{
    base64ct::Base64::decode_vec(text)
}

/// Calls `std::str::from_utf8`; its contract claims that it succeeds exactly on
/// valid UTF-8 and then gives the decoded characters.
#[verifier::external_body]
fn utf8_text(bytes: &[u8]) -> (text: Option<&str>)
    ensures
        text is Some <==> valid_utf8(bytes@),
        text matches Some(t) ==> t@ == decode_utf8(bytes@),
{
    std::str::from_utf8(bytes).ok()
}

/// ASCII bytes are valid UTF-8, and decode to themselves.
proof fn lemma_ascii_utf8(bytes: Seq<u8>)
    requires
        forall|i: int| 0 <= i < bytes.len() ==> #[trigger] bytes[i] < 128,
    ensures
        valid_utf8(bytes),
        decode_utf8(bytes) == ascii_text(bytes),
    decreases bytes.len(),
{
    if bytes.len() > 0 {
        let b = bytes[0];
        assert(b & 0x7f == b) by (bit_vector)
            requires
                b < 128,
        ;
        assert(pop_first_scalar(bytes) =~= bytes.drop_first());
        assert forall|i: int| 0 <= i < bytes.drop_first().len() implies #[trigger] bytes.drop_first()[i]
            < 128 by {
            assert(bytes.drop_first()[i] == bytes[i + 1]);
        }
        lemma_ascii_utf8(bytes.drop_first());
        assert(decode_utf8(bytes) =~= ascii_text(bytes));
    } else {
        assert(decode_utf8(bytes) =~= ascii_text(bytes));
    }
}

/// A value below 64 has a symbol in the standard Base64 alphabet.
proof fn lemma_base64_symbol(v: int)
    requires
        0 <= v < 64,
    ensures
        is_base64_char(base64_symbol(v)),
        base64_symbol(v) != '=',
{
}

/// Standard Base64 text holds only characters of the alphabet and `=`.
pub proof fn lemma_base64_text_chars(bytes: Seq<u8>)
    ensures
        forall|i: int| 0 <= i < base64_text(bytes).len() ==> is_base64_char(#[trigger] base64_text(bytes)[i]),
    decreases bytes.len(),
{
    if bytes.len() > 0 {
        lemma_base64_symbol((bytes[0] as int) / 4);
        if bytes.len() == 1 {
            lemma_base64_symbol(((bytes[0] as int) % 4) * 16);
        } else if bytes.len() == 2 {
            lemma_base64_symbol(((bytes[0] as int) % 4) * 16 + (bytes[1] as int) / 16);
            lemma_base64_symbol(((bytes[1] as int) % 16) * 4);
        } else {
            lemma_base64_symbol(((bytes[0] as int) % 4) * 16 + (bytes[1] as int) / 16);
            lemma_base64_symbol(((bytes[1] as int) % 16) * 4 + (bytes[2] as int) / 64);
            lemma_base64_symbol((bytes[2] as int) % 64);
            lemma_base64_text_chars(bytes.skip(3));
            let head = seq![
                base64_symbol((bytes[0] as int) / 4),
                base64_symbol(((bytes[0] as int) % 4) * 16 + (bytes[1] as int) / 16),
                base64_symbol(((bytes[1] as int) % 16) * 4 + (bytes[2] as int) / 64),
                base64_symbol((bytes[2] as int) % 64),
            ];
            assert forall|i: int| 0 <= i < base64_text(bytes).len() implies is_base64_char(
                #[trigger] base64_text(bytes)[i],
            ) by {
                if i >= 4 {
                    assert(base64_text(bytes)[i] == base64_text(bytes.skip(3))[i - 4]);
                } else {
                    assert(base64_text(bytes)[i] == head[i]);
                }
            }
        }
    }
}

/// The header value that a client sends for `username` and `password` is text
/// that starts with `Basic `, followed by the Base64 text of the credentials.
proof fn lemma_basic_authorization_payload(username: Seq<char>, password: Seq<char>)
    ensures
        basic_payload(basic_authorization(username, password)) == Some(
            ascii_bytes(base64_text(encode_utf8(username + seq![':'] + password))),
        ),
        ascii_text(ascii_bytes(base64_text(encode_utf8(username + seq![':'] + password))))
            == base64_text(encode_utf8(username + seq![':'] + password)),
{
    let text = base64_text(encode_utf8(username + seq![':'] + password));
    let value = basic_authorization(username, password);
    lemma_base64_text_chars(encode_utf8(username + seq![':'] + password));
    assert forall|i: int| 0 <= i < value.len() implies is_visible_ascii(#[trigger] value[i]) by {
        if i >= 6 {
            assert(value[i] == text[i - 6] as u8);
            assert(is_base64_char(text[i - 6]));
        } else {
            assert(value[i] == basic_prefix()[i]);
        }
    }
    assert(value.take(6) =~= basic_prefix());
    assert(value.skip(6) =~= ascii_bytes(text));
    assert forall|i: int| 0 <= i < text.len() implies (text[i] as u8) as char == text[i] by {
        assert(is_base64_char(text[i]));
    }
    assert(ascii_text(ascii_bytes(text)) =~= text);
}

/// Collects the characters of `s`.
pub fn chars_of(s: &str) -> (out: Vec<char>)
    ensures
        out@ == s@,
{
    let mut out: Vec<char> = Vec::new();
    for c in it: s.chars()
        invariant
            it.seq() == s@,
            out@ == it.seq().take(it.index() as int),
    {
        out.push(c);
    }
    out
}

/// Whether `chars[start..end]` is `expected`.
fn range_equals(chars: &Vec<char>, start: usize, end: usize, expected: &Vec<char>) -> (eq: bool)
    requires
        start <= end <= chars@.len(),
    ensures
        eq == (chars@.subrange(start as int, end as int) == expected@),
{
    if end - start != expected.len() {
        return false;
    }
    let mut i: usize = 0;
    while i < expected.len()
        invariant
            start <= end <= chars@.len(),
            end - start == expected@.len(),
            0 <= i <= expected@.len(),
            forall|j: int| 0 <= j < i ==> chars@[start + j] == expected@[j],
        decreases expected@.len() - i,
    {
        if chars[start + i] != expected[i] {
            assert(chars@.subrange(start as int, end as int)[i as int] != expected@[i as int]);
            return false;
        }
        i = i + 1;
    }
    assert(chars@.subrange(start as int, end as int) =~= expected@);
    true
}

/// Whether `credentials`, split at its first `:`, is `username` before it and
/// `password` after it.
pub fn credentials_match(credentials: &str, username: &str, password: &str) -> (ok: bool)
    ensures
        ok == credentials_valid(credentials@, username@, password@),
{
    let c = chars_of(credentials);
    let u = chars_of(username);
    let p = chars_of(password);
    let mut pos: usize = 0;
    while pos < c.len() && c[pos] != ':'
        invariant
            0 <= pos <= c@.len(),
            forall|j: int| 0 <= j < pos ==> c@[j] != ':',
        decreases c@.len() - pos,
    {
        pos = pos + 1;
    }
    let ghost joined = u@ + seq![':'] + p@;
    if pos == c.len() {
        proof {
            if credentials_valid(c@, u@, p@) {
                assert(joined[u@.len() as int] == ':');
                assert(c@[u@.len() as int] == ':');
            }
        }
        return false;
    }
    let user_ok = range_equals(&c, 0, pos, &u);
    let pass_ok = range_equals(&c, pos + 1, c.len(), &p);
    proof {
        if user_ok && pass_ok {
            assert(c@ =~= c@.subrange(0, pos as int) + seq![':'] + c@.subrange(
                pos + 1,
                c@.len() as int,
            ));
            assert forall|j: int| 0 <= j < u@.len() implies u@[j] != ':' by {
                assert(u@[j] == c@.subrange(0, pos as int)[j]);
            }
        }
        if credentials_valid(c@, u@, p@) {
            assert(joined[u@.len() as int] == ':');
            if pos < u@.len() {
                assert(c@[pos as int] == u@[pos as int]);
                assert(u@.contains(':'));
            }
            if pos > u@.len() {
                assert(c@[u@.len() as int] == ':');
            }
            assert(c@.subrange(0, pos as int) =~= u@);
            assert(c@.subrange(pos + 1, c@.len() as int) =~= p@);
        }
    }
    user_ok && pass_ok
}

/// Whether the bytes that a Basic payload decodes to are UTF-8 text that, split at
/// its first `:`, is `username` before it and `password` after it.
pub fn credentials_accepted(decoded: &[u8], username: &str, password: &str) -> (ok: bool)
    ensures
        ok == (valid_utf8(decoded@) && credentials_valid(decode_utf8(decoded@), username@, password@)),
{
    match utf8_text(decoded) {
        Some(credentials) => credentials_match(credentials, username, password),
        None => false,
    }
}

/// The part after `Basic ` of an `Authorization` header value, if the value is
/// text that starts with `Basic `.
pub fn basic_payload_of(value: &[u8]) -> (payload: Option<Vec<u8>>)
    ensures
        payload is Some <==> basic_payload(value@) is Some,
        payload matches Some(p) ==> basic_payload(value@) == Some(p@),
{
    let mut i: usize = 0;
    while i < value.len()
        invariant
            0 <= i <= value@.len(),
            forall|j: int| 0 <= j < i ==> is_visible_ascii(#[trigger] value@[j]),
        decreases value@.len() - i,
    {
        let b = value[i];
        if !((32 <= b && b < 127) || b == 9) {
            assert(!is_visible_ascii(value@[i as int]));
            return None;
        }
        i = i + 1;
    }
    let prefix: [u8; 6] = [66u8, 97, 115, 105, 99, 32];
    assert(prefix@ =~= basic_prefix());
    if value.len() < 6 {
        return None;
    }
    let mut k: usize = 0;
    while k < 6
        invariant
            value@.len() >= 6,
            prefix@ == basic_prefix(),
            0 <= k <= 6,
            forall|j: int| 0 <= j < k ==> value@[j] == prefix@[j],
        decreases 6 - k,
    {
        if value[k] != prefix[k] {
            assert(value@.take(6)[k as int] != basic_prefix()[k as int]);
            return None;
        }
        k = k + 1;
    }
    assert(value@.take(6) =~= basic_prefix());
    let mut out: Vec<u8> = Vec::new();
    let mut m: usize = 6;
    while m < value.len()
        invariant
            6 <= m <= value@.len(),
            out@ == value@.subrange(6, m as int),
        decreases value@.len() - m,
    {
        out.push(value[m]);
        m = m + 1;
        assert(out@ =~= value@.subrange(6, m as int));
    }
    assert(value@.subrange(6, value@.len() as int) =~= value@.skip(6));
    Some(out)
}

/// HTTP Basic authentication of a request, given its `Authorization` header
/// value, if it has one: the request proceeds if the header carries the
/// configured username and password, and is refused with 401 UNAUTHORIZED and a
/// `WWW-Authenticate: Basic` challenge otherwise.
pub fn basic(mode: &AuthMode, authorization: Option<&[u8]>) -> (outcome: AuthOutcome)
    requires
        mode is Basic,
    ensures
        (outcome is Proceed) == (authorization matches Some(value) && mode matches AuthMode::Basic {
            username,
            password,
        } && basic_accepts(value@, username@, password@)),
        (authorization matches Some(value) && mode matches AuthMode::Basic { username, password }
            && value@ == basic_authorization(username@, password@) && !username@.contains(':'))
            ==> outcome is Proceed,
        outcome is Unauthorized ==> outcome == (AuthOutcome::Unauthorized {
            status: UNAUTHORIZED_STATUS,
            challenge: BASIC_CHALLENGE,
        }),
{
    let refused = AuthOutcome::Unauthorized {
        status: UNAUTHORIZED_STATUS,
        challenge: BASIC_CHALLENGE,
    };
    let (username, password) = match mode {
        AuthMode::Basic { username, password } => (username, password),
        AuthMode::NoAuth => {
            return refused;
        },
    };
    let value = match authorization {
        Some(value) => value,
        None => {
            return refused;
        },
    };
    let ghost sent = value@ == basic_authorization(username@, password@) && !username@.contains(
        ':',
    );
    let ghost credentials = username@ + seq![':'] + password@;
    proof {
        if sent {
            lemma_basic_authorization_payload(username@, password@);
        }
    }
    let payload = match basic_payload_of(value) {
        Some(payload) => payload,
        None => {
            return refused;
        },
    };
    proof {
        assert forall|i: int| 0 <= i < payload@.len() implies #[trigger] payload@[i] < 128 by {
            assert(payload@[i] == value@[i + 6]);
            assert(is_visible_ascii(value@[i + 6]));
        }
        lemma_ascii_utf8(payload@);
    }
    let text = match utf8_text(payload.as_slice()) {
        Some(text) => text,
        None => {
            return refused;
        },
    };
    proof {
        if sent {
            assert(text@ == base64_text(encode_utf8(credentials)));
        }
    }
    let raw = match decode_base64(text) {
        Ok(raw) => raw,
        Err(_) => {
            return refused;
        },
    };
    proof {
        if sent {
            assert(raw@ == encode_utf8(credentials));
            encode_utf8_valid_utf8(credentials);
            encode_utf8_decode_utf8(credentials);
        }
    }
    if credentials_accepted(raw.as_slice(), username.as_str(), password.as_str()) {
        AuthOutcome::Proceed
    } else {
        refused
    }
}

/// Whether a request that carries the `Authorization` header value
/// `authorization`, if any, may be served under `mode`: without authentication every
/// request proceeds; with HTTP Basic authentication exactly those that `basic` lets in.
pub fn gate(mode: &AuthMode, authorization: Option<&[u8]>) -> (outcome: AuthOutcome)
    ensures
        mode is NoAuth ==> outcome is Proceed,
        mode matches AuthMode::Basic { username, password } ==> ((outcome is Proceed) == (
        authorization matches Some(value) && basic_accepts(value@, username@, password@))),
        (authorization matches Some(value) && mode matches AuthMode::Basic { username, password }
            && value@ == basic_authorization(username@, password@) && !username@.contains(':'))
            ==> outcome is Proceed,
        outcome is Unauthorized ==> outcome == (AuthOutcome::Unauthorized {
            status: UNAUTHORIZED_STATUS,
            challenge: BASIC_CHALLENGE,
        }),
{
    if mode.is_basic() {
        basic(mode, authorization)
    } else {
        AuthOutcome::Proceed
    }
}

/// Credentials are split at their first `:`, so a configured username that holds a
/// `:` never lets any request in, whatever header it carries.
pub proof fn lemma_colon_username_never_accepted(value: Seq<u8>, username: Seq<char>, password: Seq<char>)
    requires
        username.contains(':'),
    ensures
        !basic_accepts(value, username, password),
{
}

/// Only a header value that starts with `Basic ` and is text (visible ASCII and
/// tabs) can let a request in; in particular the scheme is matched case-sensitively.
pub proof fn lemma_only_basic_scheme_accepted(value: Seq<u8>, username: Seq<char>, password: Seq<char>)
    requires
        basic_accepts(value, username, password),
    ensures
        value.len() >= 6,
        value.take(6) == basic_prefix(),
        forall|i: int| 0 <= i < value.len() ==> is_visible_ascii(#[trigger] value[i]),
{
}

} // verus!
