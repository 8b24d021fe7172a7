//! Digests, random material, identifiers and the text encodings that the
//! service builds on. Each function here calls its outside crate; its contract
//! states what that crate documents or what its source shows.

use vstd::prelude::*;

verus! {

/// The SHA-256 digest of a byte string.
pub uninterp spec fn spec_sha256(data: Seq<u8>) -> Seq<u8>;

/// HMAC-SHA256 of `message` under `key`.
pub uninterp spec fn spec_hmac_sha256(key: Seq<u8>, message: Seq<u8>) -> Seq<u8>;

/// The lower-case hexadecimal digit of `d` (`d < 16`).
pub open spec fn hex_digit(d: int) -> char {
    if d < 10 {
        (48 + d) as char
    } else {
        (87 + d) as char
    }
}

/// Lower-case hexadecimal text of a byte string, two digits per byte, high nibble first.
pub open spec fn hex_lower(bytes: Seq<u8>) -> Seq<char> {
    Seq::new(
        2 * bytes.len(),
        |i: int|
            if i % 2 == 0 {
                hex_digit(bytes[i / 2] as int / 16)
            } else {
                hex_digit(bytes[i / 2] as int % 16)
            },
    )
}

/// The URL-safe Base64 alphabet (RFC 4648 section 5).
pub open spec fn base64url_digit(v: int) -> char {
    if v < 26 {
        (65 + v) as char
    } else if v < 52 {
        (71 + v) as char
    } else if v < 62 {
        (v - 4) as char
    } else if v == 62 {
        '-'
    } else {
        '_'
    }
}

/// URL-safe Base64 without padding: each group of three bytes becomes four
/// characters, a trailing group of one or two bytes becomes two or three.
pub open spec fn base64url(bytes: Seq<u8>) -> Seq<char>
    decreases bytes.len(),
{
    let b0 = bytes[0] as int;
    let b1 = bytes[1] as int;
    let b2 = bytes[2] as int;
    if bytes.len() == 0 {
        Seq::empty()
    } else if bytes.len() == 1 {
        seq![base64url_digit(b0 / 4), base64url_digit((b0 % 4) * 16)]
    } else if bytes.len() == 2 {
        seq![
            base64url_digit(b0 / 4),
            base64url_digit((b0 % 4) * 16 + b1 / 16),
            base64url_digit((b1 % 16) * 4),
        ]
    } else {
        seq![
            base64url_digit(b0 / 4),
            base64url_digit((b0 % 4) * 16 + b1 / 16),
            base64url_digit((b1 % 16) * 4 + b2 / 64),
            base64url_digit(b2 % 64),
        ] + base64url(bytes.skip(3))
    }
}

/// `16^n`.
pub open spec fn pow16(n: nat) -> nat
    decreases n,
{
    if n == 0 {
        1
    } else {
        16 * pow16((n - 1) as nat)
    }
}

/// The last `n` hexadecimal digits of `v`, most significant first.
pub open spec fn nibbles(v: nat, n: nat) -> Seq<char>
    decreases n,
{
    if n == 0 {
        Seq::empty()
    } else {
        nibbles(v / 16, (n - 1) as nat) + seq![hex_digit((v % 16) as int)]
    }
}

/// The 32 lower-case hexadecimal digits of a 128-bit value, most significant first.
pub open spec fn hex_digits_u128(v: u128) -> Seq<char> {
    nibbles(v as nat, 32)
}

/// The hyphenated form of a UUID: 8-4-4-4-12 lower-case hexadecimal digits.
pub open spec fn uuid_text(v: u128) -> Seq<char> {
    let h = hex_digits_u128(v);
    h.subrange(0, 8) + seq!['-'] + h.subrange(8, 12) + seq!['-'] + h.subrange(12, 16) + seq!['-']
        + h.subrange(16, 20) + seq!['-'] + h.subrange(20, 32)
}

/// How JSON writes one character inside a string literal: `"` and `\` get a
/// backslash, the control characters get their short escape or `\u00XX`.
pub open spec fn json_escape(c: char) -> Seq<char> {
    let u = c as u32;
    if c == '"' {
        seq!['\\', '"']
    } else if c == '\\' {
        seq!['\\', '\\']
    } else if u == 0x08 {
        seq!['\\', 'b']
    } else if u == 0x09 {
        seq!['\\', 't']
    } else if u == 0x0A {
        seq!['\\', 'n']
    } else if u == 0x0C {
        seq!['\\', 'f']
    } else if u == 0x0D {
        seq!['\\', 'r']
    } else if u < 0x20 {
        seq!['\\', 'u', '0', '0', hex_digit(u as int / 16), hex_digit(u as int % 16)]
    } else {
        seq![c]
    }
}

pub open spec fn json_escape_all(s: Seq<char>) -> Seq<char>
    decreases s.len(),
{
    if s.len() == 0 {
        Seq::empty()
    } else {
        json_escape(s[0]) + json_escape_all(s.drop_first())
    }
}

/// A JSON string literal holding `s`.
pub open spec fn json_string_literal(s: Seq<char>) -> Seq<char> {
    seq!['"'] + json_escape_all(s) + seq!['"']
}

/// A character that JSON writes as itself inside a string literal.
pub open spec fn json_plain(c: char) -> bool {
    c != '"' && c != '\\' && c as u32 >= 0x20
}

pub proof fn lemma_escape_all_plain(s: Seq<char>)
    requires
        forall|i: int| 0 <= i < s.len() ==> #[trigger] json_plain(s[i]),
    ensures
        json_escape_all(s) == s,
    decreases s.len(),
{
    if s.len() > 0 {
        assert(json_plain(s[0]));
        lemma_escape_all_plain(s.drop_first());
        assert(s =~= seq![s[0]] + s.drop_first());
    }
}

proof fn lemma_escape_second(c1: char, c2: char)
    requires
        !json_plain(c1),
        !json_plain(c2),
        json_escape(c1)[1] == json_escape(c2)[1],
        json_escape(c1).len() == 6 ==> json_escape(c1)[4] == json_escape(c2)[4] && json_escape(c1)[5]
            == json_escape(c2)[5],
    ensures
        c1 == c2,
{
    let u = c1 as u32;
    let w = c2 as u32;
    if json_escape(c1).len() == 6 && json_escape(c2).len() == 6 {
        let (a, b) = (u as int, w as int);
        assert(a / 16 == b / 16);
        assert(a % 16 == b % 16);
        assert(a == b) by (nonlinear_arith)
            requires
                a / 16 == b / 16,
                a % 16 == b % 16,
        ;
    }
}

proof fn lemma_escape_first(c: char, rest: Seq<char>)
    ensures
        json_escape(c).len() >= 1,
        json_plain(c) ==> json_escape(c) == seq![c] && c != '\\',
        !json_plain(c) ==> json_escape(c)[0] == '\\' && json_escape(c).len() >= 2,
{
}

/// Escaping is injective: a JSON string literal's body determines its text.
pub proof fn lemma_escape_all_injective(s1: Seq<char>, s2: Seq<char>)
    requires
        json_escape_all(s1) == json_escape_all(s2),
    ensures
        s1 == s2,
    decreases s1.len(),
{
    if s1.len() == 0 {
        if s2.len() > 0 {
            lemma_escape_first(s2[0], s2.drop_first());
            assert(json_escape_all(s2).len() >= 1);
        }
    } else if s2.len() == 0 {
        lemma_escape_first(s1[0], s1.drop_first());
        assert(json_escape_all(s1).len() >= 1);
    } else {
        let (c1, c2) = (s1[0], s2[0]);
        let (e1, e2) = (json_escape(c1), json_escape(c2));
        let (r1, r2) = (json_escape_all(s1.drop_first()), json_escape_all(s2.drop_first()));
        let all = json_escape_all(s1);
        assert(all == e1 + r1);
        assert(all == e2 + r2);
        lemma_escape_first(c1, s1.drop_first());
        lemma_escape_first(c2, s2.drop_first());
        assert(all[0] == e1[0] && all[0] == e2[0]);
        if json_plain(c1) || json_plain(c2) {
            assert(c1 == c2);
        } else {
            assert(all[1] == e1[1] && all[1] == e2[1]);
            if e1.len() == 6 {
                assert(all[4] == e1[4] && all[4] == e2[4]);
                assert(all[5] == e1[5] && all[5] == e2[5]);
            }
            lemma_escape_second(c1, c2);
        }
        assert(e1 == e2);
        assert(r1 =~= all.subrange(e1.len() as int, all.len() as int));
        assert(r2 =~= all.subrange(e2.len() as int, all.len() as int));
        lemma_escape_all_injective(s1.drop_first(), s2.drop_first());
        assert(s1 =~= seq![c1] + s1.drop_first());
        assert(s2 =~= seq![c2] + s2.drop_first());
    }
}

pub proof fn lemma_nibbles_shape(v: nat, n: nat)
    ensures
        nibbles(v, n).len() == n,
        forall|i: int|
            0 <= i < n ==> #[trigger] json_plain(nibbles(v, n)[i]) && nibbles(v, n)[i] != '-',
    decreases n,
{
    if n > 0 {
        lemma_nibbles_shape(v / 16, (n - 1) as nat);
    }
}

/// Hexadecimal digits determine the value they write.
pub proof fn lemma_nibbles_injective(x: nat, y: nat, n: nat)
    requires
        x < pow16(n),
        y < pow16(n),
        nibbles(x, n) == nibbles(y, n),
    ensures
        x == y,
    decreases n,
{
    if n > 0 {
        let p = pow16((n - 1) as nat);
        let s = nibbles(x, n);
        lemma_nibbles_shape(x / 16, (n - 1) as nat);
        lemma_nibbles_shape(y / 16, (n - 1) as nat);
        assert(s[n - 1] == hex_digit((x % 16) as int));
        assert(nibbles(y, n)[n - 1] == hex_digit((y % 16) as int));
        assert(x % 16 == y % 16);
        assert(nibbles(x / 16, (n - 1) as nat) =~= s.subrange(0, n - 1));
        assert(nibbles(y / 16, (n - 1) as nat) =~= nibbles(y, n).subrange(0, n - 1));
        assert(x / 16 < p) by (nonlinear_arith)
            requires
                x < 16 * p,
        ;
        assert(y / 16 < p) by (nonlinear_arith)
            requires
                y < 16 * p,
        ;
        lemma_nibbles_injective(x / 16, y / 16, (n - 1) as nat);
        assert(x == y) by (nonlinear_arith)
            requires
                x / 16 == y / 16,
                x % 16 == y % 16,
        ;
    }
}

/// Every 128-bit value has 32 hexadecimal digits.
pub proof fn lemma_u128_below_pow16()
    ensures
        pow16(32) == 0x1_0000_0000_0000_0000_0000_0000_0000_0000,
{
    reveal_with_fuel(pow16, 33);
}

/// `sha2::Sha256::digest`: the 32-byte SHA-256 digest of `bytes`.
#[verifier::external_body]
pub fn sha256(bytes: &[u8]) -> (digest: Vec<u8>)
    ensures
        digest@ == spec_sha256(bytes@),
        digest@.len() == 32,
{
    <sha2::Sha256 as sha2::Digest>::digest(bytes).to_vec()
}

/// `hmac::Hmac::<Sha256>`: the 32-byte HMAC-SHA256 of `message` under `key`.
/// `new_from_slice` accepts keys of every length, so it never fails.
#[verifier::external_body]
pub(crate) fn hmac_sha256(key: &[u8], message: &[u8]) -> (mac: Vec<u8>)
    ensures
        mac@ == spec_hmac_sha256(key@, message@),
        mac@.len() == 32,
{
    let mut m = <hmac::Hmac<sha2::Sha256> as hmac::Mac>::new_from_slice(key)
        .expect("HMAC takes keys of any length");
    hmac::Mac::update(&mut m, message);
    hmac::Mac::finalize(m).into_bytes().to_vec()
}

/// `hex::encode`: lower-case hexadecimal text, two digits per byte.
#[verifier::external_body]
pub(crate) fn hex_encode(bytes: &[u8]) -> (text: String)
    ensures
        text@ == hex_lower(bytes@),
{
    hex::encode(bytes)
}

/// `base64::engine::general_purpose::URL_SAFE_NO_PAD.encode`.
#[verifier::external_body]
pub(crate) fn base64url_encode(bytes: &[u8]) -> (text: String)
    ensures
        text@ == base64url(bytes@),
{
    base64::Engine::encode(&base64::engine::general_purpose::URL_SAFE_NO_PAD, bytes)
}

/// `uuid::Uuid::from_u128(id).hyphenated()`: the UUID's 8-4-4-4-12 text,
/// its bytes taken big-endian from `id`.
#[verifier::external_body]
pub(crate) fn uuid_string(id: u128) -> (text: String)
    ensures
        text@ == uuid_text(id),
{
    uuid::Uuid::from_u128(id).hyphenated().to_string()
}

/// `uuid::Uuid::new_v4().as_u128()`: a random UUID with version 4 and the
/// RFC 4122 variant. Which value comes back is chance.
#[verifier::external_body]
pub(crate) fn new_id() -> (id: u128)
    ensures
        (id >> 76u128) & 0xfu128 == 4,
        (id >> 62u128) & 0x3u128 == 2,
{
    uuid::Uuid::new_v4().as_u128()
}

/// `serde_json::to_string` of a string: the JSON string literal. Writing a
/// string into memory cannot fail.
#[verifier::external_body]
pub(crate) fn json_string(s: &str) -> (text: String)
    ensures
        text@ == json_string_literal(s@),
{
    serde_json::to_string(s).expect("a string always serializes")
}

/// `rand::rngs::OsRng.fill_bytes`: `N` bytes from the operating system's
/// random source. Nothing is promised of their values; the source panics when
/// the operating system has no randomness to give, which nothing here can rule out.
#[verifier::external_body]
pub fn random_bytes<const N: usize>() -> [u8; N] {
    let mut bytes = [0u8; N];
    rand::RngCore::fill_bytes(&mut rand::rngs::OsRng, &mut bytes);
    bytes
}

} // verus!
