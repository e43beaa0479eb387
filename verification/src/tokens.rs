//! Opaque tokens handed to users, and the hashes under which they are stored.
use vstd::prelude::*;
use vstd::string::StringSliceAdditionalSpecFns;
use sha2::Digest;
use crate::text::push_char;

verus! {

/// What SHA-256 gives for `data` (`sha2::Sha256::digest`).
pub uninterp spec fn spec_sha256(data: Seq<u8>) -> Seq<u8>;

/// `sha2::Sha256::digest`: the SHA-256 digest of `data`, 32 bytes long. The
/// claim is that the digest is a function of `data`, named `spec_sha256`.
#[verifier::external_body]
fn sha256(data: &[u8]) -> (r: Vec<u8>)
    ensures
        r@ == spec_sha256(data@),
        r@.len() == 32,
{
    sha2::Sha256::digest(data).to_vec()
}

/// Whether `c` is a lower-case hexadecimal digit.
pub open spec fn is_lower_hex_char(c: char) -> bool {
    ('0' <= c && c <= '9') || ('a' <= c && c <= 'f')
}

/// Whether `s` is the text of a random (version 4) UUID: 36 characters,
/// hyphens at 8, 13, 18 and 23, lower-case hexadecimal digits elsewhere, the
/// version digit `4` at 14 and one of `8`, `9`, `a`, `b` (the variant) at 19.
pub open spec fn is_uuid_v4_text(s: Seq<char>) -> bool {
    &&& s.len() == 36
    &&& forall|i: int| 0 <= i < 36 ==> (if i == 8 || i == 13 || i == 18 || i == 23 {
        #[trigger] s[i] == '-'
    } else {
        is_lower_hex_char(s[i])
    })
    &&& s[14] == '4'
    &&& (s[19] == '8' || s[19] == '9' || s[19] == 'a' || s[19] == 'b')
}

/// `uuid::Uuid::new_v4().to_string()`: a fresh random UUID in its hyphenated
/// lower-case text form. What is claimed is the form of every outcome (the
/// version and variant bits are set, the rest random); not which UUID.
#[verifier::external_body]
fn random_uuid_text() -> (r: String)
    ensures
        is_uuid_v4_text(r@),
{
    uuid::Uuid::new_v4().to_string()
}

/// The lower-case hexadecimal digit for `d` (below sixteen).
pub open spec fn hex_lower(d: u8) -> char {
    if d < 10 {
        (48 + d) as char
    } else {
        (87 + d) as char
    }
}

/// The lower-case hexadecimal text of `bytes`, two digits per byte, as
/// `hex::encode` writes it.
pub open spec fn hex_spec(bytes: Seq<u8>) -> Seq<char>
    decreases bytes.len(),
{
    if bytes.len() == 0 {
        Seq::empty()
    } else {
        seq![hex_lower(bytes[0] / 16), hex_lower(bytes[0] % 16)] + hex_spec(bytes.drop_first())
    }
}

proof fn lemma_hex_push(bytes: Seq<u8>, b: u8)
    ensures
        hex_spec(bytes.push(b)) == hex_spec(bytes) + seq![hex_lower(b / 16), hex_lower(b % 16)],
    decreases bytes.len(),
{
    if bytes.len() == 0 {
        assert(bytes.push(b).drop_first() == bytes);
        assert(hex_spec(bytes.push(b)) == seq![hex_lower(b / 16), hex_lower(b % 16)] + hex_spec(bytes));
    } else {
        lemma_hex_push(bytes.drop_first(), b);
        assert(bytes.push(b).drop_first() == bytes.drop_first().push(b));
        assert(hex_spec(bytes.push(b)) =~= seq![hex_lower(bytes[0] / 16), hex_lower(bytes[0] % 16)]
            + hex_spec(bytes.drop_first().push(b)));
    }
}

fn hex_digit(d: u8) -> (c: char)
    requires
        d < 16,
    ensures
        c == hex_lower(d),
{
    if d < 10 {
        (48 + d) as char
    } else {
        (87 + d) as char
    }
}

/// The lower-case hexadecimal text of `bytes`.
pub fn hex_encode(bytes: &[u8]) -> (s: String)
    ensures
        s@ == hex_spec(bytes@),
        s@.len() == 2 * bytes@.len(),
{
    let mut s = String::new();
    let mut i: usize = 0;
    while i < bytes.len()
        invariant
            i <= bytes.len(),
            s@ == hex_spec(bytes@.take(i as int)),
            s@.len() == 2 * i,
        decreases bytes.len() - i,
    {
        let b = bytes[i];
        push_char(&mut s, hex_digit(b / 16));
        push_char(&mut s, hex_digit(b % 16));
        proof {
            assert(bytes@.take(i as int + 1) == bytes@.take(i as int).push(b));
            lemma_hex_push(bytes@.take(i as int), b);
            assert(s@ =~= hex_spec(bytes@.take(i as int)) + seq![hex_lower(b / 16), hex_lower(b % 16)]);
        }
        i = i + 1;
    }
    assert(bytes@.take(bytes.len() as int) == bytes@);
    s
}

/// The text under which a token is stored: the hexadecimal SHA-256 digest of
/// its UTF-8 bytes.
pub open spec fn token_hash_spec(token: Seq<char>) -> Seq<char> {
    hex_spec(spec_sha256(vstd::utf8::encode_utf8(token)))
}

/// A token, and the hash under which it is stored.
pub struct TokenPair {
    pub plain: String,
    pub hash: String,
}

impl TokenPair {
    /// A fresh random token (the text of a random UUID), with its hash.
    pub fn generate() -> (r: TokenPair)
        ensures
            is_uuid_v4_text(r.plain@),
            r.hash@ == token_hash_spec(r.plain@),
    {
        let plain = random_uuid_text();
        let hash = TokenPair::hash(plain.as_str());
        TokenPair { plain, hash }
    }

    /// The hash under which `token` is stored.
    pub fn hash(token: &str) -> (r: String)
        ensures
            r@ == token_hash_spec(token@),
            r@.len() == 64,
    {
        let digest = sha256(token.as_bytes());
        proof {
            assert(token.spec_bytes() == vstd::utf8::encode_utf8(token@));
        }
        hex_encode(digest.as_slice())
    }
}

/// A stored token is found again from the token handed out: hashing the plain
/// text of a generated pair gives the hash it was stored under.
pub proof fn law_generated_token_found_by_hash(pair: TokenPair, presented: Seq<char>)
    requires
        pair.hash@ == token_hash_spec(pair.plain@),
        presented == pair.plain@,
    ensures
        token_hash_spec(presented) == pair.hash@,
{
}

} // verus!
