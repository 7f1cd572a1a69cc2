//! SHA-256 and base64, as the `sha2` and `base64` crates compute them.
use vstd::prelude::*;
use base64::Engine;
use sha2::Digest;

verus! {

/// The SHA-256 digest of `data`, as `sha2::Sha256::digest` computes it.
pub uninterp spec fn sha256(data: Seq<u8>) -> Seq<u8>;

/// The character of a six-bit value in the standard base64 alphabet
/// (`A`-`Z`, `a`-`z`, `0`-`9`, `+`, `/`).
pub open spec fn base64_char(v: int) -> char {
    if v < 26 {
        (65 + v) as char
    } else if v < 52 {
        (97 + (v - 26)) as char
    } else if v < 62 {
        (48 + (v - 52)) as char
    } else if v == 62 {
        '+'
    } else {
        '/'
    }
}

/// The standard base64 encoding of `data` without `=` padding: every three
/// bytes become four characters of six bits each, and a final one or two
/// bytes become two or three characters, their last bits zero.
pub open spec fn base64_no_pad(data: Seq<u8>) -> Seq<char>
    decreases data.len(),
{
    let b0 = if data.len() > 0 { data[0] as int } else { 0 };
    let b1 = if data.len() > 1 { data[1] as int } else { 0 };
    let b2 = if data.len() > 2 { data[2] as int } else { 0 };
    if data.len() == 0 {
        Seq::empty()
    } else if data.len() == 1 {
        seq![base64_char(b0 / 4), base64_char((b0 % 4) * 16)]
    } else if data.len() == 2 {
        seq![base64_char(b0 / 4), base64_char((b0 % 4) * 16 + b1 / 16), base64_char((b1 % 16) * 4)]
    } else {
        seq![
            base64_char(b0 / 4),
            base64_char((b0 % 4) * 16 + b1 / 16),
            base64_char((b1 % 16) * 4 + b2 / 64),
            base64_char(b2 % 64),
        ] + base64_no_pad(data.skip(3))
    }
}

/// `c` is a character of the standard base64 alphabet.
pub open spec fn in_base64_alphabet(c: char) -> bool {
    ('A' <= c && c <= 'Z') || ('a' <= c && c <= 'z') || ('0' <= c && c <= '9') || c == '+'
        || c == '/'
}

proof fn lemma_base64_char(v: int)
    requires
        0 <= v < 64,
    ensures
        in_base64_alphabet(base64_char(v)),
{
}

/// The unpadded base64 text of `n` bytes has `(4n + 2) / 3` characters, all
/// of the standard alphabet.
pub proof fn lemma_base64_shape(data: Seq<u8>)
    ensures
        base64_no_pad(data).len() == (4 * data.len() + 2) / 3,
        forall|i: int|
            0 <= i < base64_no_pad(data).len() ==> in_base64_alphabet(
                #[trigger] base64_no_pad(data)[i],
            ),
    decreases data.len(),
{
    if data.len() == 0 {
    } else {
        let b0 = data[0] as int;
        let b1 = if data.len() > 1 { data[1] as int } else { 0 };
        let b2 = if data.len() > 2 { data[2] as int } else { 0 };
        lemma_base64_char(b0 / 4);
        lemma_base64_char((b0 % 4) * 16);
        lemma_base64_char((b0 % 4) * 16 + b1 / 16);
        lemma_base64_char((b1 % 16) * 4);
        lemma_base64_char((b1 % 16) * 4 + b2 / 64);
        lemma_base64_char(b2 % 64);
        if data.len() > 2 {
            lemma_base64_shape(data.skip(3));
        }
    }
}

/// `sha2::Sha256::digest`: the SHA-256 digest of `data`.  The contract
/// claims that the 32 bytes are the digest that `sha256` names for exactly
/// these bytes; that they are SHA-256 is not proved here.
#[verifier::external_body]
pub(crate) fn sha256_digest(data: &[u8]) -> (d: [u8; 32])
    ensures
        d@ == sha256(data@),
{
    sha2::Sha256::digest(data).into()
}

/// `Engine::encode` of `STANDARD_NO_PAD`: the base64 text of `data` with the
/// standard alphabet and no padding.  The contract claims that the text is
/// the encoding that `base64_no_pad` spells out.  The crate panics only
/// when the length of the encoding overflows `usize`, which the bound on
/// the input rules out.
#[verifier::external_body]
pub(crate) fn encode_base64_no_pad(data: &[u8]) -> (s: String)
    requires
        data@.len() <= 0x1000_0000,
    ensures
        s@ == base64_no_pad(data@),
{
    base64::engine::general_purpose::STANDARD_NO_PAD.encode(data)
}

} // verus!
