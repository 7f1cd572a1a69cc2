//! Naming router infos in a reseed archive: an entry is named after the
//! I2P base64 SHA-256 hash of the router's identity.
use vstd::prelude::*;
use vstd::slice::slice_subrange;
use crate::digest::{base64_no_pad, in_base64_alphabet, lemma_base64_shape, encode_base64_no_pad, sha256, sha256_digest};
use crate::text::{chars_of, push_char};

verus! {

/// Why a router info cannot be named.
#[derive(Debug, Clone, PartialEq, Eq)]
pub enum RouterInfoError {
    /// Shorter than the fixed part of a router identity.
    TooShort,
    /// Shorter than the identity that its certificate length announces.
    TooShortForIdentity,
}

impl RouterInfoError {
    /// The text that describes the error.
    pub fn message(&self) -> (s: String)
        ensures
            s@ == match self {
                RouterInfoError::TooShort => "router.info too short"@,
                RouterInfoError::TooShortForIdentity => "router.info too short for identity"@,
            },
    {
        match self {
            RouterInfoError::TooShort => "router.info too short".to_owned(),
            RouterInfoError::TooShortForIdentity => "router.info too short for identity".to_owned(),
        }
    }
}

/// The length of the router identity at the start of a router info: the
/// fixed 387 bytes and the certificate whose length bytes 385 and 386 hold,
/// big-endian.
pub open spec fn identity_len(data: Seq<u8>) -> int {
    387 + data[385] as int * 256 + data[386] as int
}

/// I2P's base64 alphabet: `+` becomes `-` and `/` becomes `~`.
pub open spec fn i2p_alphabet(c: char) -> char {
    if c == '+' {
        '-'
    } else if c == '/' {
        '~'
    } else {
        c
    }
}

/// A standard base64 text in I2P's alphabet.
pub open spec fn to_i2p_base64(s: Seq<char>) -> Seq<char> {
    s.map_values(|c: char| i2p_alphabet(c))
}

/// The name of a router info: the I2P base64 SHA-256 hash of its identity,
/// or why there is none.
pub open spec fn router_info_name(data: Seq<u8>) -> Result<Seq<char>, RouterInfoError> {
    if data.len() < 387 {
        Err(RouterInfoError::TooShort)
    } else if data.len() < identity_len(data) {
        Err(RouterInfoError::TooShortForIdentity)
    } else {
        Ok(to_i2p_base64(base64_no_pad(sha256(data.take(identity_len(data))))))
    }
}

/// A router info's name is the standard unpadded base64 of its identity's
/// SHA-256, character by character, except that each `+` is written `-`
/// and each `/` is written `~`.
pub proof fn lemma_router_info_name_alphabet(data: Seq<u8>)
    requires
        router_info_name(data) is Ok,
    ensures
        ({
            let name = router_info_name(data)->Ok_0;
            let b = base64_no_pad(sha256(data.take(identity_len(data))));
            &&& name.len() == b.len()
            &&& forall|i: int|
                0 <= i < b.len() ==> {
                    &&& b[i] == '+' ==> #[trigger] name[i] == '-'
                    &&& b[i] == '/' ==> name[i] == '~'
                    &&& b[i] != '+' && b[i] != '/' ==> name[i] == b[i]
                }
        }),
{
}

/// The I2P base64 SHA-256 hash of the identity of a router info.
pub fn router_info_i2p_hash(data: &[u8]) -> (r: Result<String, RouterInfoError>)
    ensures
        match r {
            Ok(s) => router_info_name(data@) == Ok::<Seq<char>, RouterInfoError>(s@),
            Err(e) => router_info_name(data@) == Err::<Seq<char>, RouterInfoError>(e),
        },
        r matches Ok(s) ==> s@.len() == 43 && forall|i: int|
            0 <= i < s@.len() ==> #[trigger] s@[i] != '=' && s@[i] != '+' && s@[i] != '/',
{
    if data.len() < 387 {
        return Err(RouterInfoError::TooShort);
    }
    let cert_len = (data[385] as usize) * 256 + (data[386] as usize);
    let id_len = 387 + cert_len;
    if data.len() < id_len {
        return Err(RouterInfoError::TooShortForIdentity);
    }
    let identity = slice_subrange(data, 0, id_len);
    assert(identity@ =~= data@.take(identity_len(data@)));
    let hash = sha256_digest(identity);
    let b64 = encode_base64_no_pad(&hash);
    proof {
        lemma_base64_shape(hash@);
    }
    let cs = chars_of(b64.as_str());
    let mut out = String::new();
    let mut i: usize = 0;
    while i < cs.len()
        invariant
            0 <= i <= cs@.len(),
            out@ == to_i2p_base64(cs@.take(i as int)),
        decreases cs@.len() - i,
    {
        let c = cs[i];
        let d = if c == '+' {
            '-'
        } else if c == '/' {
            '~'
        } else {
            c
        };
        push_char(&mut out, d);
        i += 1;
        assert(out@ =~= to_i2p_base64(cs@.take(i as int)));
    }
    assert(cs@.take(cs@.len() as int) =~= cs@);
    assert forall|i: int| 0 <= i < out@.len() implies #[trigger] out@[i] != '=' && out@[i] != '+'
        && out@[i] != '/' by {
        assert(in_base64_alphabet(cs@[i]));
    }
    Ok(out)
}

/// The archive entry name of a router info with the given hash:
/// `routerInfo-{hash}.dat`.
pub fn reseed_entry_name(hash: &str) -> (name: String)
    ensures
        name@ == "routerInfo-"@ + hash@ + ".dat"@,
{
    let mut s = "routerInfo-".to_owned();
    s.append(hash);
    s.append(".dat");
    s
}

} // verus!
