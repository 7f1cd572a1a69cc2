//! Framing of datagrams and raw packets exchanged with a SAM bridge over
//! UDP.  Outgoing packets start with a header line naming the session and
//! the destination; incoming datagrams start with a line naming the
//! sender.
use vstd::prelude::*;
use vstd::utf8::{decode_utf8, valid_utf8};
use crate::error::{SamError, SamErrorView};
use crate::proto::command::{datagram_header, raw_header};
use crate::session::Destination;

verus! {

/// The largest datagram payload a bridge takes.
pub const MAX_DATAGRAM: usize = 31744;

/// The largest raw payload a bridge takes.
pub const MAX_RAW: usize = 32768;

/// `std::str::from_utf8`: the text that `bytes` encode when they are valid
/// UTF-8.  The contract claims what std documents: it succeeds exactly on
/// valid UTF-8, and the text decodes the bytes.
#[verifier::external_body]
fn utf8_text(bytes: &[u8]) -> (r: Option<String>)
    ensures
        r is Some <==> valid_utf8(bytes@),
        r matches Some(s) ==> s@ == decode_utf8(bytes@),
{
    match std::str::from_utf8(bytes) {
        Ok(s) => Some(s.to_owned()),
        Err(_) => None,
    }
}

pub(crate) fn extend_bytes(v: &mut Vec<u8>, s: &[u8])
    ensures
        final(v)@ == old(v)@ + s@,
{
    let mut i: usize = 0;
    while i < s.len()
        invariant
            0 <= i <= s@.len(),
            v@ == old(v)@ + s@.take(i as int),
        decreases s@.len() - i,
    {
        v.push(s[i]);
        i += 1;
        assert(v@ =~= old(v)@ + s@.take(i as int));
    }
    assert(s@.take(s@.len() as int) =~= s@);
}

/// The packet that sends `payload` to `dest` through the session `id`:
/// the header line `3.1 {id} {dest}` in UTF-8, then the payload.
pub open spec fn datagram_bytes(id: Seq<char>, dest: Seq<char>, payload: Seq<u8>) -> Seq<u8> {
    vstd::utf8::encode_utf8("3.1 "@ + id + " "@ + dest + "\n"@) + payload
}

/// The packet that sends raw `payload` to `dest` through the session `id`:
/// the header line `3.0 {id} {dest}` in UTF-8, then the payload.
pub open spec fn raw_bytes(id: Seq<char>, dest: Seq<char>, payload: Seq<u8>) -> Seq<u8> {
    vstd::utf8::encode_utf8("3.0 "@ + id + " "@ + dest + "\n"@) + payload
}

/// The packet for a datagram, or `DatagramTooLarge` when the payload is
/// longer than [`MAX_DATAGRAM`].
pub fn datagram_packet(id: &str, dest: &Destination, payload: &[u8]) -> (r: Result<Vec<u8>, SamError>)
    ensures
        match r {
            Ok(p) => payload@.len() <= 31744 && p@ == datagram_bytes(id@, dest@, payload@),
            Err(e) => payload@.len() > 31744 && e@ == (SamErrorView::DatagramTooLarge {
                max: 31744,
                got: payload@.len(),
            }),
        },
{
    if payload.len() > MAX_DATAGRAM {
        return Err(SamError::DatagramTooLarge { max: MAX_DATAGRAM, got: payload.len() });
    }
    let header = datagram_header(id, dest.as_str());
    let hb = header.as_str().as_bytes();
    let mut packet: Vec<u8> = Vec::new();
    extend_bytes(&mut packet, hb);
    extend_bytes(&mut packet, payload);
    assert(packet@ =~= datagram_bytes(id@, dest@, payload@));
    Ok(packet)
}

/// The packet for a raw payload, or `DatagramTooLarge` when the payload is
/// longer than [`MAX_RAW`].
pub fn raw_packet(id: &str, dest: &Destination, payload: &[u8]) -> (r: Result<Vec<u8>, SamError>)
    ensures
        match r {
            Ok(p) => payload@.len() <= 32768 && p@ == raw_bytes(id@, dest@, payload@),
            Err(e) => payload@.len() > 32768 && e@ == (SamErrorView::DatagramTooLarge {
                max: 32768,
                got: payload@.len(),
            }),
        },
{
    if payload.len() > MAX_RAW {
        return Err(SamError::DatagramTooLarge { max: MAX_RAW, got: payload.len() });
    }
    let header = raw_header(id, dest.as_str());
    let hb = header.as_str().as_bytes();
    let mut packet: Vec<u8> = Vec::new();
    extend_bytes(&mut packet, hb);
    extend_bytes(&mut packet, payload);
    assert(packet@ =~= raw_bytes(id@, dest@, payload@));
    Ok(packet)
}

/// `k` is where the first newline of `data` stands.
pub open spec fn first_newline(data: Seq<u8>, k: int) -> bool {
    &&& 0 <= k < data.len()
    &&& data[k] == 10
    &&& forall|j: int| 0 <= j < k ==> data[j] != 10
}

/// A datagram received from the bridge: its first line names the sender
/// and the rest is the payload.  A datagram without a newline is not one
/// the bridge sent, and is skipped (`None`); a sender line that is not
/// UTF-8 is an error.
pub fn parse_received_datagram(data: &[u8]) -> (r: Option<Result<(Destination, Vec<u8>), SamError>>)
    ensures
        (forall|k: int| 0 <= k < data@.len() ==> data@[k] != 10) <==> r is None,
        r matches Some(res) ==> exists|k: int|
            #![trigger first_newline(data@, k)]
            first_newline(data@, k) && match res {
                Ok((d, p)) => valid_utf8(data@.take(k)) && d@ == decode_utf8(data@.take(k))
                    && p@ == data@.skip(k + 1),
                Err(e) => !valid_utf8(data@.take(k)) && e@ == SamErrorView::UnexpectedResponse(
                    "invalid utf8 in datagram header"@,
                ),
            },
{
    let mut k: usize = 0;
    while k < data.len() && data[k] != 10
        invariant
            0 <= k <= data@.len(),
            forall|j: int| 0 <= j < k ==> data@[j] != 10,
        decreases data@.len() - k,
    {
        k += 1;
    }
    if k == data.len() {
        return None;
    }
    assert(first_newline(data@, k as int));
    let header = vstd::slice::slice_subrange(data, 0, k);
    assert(header@ =~= data@.take(k as int));
    match utf8_text(header) {
        None => Some(Err(SamError::UnexpectedResponse("invalid utf8 in datagram header".to_owned()))),
        Some(sender) => {
            let mut payload: Vec<u8> = Vec::new();
            let rest = vstd::slice::slice_subrange(data, k + 1, data.len());
            extend_bytes(&mut payload, rest);
            assert(payload@ =~= data@.skip(k + 1));
            Some(Ok((Destination::new(sender.as_str()), payload)))
        },
    }
}

} // verus!
