//! The test payload: a deterministic byte stream given by its size and a
//! seed, its SHA-256 digest, and the size header that frames it on the
//! wire.
use vstd::prelude::*;
use crate::datagram::extend_bytes;
use crate::digest::{sha256, sha256_digest};

verus! {

/// The byte at position `pos` of the payload made with `seed`.
pub open spec fn payload_byte(pos: int, seed: int) -> u8 {
    ((pos * seed + pos) % 256) as u8
}

/// The first `n` bytes of the payload made with `seed`.
pub open spec fn payload_bytes(n: nat, seed: int) -> Seq<u8> {
    Seq::new(n, |i: int| payload_byte(i, seed))
}

/// Computing a payload byte stays within `i64`: `pos * seed` and
/// `pos * seed + pos` fit for every position before `size`.
pub open spec fn payload_fits(size: int, seed: int) -> bool {
    size <= 0 || {
        &&& i64::MIN <= (size - 1) * seed <= i64::MAX
        &&& i64::MIN <= (size - 1) * (seed + 1) <= i64::MAX
    }
}

proof fn lemma_fits_at(size: int, seed: int, pos: int)
    requires
        payload_fits(size, seed),
        0 <= pos < size,
    ensures
        i64::MIN <= pos * seed <= i64::MAX,
        i64::MIN <= pos * seed + pos <= i64::MAX,
{
    assert(pos * seed + pos == pos * (seed + 1)) by (nonlinear_arith);
    if seed >= 0 {
        assert(0 <= pos * seed <= (size - 1) * seed) by (nonlinear_arith)
            requires
                0 <= pos < size,
                seed >= 0,
        ;
        assert(0 <= pos * (seed + 1) <= (size - 1) * (seed + 1)) by (nonlinear_arith)
            requires
                0 <= pos < size,
                seed >= 0,
        ;
    } else {
        assert((size - 1) * seed <= pos * seed <= 0) by (nonlinear_arith)
            requires
                0 <= pos < size,
                seed < 0,
        ;
        assert((size - 1) * (seed + 1) <= pos * (seed + 1) <= 0) by (nonlinear_arith)
            requires
                0 <= pos < size,
                seed < 0,
        ;
    }
}

/// Whether `payload_fits(size, seed)` holds, that is whether a reader of
/// `size` bytes with `seed` computes every byte without overflow.
pub fn payload_fits_check(size: i64, seed: i64) -> (r: bool)
    ensures
        r == payload_fits(size as int, seed as int),
{
    if size <= 0 {
        return true;
    }
    let a: i128 = (size as i128) - 1;
    let s: i128 = seed as i128;
    assert(0 <= a < 0x8000_0000_0000_0000);
    assert(-0x8000_0000_0000_0000 <= s < 0x8000_0000_0000_0000);
    assert(-0x4000_0000_0000_0000_0000_0000_0000_0000 <= a * s
        <= 0x4000_0000_0000_0000_0000_0000_0000_0000) by (nonlinear_arith)
        requires
            0 <= a < 0x8000_0000_0000_0000,
            -0x8000_0000_0000_0000 <= s < 0x8000_0000_0000_0000,
    ;
    assert(-0x4000_0000_0000_0000_0000_0000_0000_0000 <= a * (s + 1)
        <= 0x4000_0000_0000_0000_0000_0000_0000_0000) by (nonlinear_arith)
        requires
            0 <= a < 0x8000_0000_0000_0000,
            -0x8000_0000_0000_0000 <= s < 0x8000_0000_0000_0000,
    ;
    let p1: i128 = a * s;
    let p2: i128 = a * (s + 1);
    let lo: i128 = i64::MIN as i128;
    let hi: i128 = i64::MAX as i128;
    lo <= p1 && p1 <= hi && lo <= p2 && p2 <= hi
}

/// Consecutive reads give consecutive parts of the payload: the bytes read
/// from position `p0` to `p1`, followed by those read from `p1` to `p2`,
/// are the bytes from `p0` to `p2`.
pub proof fn lemma_reads_concatenate(seed: int, p0: nat, p1: nat, p2: nat)
    requires
        p0 <= p1 <= p2,
    ensures
        payload_bytes(p1, seed).skip(p0 as int) + payload_bytes(p2, seed).skip(p1 as int)
            == payload_bytes(p2, seed).skip(p0 as int),
{
    assert(payload_bytes(p1, seed).skip(p0 as int) + payload_bytes(p2, seed).skip(p1 as int)
        =~= payload_bytes(p2, seed).skip(p0 as int));
}

/// Reads out the payload of a given size made with a given seed.
pub struct PayloadReader {
    size: i64,
    seed: i64,
    pos: i64,
}

/// A payload reader as its size, seed and the number of bytes read so far.
pub struct PayloadReaderView {
    pub size: int,
    pub seed: int,
    pub pos: int,
}

impl View for PayloadReader {
    type V = PayloadReaderView;

    closed spec fn view(&self) -> PayloadReaderView {
        PayloadReaderView { size: self.size as int, seed: self.seed as int, pos: self.pos as int }
    }
}

impl PayloadReader {
    /// A reader at the start of the payload of `size` bytes made with
    /// `seed`.
    pub fn new(size: i64, seed: i64) -> (r: Self)
        ensures
            r@ == (PayloadReaderView { size: size as int, seed: seed as int, pos: 0 }),
    {
        PayloadReader { size, seed, pos: 0 }
    }

    /// Fills the front of `buf` with the next bytes of the payload, as many
    /// as fit and remain, and gives their number; 0 once the payload is
    /// exhausted.
    pub fn read(&mut self, buf: &mut [u8]) -> (n: usize)
        requires
            payload_fits(old(self)@.size, old(self)@.seed),
            old(self)@.pos >= 0,
        ensures
            final(self)@.size == old(self)@.size,
            final(self)@.seed == old(self)@.seed,
            old(self)@.pos >= old(self)@.size ==> n == 0 && final(self)@.pos == old(self)@.pos,
            old(self)@.pos < old(self)@.size ==> n as int == if old(buf)@.len() < old(self)@.size
                - old(self)@.pos {
                old(buf)@.len() as int
            } else {
                old(self)@.size - old(self)@.pos
            },
            final(self)@.pos == old(self)@.pos + n,
            final(buf)@.len() == old(buf)@.len(),
            final(buf)@.take(n as int) == payload_bytes(
                final(self)@.pos as nat,
                old(self)@.seed,
            ).skip(old(self)@.pos),
            final(buf)@.skip(n as int) == old(buf)@.skip(n as int),
    {
        if self.pos >= self.size {
            assert(buf@.take(0) =~= payload_bytes(self.pos as nat, self.seed as int).skip(
                self.pos as int,
            ));
            assert(buf@.skip(0) == old(buf)@.skip(0));
            return 0;
        }
        let start = self.pos;
        let mut n: usize = 0;
        while n < buf.len() && self.pos < self.size
            invariant
                0 <= start <= self.pos <= self.size,
                self.pos == start + n,
                self.size == old(self)@.size,
                self.seed == old(self)@.seed,
                start == old(self)@.pos,
                payload_fits(self.size as int, self.seed as int),
                buf@.len() == old(buf)@.len(),
                n <= buf@.len(),
                forall|i: int| 0 <= i < n ==> buf@[i] == payload_byte(start + i, self.seed as int),
                forall|i: int| n <= i < buf@.len() ==> buf@[i] == old(buf)@[i],
            decreases buf@.len() - n,
        {
            proof {
                lemma_fits_at(self.size as int, self.seed as int, self.pos as int);
            }
            let v: i64 = self.pos * self.seed + self.pos;
            let mut m: i64 = v % 256;
            if m < 0 {
                m = m + 256;
            }
            let b = m as u8;
            assert(b == payload_byte(self.pos as int, self.seed as int));
            buf[n] = b;
            self.pos = self.pos + 1;
            n += 1;
        }
        assert(buf@.take(n as int) =~= payload_bytes(self.pos as nat, self.seed as int).skip(
            start as int,
        ));
        assert(buf@.skip(n as int) =~= old(buf)@.skip(n as int));
        n
    }
}

/// The whole payload of `size` bytes made with `seed`.
pub fn payload(size: i64, seed: i64) -> (p: Vec<u8>)
    requires
        payload_fits(size as int, seed as int),
        size < 0x1000_0000_0000,
    ensures
        p@ == payload_bytes(if size < 0 { 0 } else { size as nat }, seed as int),
{
    let mut p: Vec<u8> = Vec::new();
    let mut pos: i64 = 0;
    while pos < size
        invariant
            0 <= pos,
            pos <= if size < 0 {
                0
            } else {
                size
            },
            payload_fits(size as int, seed as int),
            p@ == payload_bytes(pos as nat, seed as int),
        decreases size - pos,
    {
        proof {
            lemma_fits_at(size as int, seed as int, pos as int);
        }
        let v: i64 = pos * seed + pos;
        let mut m: i64 = v % 256;
        if m < 0 {
            m = m + 256;
        }
        let b = m as u8;
        assert(b == payload_byte(pos as int, seed as int));
        let ghost before = p@;
        p.push(b);
        assert(p@ == before.push(b));
        pos = pos + 1;
        assert(p@ =~= payload_bytes(pos as nat, seed as int));
    }
    assert(p@ =~= payload_bytes(if size < 0 { 0 } else { size as nat }, seed as int));
    p
}

/// The SHA-256 digest of the payload of `size` bytes made with `seed`, the
/// one a receiver checks the transfer against.
pub fn expected_sha256(size: i64, seed: i64) -> (d: [u8; 32])
    requires
        payload_fits(size as int, seed as int),
        size < 0x1000_0000_0000,
    ensures
        d@ == sha256(payload_bytes(if size < 0 { 0 } else { size as nat }, seed as int)),
{
    let p = payload(size, seed);
    sha256_digest(p.as_slice())
}

/// The big-endian bytes of `n`, most significant first.
pub open spec fn be_bytes(n: u64) -> Seq<u8> {
    seq![
        (n >> 56u64) as u8,
        ((n >> 48u64) & 0xff) as u8,
        ((n >> 40u64) & 0xff) as u8,
        ((n >> 32u64) & 0xff) as u8,
        ((n >> 24u64) & 0xff) as u8,
        ((n >> 16u64) & 0xff) as u8,
        ((n >> 8u64) & 0xff) as u8,
        (n & 0xff) as u8,
    ]
}

/// The header that goes before a payload: its size as eight big-endian
/// bytes.
pub fn size_header(size: u64) -> (h: [u8; 8])
    ensures
        h@ == be_bytes(size),
{
    let h = [
        (size >> 56u64) as u8,
        ((size >> 48u64) & 0xff) as u8,
        ((size >> 40u64) & 0xff) as u8,
        ((size >> 32u64) & 0xff) as u8,
        ((size >> 24u64) & 0xff) as u8,
        ((size >> 16u64) & 0xff) as u8,
        ((size >> 8u64) & 0xff) as u8,
        (size & 0xff) as u8,
    ];
    assert(h@ =~= be_bytes(size));
    h
}

/// The number that eight big-endian bytes hold.
pub open spec fn be_value(b: Seq<u8>) -> u64 {
    ((b[0] as u64) << 56u64) | ((b[1] as u64) << 48u64) | ((b[2] as u64) << 40u64) | ((
    b[3] as u64) << 32u64) | ((b[4] as u64) << 24u64) | ((b[5] as u64) << 16u64) | ((
    b[6] as u64) << 8u64) | (b[7] as u64)
}

/// The size that a payload header holds.
pub fn size_from_header(h: &[u8; 8]) -> (n: u64)
    ensures
        n == be_value(h@),
{
    ((h[0] as u64) << 56u64) | ((h[1] as u64) << 48u64) | ((h[2] as u64) << 40u64) | ((
    h[3] as u64) << 32u64) | ((h[4] as u64) << 24u64) | ((h[5] as u64) << 16u64) | ((
    h[6] as u64) << 8u64) | (h[7] as u64)
}

/// Reading the header written for a size gives the size back.
pub proof fn lemma_size_header_roundtrip(n: u64)
    ensures
        be_value(be_bytes(n)) == n,
{
    let b = be_bytes(n);
    let b0 = (n >> 56u64) as u8;
    let b1 = ((n >> 48u64) & 0xff) as u8;
    let b2 = ((n >> 40u64) & 0xff) as u8;
    let b3 = ((n >> 32u64) & 0xff) as u8;
    let b4 = ((n >> 24u64) & 0xff) as u8;
    let b5 = ((n >> 16u64) & 0xff) as u8;
    let b6 = ((n >> 8u64) & 0xff) as u8;
    let b7 = (n & 0xff) as u8;
    assert(b[0] == b0 && b[1] == b1 && b[2] == b2 && b[3] == b3 && b[4] == b4 && b[5] == b5
        && b[6] == b6 && b[7] == b7);
    assert(((b0 as u64) << 56u64) | ((b1 as u64) << 48u64) | ((b2 as u64) << 40u64) | ((
    b3 as u64) << 32u64) | ((b4 as u64) << 24u64) | ((b5 as u64) << 16u64) | ((
    b6 as u64) << 8u64) | (b7 as u64) == n) by (bit_vector)
        requires
            b0 == (n >> 56u64) as u8,
            b1 == ((n >> 48u64) & 0xff) as u8,
            b2 == ((n >> 40u64) & 0xff) as u8,
            b3 == ((n >> 32u64) & 0xff) as u8,
            b4 == ((n >> 24u64) & 0xff) as u8,
            b5 == ((n >> 16u64) & 0xff) as u8,
            b6 == ((n >> 8u64) & 0xff) as u8,
            b7 == (n & 0xff) as u8,
    ;
}

/// Whether two digests agree.
pub fn digests_match(a: &[u8; 32], b: &[u8; 32]) -> (r: bool)
    ensures
        r == (a@ == b@),
{
    let mut i: usize = 0;
    while i < 32
        invariant
            0 <= i <= 32,
            a@.len() == 32,
            b@.len() == 32,
            forall|j: int| 0 <= j < i ==> a@[j] == b@[j],
        decreases 32 - i,
    {
        if a[i] != b[i] {
            return false;
        }
        i += 1;
    }
    assert(a@ =~= b@);
    true
}

/// Whether the digest a sender sent after a payload is the SHA-256 of the
/// payload that arrived.
pub fn payload_digest_ok(payload: &[u8], sender_sum: &[u8; 32]) -> (ok: bool)
    ensures
        ok == (sender_sum@ == sha256(payload@)),
{
    let mine = sha256_digest(payload);
    digests_match(sender_sum, &mine)
}

/// A payload framed for the stream: its length as eight big-endian bytes,
/// the payload, then its SHA-256.
pub fn frame(payload: &[u8]) -> (f: Vec<u8>)
    requires
        payload@.len() <= u64::MAX,
    ensures
        f@ == be_bytes(payload@.len() as u64) + payload@ + sha256(payload@),
{
    let header = size_header(payload.len() as u64);
    let sum = sha256_digest(payload);
    let mut f: Vec<u8> = Vec::new();
    extend_bytes(&mut f, &header);
    extend_bytes(&mut f, payload);
    extend_bytes(&mut f, &sum);
    f
}

} // verus!
