use sam3::payload::{
    digests_match, expected_sha256, frame, payload, payload_digest_ok, size_from_header, size_header, PayloadReader,
};
use sha2::{Digest, Sha256};

fn read_all(reader: &mut PayloadReader, chunk: usize) -> Vec<u8> {
    let mut out = Vec::new();
    let mut buf = vec![0u8; chunk];
    loop {
        let n = reader.read(&mut buf);
        if n == 0 {
            break;
        }
        out.extend_from_slice(&buf[..n]);
    }
    out
}

#[test]
fn payload_reader_is_deterministic() {
    let mut reader = PayloadReader::new(8, 42);
    let buf = read_all(&mut reader, 4096);

    assert_eq!(buf, vec![0, 43, 86, 129, 172, 215, 2, 45]);
}

#[test]
fn expected_sha256_matches_generated_payload() {
    let mut reader = PayloadReader::new(1024, 42);
    let bytes = read_all(&mut reader, 4096);

    let actual: [u8; 32] = Sha256::digest(&bytes).into();

    assert_eq!(expected_sha256(1024, 42), actual);
}

#[test]
fn chunking_does_not_change_the_payload() {
    let whole = payload(1000, 7);
    for chunk in [1usize, 3, 64, 999, 1000, 5000] {
        let mut r = PayloadReader::new(1000, 7);
        assert_eq!(read_all(&mut r, chunk), whole);
    }
    assert!(payload(0, 5).is_empty());
    assert!(payload(-4, 5).is_empty());
    let mut r = PayloadReader::new(3, -5);
    // (pos * -5 + pos) mod 256 for pos 0, 1, 2
    assert_eq!(read_all(&mut r, 2), vec![0, 252, 248]);
    let mut empty: [u8; 0] = [];
    let mut r = PayloadReader::new(3, 1);
    assert_eq!(r.read(&mut empty), 0);
}

#[test]
fn size_header_is_big_endian_and_reads_back() {
    assert_eq!(size_header(0x0102_0304_0506_0708), [1, 2, 3, 4, 5, 6, 7, 8]);
    for n in [0u64, 1, 255, 256, 1 << 20, u64::MAX] {
        assert_eq!(size_from_header(&size_header(n)), n);
        assert_eq!(size_header(n), n.to_be_bytes());
    }
}

#[test]
fn digests_compare_bytewise() {
    let a = expected_sha256(10, 1);
    let mut b = a;
    assert!(digests_match(&a, &b));
    b[31] ^= 1;
    assert!(!digests_match(&a, &b));
}

#[test]
fn frame_is_size_payload_digest() {
    let data = payload(100, 42);
    let f = frame(&data);
    assert_eq!(f.len(), 8 + 100 + 32);
    assert_eq!(&f[..8], &[0, 0, 0, 0, 0, 0, 0, 100]);
    assert_eq!(&f[8..108], &data[..]);
    let sum: [u8; 32] = Sha256::digest(&data).into();
    assert_eq!(&f[108..], &sum[..]);
}

#[test]
fn payload_digest_check() {
    let data = payload(64, 7);
    let sum: [u8; 32] = Sha256::digest(&data).into();
    assert!(payload_digest_ok(&data, &sum));
    let mut bad = sum;
    bad[0] ^= 1;
    assert!(!payload_digest_ok(&data, &bad));
    assert!(!payload_digest_ok(&data[..63], &sum));
}
