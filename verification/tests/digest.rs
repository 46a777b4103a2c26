use goki::digest::Digest;
use goki::utils::{digest_report, sha256_digest};

#[test]
fn digest_of_nothing_is_the_checksum_of_the_empty_input() {
    let (size, checksum) = sha256_digest(&[]);
    assert_eq!(size, 0);
    assert_eq!(
        checksum,
        "e3b0c44298fc1c149afbf4c8996fb92427ae41e4649b934ca495991b7852b855"
    );
    assert_eq!(Digest::new().finalize(), (size, checksum));
}

#[test]
fn digest_of_abc() {
    let (size, checksum) = sha256_digest(b"abc");
    assert_eq!(size, 3);
    assert_eq!(
        checksum,
        "ba7816bf8f01cfea414140de5dae2223b00361a396177a9cb410ff61f20015ad"
    );
}

#[test]
fn digest_of_two_blocks() {
    let (size, checksum) =
        sha256_digest(b"abcdbcdecdefdefgefghfghighijhijkijkljklmklmnlmnomnopnopq");
    assert_eq!(size, 56);
    assert_eq!(
        checksum,
        "248d6a61d20638b8e5c026930c3e6039a33ce45964ff2167f6ecedd419db06c1"
    );
}

#[test]
fn digest_is_the_same_for_the_same_bytes() {
    let bytes: Vec<u8> = (0..=255u8).collect();
    let copy = bytes.clone();
    assert_eq!(sha256_digest(&bytes), sha256_digest(&copy));
    assert_eq!(sha256_digest(&bytes).0, 256);
    assert_ne!(sha256_digest(&bytes).1, sha256_digest(&bytes[1..]).1);
}

#[test]
fn digest_does_not_depend_on_the_chunks() {
    let mut digest = Digest::new();
    digest.update(b"a");
    digest.update(b"");
    digest.update(b"bc");
    assert_eq!(digest.finalize(), sha256_digest(b"abc"));

    let bytes: Vec<u8> = (0..10_000u32).map(|i| (i % 251) as u8).collect();
    let mut digest = Digest::new();
    for chunk in bytes.chunks(97) {
        digest.update(chunk);
    }
    assert_eq!(digest.finalize(), sha256_digest(&bytes));
}

#[test]
fn checksum_is_lower_case_hexadecimal_of_32_bytes() {
    let (_, checksum) = sha256_digest(b"The quick brown fox jumps over the lazy dog");
    assert_eq!(
        checksum,
        "d7a8fbb307d7809469ca9abcb0082e4f8d5651e46d3cdb762d02d0bf37c9e592"
    );
    assert_eq!(checksum.len(), 64);
    assert!(checksum
        .chars()
        .all(|c| c.is_ascii_digit() || ('a'..='f').contains(&c)));
}

#[test]
fn digest_is_reported_in_three_lines() {
    assert_eq!(
        digest_report(&None, 3, "ba78"),
        vec!["Program buffer downloaded.", "Size (bytes): 3", "SHA256: ba78"]
    );
    assert_eq!(
        digest_report(&Some("out/a.so".to_string()), 18446744073709551615, "00"),
        vec![
            "Program buffer downloaded to out/a.so.",
            "Size (bytes): 18446744073709551615",
            "SHA256: 00"
        ]
    );
}

#[test]
fn checksum_has_64_digits_whatever_the_input() {
    for bytes in [&b""[..], &b"a"[..], &[0u8; 1000][..]] {
        assert_eq!(sha256_digest(bytes).1.len(), 64);
    }
}

#[test]
fn size_counts_the_bytes_fed() {
    let mut digest = Digest::new();
    assert_eq!(digest.size(), 0);
    digest.update(b"abc");
    digest.update(b"de");
    assert_eq!(digest.size(), 5);
    assert_eq!(digest.finalize().0, 5);
}
