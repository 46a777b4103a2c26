//! Size and SHA-256 checksum of an artifact, computed chunk by chunk.
//!
//! The hash itself is the work of the `sha2` crate and the hexadecimal
//! text that of `data_encoding`; what is proved here is what is fed to the
//! one and what is made of its answer.

use vstd::prelude::*;

verus! {

/// The SHA-256 hasher of the `sha2` crate, carried as an opaque value.
#[verifier::external_type_specification]
#[verifier::external_body]
pub struct ExSha256(sha2::Sha256);

/// The SHA-256 hash of `data`, as `sha2` computes it.
pub uninterp spec fn sha256(data: Seq<u8>) -> Seq<u8>;

/// The bytes that a hasher has taken in so far, in order.
pub uninterp spec fn absorbed(hasher: sha2::Sha256) -> Seq<u8>;

/// The digit of `n` in lower-case hexadecimal.
pub open spec fn hex_digit(n: int) -> char {
    if n == 0 {
        '0'
    } else if n == 1 {
        '1'
    } else if n == 2 {
        '2'
    } else if n == 3 {
        '3'
    } else if n == 4 {
        '4'
    } else if n == 5 {
        '5'
    } else if n == 6 {
        '6'
    } else if n == 7 {
        '7'
    } else if n == 8 {
        '8'
    } else if n == 9 {
        '9'
    } else if n == 10 {
        'a'
    } else if n == 11 {
        'b'
    } else if n == 12 {
        'c'
    } else if n == 13 {
        'd'
    } else if n == 14 {
        'e'
    } else {
        'f'
    }
}

/// Lower-case hexadecimal: two digits for each byte, the high half first.
pub open spec fn hex_lower(bytes: Seq<u8>) -> Seq<char> {
    Seq::new(
        2 * bytes.len(),
        |i: int|
            if i % 2 == 0 {
                hex_digit(bytes[i / 2] as int / 16)
            } else {
                hex_digit(bytes[i / 2] as int % 16)
            },
    )
}

/// The size of `bytes` and their checksum as text.
pub open spec fn digest_of(bytes: Seq<u8>) -> (int, Seq<char>) {
    (bytes.len() as int, hex_lower(sha256(bytes)))
}

/// Calls `Sha256::new` of `sha2` (through its `Digest` trait): the hasher
/// that it returns has taken in nothing.
#[verifier::external_body]
fn hasher_new() -> (hasher: sha2::Sha256)
    ensures
        absorbed(hasher) == Seq::<u8>::empty(),
{
    <sha2::Sha256 as sha2::Digest>::new()
}

/// Calls `Digest::update` of `sha2`: the hasher takes in `data` after what
/// it held.
#[verifier::external_body]
fn hasher_update(hasher: &mut sha2::Sha256, data: &[u8])
    ensures
        absorbed(*final(hasher)) == absorbed(*old(hasher)) + data@,
{
    sha2::Digest::update(hasher, data);
}

/// Calls `Digest::finalize` of `sha2`: the bytes that it returns are the
/// SHA-256 hash of all that the hasher took in, and there are 32 of them.
#[verifier::external_body]
fn hasher_finalize(hasher: sha2::Sha256) -> (hash: Vec<u8>)
    ensures
        hash@ == sha256(absorbed(hasher)),
        hash@.len() == 32,
{
    sha2::Digest::finalize(hasher).to_vec()
}

/// Calls `HEXLOWER.encode` of `data_encoding`: the text holds two
/// lower-case hexadecimal digits for each byte, in order, and nothing else.
#[verifier::external_body]
fn hex_encode(bytes: &[u8]) -> (text: String)
    ensures
        text@ == hex_lower(bytes@),
{
    data_encoding::HEXLOWER.encode(bytes)
}

/// A digest in progress: it is fed the artifact in chunks of any size and
/// keeps none of them.
pub struct Digest {
    hasher: sha2::Sha256,
    size: u64,
}

impl Digest {
    /// All the bytes fed so far.
    pub closed spec fn input(&self) -> Seq<u8> {
        absorbed(self.hasher)
    }

    /// The count kept is the number of bytes fed.
    pub closed spec fn wf(&self) -> bool {
        self.size == absorbed(self.hasher).len()
    }

    /// A digest that has been fed nothing.
    pub fn new() -> (d: Digest)
        ensures
            d.wf(),
            d.input() == Seq::<u8>::empty(),
    {
        Digest { hasher: hasher_new(), size: 0 }
    }

    /// Feeds one more chunk. The total must stay countable in 64 bits.
    pub fn update(&mut self, chunk: &[u8])
        requires
            old(self).wf(),
            old(self).input().len() + chunk@.len() <= u64::MAX,
        ensures
            final(self).wf(),
            final(self).input() == old(self).input() + chunk@,
    {
        hasher_update(&mut self.hasher, chunk);
        self.size = self.size + chunk.len() as u64;
    }

    /// The number of bytes fed so far.
    pub fn size(&self) -> (r: u64)
        requires
            self.wf(),
        ensures
            r == self.input().len(),
    {
        self.size
    }

    /// The number of bytes fed, and their checksum in lower-case
    /// hexadecimal, which has 64 digits.
    pub fn finalize(self) -> (r: (u64, String))
        requires
            self.wf(),
        ensures
            (r.0 as int, r.1@) == digest_of(self.input()),
            r.1@.len() == 64,
    {
        let size = self.size;
        let hash = hasher_finalize(self.hasher);
        (size, hex_encode(hash.as_slice()))
    }
}

/// The digest depends on the bytes alone: equal inputs have equal sizes
/// and equal checksums.
pub proof fn lemma_digest_deterministic(a: Seq<u8>, b: Seq<u8>)
    requires
        a =~= b,
    ensures
        digest_of(a) == digest_of(b),
{
}

/// The digest of no bytes has size 0, and its checksum is that of the
/// empty input.
pub proof fn lemma_digest_of_nothing()
    ensures
        digest_of(Seq::<u8>::empty()) == (0int, hex_lower(sha256(Seq::<u8>::empty()))),
{
}

} // verus!
