//! SHA-256 digests of what is downloaded.
use vstd::prelude::*;
use sha2::Digest;
use crate::text::push_char;

verus! {

#[verifier::external_type_specification]
#[verifier::external_body]
pub struct ExSha256(sha2::Sha256);

/// The bytes that were fed to a hasher, in order.
pub uninterp spec fn hashed(hasher: sha2::Sha256) -> Seq<u8>;

/// The SHA-256 digest of `data`.
pub uninterp spec fn sha256(data: Seq<u8>) -> Seq<u8>;

/// A hasher that has been fed nothing.
///
/// Trusted: wraps `sha2::Sha256::new` (the `Digest` trait).
#[verifier::external_body]
fn hasher_new() -> (hasher: sha2::Sha256)
    ensures
        hashed(hasher) == Seq::<u8>::empty(),
{
    sha2::Sha256::new()
}

/// Feeds `data` to `hasher`.
///
/// Trusted: wraps `Digest::update`, which processes `data` after what was
/// processed before.
#[verifier::external_body]
fn hasher_update(hasher: &mut sha2::Sha256, data: &[u8])
    ensures
        hashed(*final(hasher)) == hashed(*old(hasher)) + data@,
{
    hasher.update(data)
}

/// The digest of what `hasher` has been fed.
///
/// Trusted: wraps `Digest::finalize` on a copy of the hasher; the result is
/// the SHA-256 digest of the bytes fed so far, which has 32 bytes.
#[verifier::external_body]
fn hasher_digest(hasher: &sha2::Sha256) -> (out: Vec<u8>)
    ensures
        out@ == sha256(hashed(*hasher)),
        out@.len() == 32,
{
    hasher.clone().finalize().to_vec()
}

/// The hexadecimal digit for `d`, in lower case.
pub open spec fn hex_digit(d: int) -> char {
    if d == 0 {
        '0'
    } else if d == 1 {
        '1'
    } else if d == 2 {
        '2'
    } else if d == 3 {
        '3'
    } else if d == 4 {
        '4'
    } else if d == 5 {
        '5'
    } else if d == 6 {
        '6'
    } else if d == 7 {
        '7'
    } else if d == 8 {
        '8'
    } else if d == 9 {
        '9'
    } else if d == 10 {
        'a'
    } else if d == 11 {
        'b'
    } else if d == 12 {
        'c'
    } else if d == 13 {
        'd'
    } else if d == 14 {
        'e'
    } else {
        'f'
    }
}

/// The bytes `data` in hexadecimal: two digits in lower case for each.
pub open spec fn hex_text(data: Seq<u8>) -> Seq<char>
    decreases data.len(),
{
    if data.len() == 0 {
        Seq::empty()
    } else {
        hex_text(data.drop_last()).push(hex_digit(data.last() as int / 16)).push(
            hex_digit(data.last() as int % 16),
        )
    }
}

fn hex_char(d: u8) -> (c: char)
    requires
        d < 16,
    ensures
        c == hex_digit(d as int),
{
    if d == 0 {
        '0'
    } else if d == 1 {
        '1'
    } else if d == 2 {
        '2'
    } else if d == 3 {
        '3'
    } else if d == 4 {
        '4'
    } else if d == 5 {
        '5'
    } else if d == 6 {
        '6'
    } else if d == 7 {
        '7'
    } else if d == 8 {
        '8'
    } else if d == 9 {
        '9'
    } else if d == 10 {
        'a'
    } else if d == 11 {
        'b'
    } else if d == 12 {
        'c'
    } else if d == 13 {
        'd'
    } else if d == 14 {
        'e'
    } else {
        'f'
    }
}

/// The bytes `data` in hexadecimal.
pub fn to_hex(data: &Vec<u8>) -> (out: String)
    ensures
        out@ == hex_text(data@),
{
    let mut out = String::new();
    let mut i: usize = 0;
    proof {
        assert(data@.take(0) =~= Seq::<u8>::empty());
    }
    while i < data.len()
        invariant
            i <= data@.len(),
            out@ == hex_text(data@.take(i as int)),
        decreases data@.len() - i,
    {
        let b = data[i];
        push_char(&mut out, hex_char(b / 16));
        push_char(&mut out, hex_char(b % 16));
        proof {
            assert(data@.take(i as int + 1).drop_last() =~= data@.take(i as int));
        }
        i += 1;
    }
    proof {
        assert(data@.take(data@.len() as int) =~= data@);
    }
    out
}

/// A running SHA-256 digest.
pub struct Hasher {
    inner: sha2::Sha256,
}

impl Hasher {
    /// The bytes that were fed so far, in order.
    pub closed spec fn fed(&self) -> Seq<u8> {
        hashed(self.inner)
    }

    /// A digest of nothing yet.
    pub fn new() -> (hasher: Hasher)
        ensures
            hasher.fed() == Seq::<u8>::empty(),
    {
        Hasher { inner: hasher_new() }
    }

    /// Feeds `data`.
    pub fn update(&mut self, data: &[u8])
        ensures
            final(self).fed() == old(self).fed() + data@,
    {
        hasher_update(&mut self.inner, data)
    }

    /// The digest of what was fed so far, in hexadecimal.
    pub fn hex(&self) -> (out: String)
        ensures
            out@ == hex_text(sha256(self.fed())),
    {
        let digest = hasher_digest(&self.inner);
        to_hex(&digest)
    }
}

} // verus!
