//! The content digest of a file: the MD5 digest of its bytes, written as
//! lower-case hexadecimal digits.

use md5::{Digest, Md5};
use vstd::prelude::*;

verus! {

/// The number of bytes of an MD5 digest.
pub const DIGEST_LEN: usize = 16;

/// The MD5 digest of `bytes`, as `md5::Md5::digest` computes it.
pub uninterp spec fn md5_of(bytes: Seq<u8>) -> Seq<u8>;

/// Calls `md5::Md5::digest`, which hashes the bytes in one go. The digest
/// depends on the bytes alone and is sixteen bytes long; nothing else is
/// claimed of it.
#[verifier::external_body]
pub(crate) fn md5_digest(bytes: &[u8]) -> (r: Vec<u8>)
    ensures
        r@ == md5_of(bytes@),
        r@.len() == DIGEST_LEN,
{
    Md5::digest(bytes).to_vec()
}

/// The lower-case hexadecimal digit for a value below sixteen.
pub open spec fn hex_digit(n: int) -> char {
    if n < 10 {
        ('0' as int + n) as char
    } else {
        ('a' as int + n - 10) as char
    }
}

/// Whether `c` is one of `0` to `9` or `a` to `f`.
pub open spec fn is_lower_hex(c: char) -> bool {
    ('0' <= c && c <= '9') || ('a' <= c && c <= 'f')
}

/// The bytes written as lower-case hexadecimal digits, two for each byte,
/// the high half first.
pub open spec fn lower_hex(bytes: Seq<u8>) -> Seq<char> {
    Seq::new(
        2 * bytes.len(),
        |i: int|
            if i % 2 == 0 {
                hex_digit(bytes[i / 2] as int / 16)
            } else {
                hex_digit(bytes[i / 2] as int % 16)
            },
    )
}

/// The digest of `bytes` as it stands in a record.
pub open spec fn content_hash(bytes: Seq<u8>) -> Seq<char> {
    lower_hex(md5_of(bytes))
}

/// The hexadecimal form is twice as long as the bytes and holds nothing
/// but lower-case hexadecimal digits.
pub proof fn lemma_lower_hex_shape(bytes: Seq<u8>)
    ensures
        lower_hex(bytes).len() == 2 * bytes.len(),
        forall|i: int|
            0 <= i < lower_hex(bytes).len() ==> is_lower_hex(#[trigger] lower_hex(bytes)[i]),
{
}

/// Different bytes have different hexadecimal forms.
pub proof fn lemma_lower_hex_injective(a: Seq<u8>, b: Seq<u8>)
    requires
        lower_hex(a) == lower_hex(b),
    ensures
        a == b,
{
    assert(a.len() == b.len()) by {
        assert(lower_hex(a).len() == 2 * a.len());
        assert(lower_hex(b).len() == 2 * b.len());
    }
    assert forall|k: int| 0 <= k < a.len() implies a[k] == b[k] by {
        // The two digits of a byte give its two halves back.
        let high = 2 * k;
        let low = 2 * k + 1;
        assert(lower_hex(a)[high] == hex_digit(a[k] as int / 16));
        assert(lower_hex(b)[high] == hex_digit(b[k] as int / 16));
        assert(lower_hex(a)[low] == hex_digit(a[k] as int % 16));
        assert(lower_hex(b)[low] == hex_digit(b[k] as int % 16));
    }
    assert(a =~= b);
}

fn hex_digit_of(n: u8) -> (c: char)
    requires
        n < 16,
    ensures
        c == hex_digit(n as int),
{
    if n < 10 {
        (48u8 + n) as char
    } else {
        (97u8 + (n - 10)) as char
    }
}

/// The bytes written as lower-case hexadecimal digits.
pub fn to_hex(bytes: &[u8]) -> (r: String)
    ensures
        r@ == lower_hex(bytes@),
{
    let mut r = String::new();
    let mut i: usize = 0;
    while i < bytes.len()
        invariant
            i <= bytes.len(),
            r@ == lower_hex(bytes@).take(2 * i),
        decreases bytes.len() - i,
    {
        let b: u8 = bytes[i];
        r.push(hex_digit_of(b / 16));
        r.push(hex_digit_of(b % 16));
        i += 1;
    }
    r
}

/// The content digest of `bytes`: thirty-two lower-case hexadecimal
/// digits that depend on the bytes alone.
pub fn generate_md5(bytes: &[u8]) -> (r: String)
    ensures
        r@ == content_hash(bytes@),
        r@.len() == 2 * DIGEST_LEN,
        forall|i: int| 0 <= i < r@.len() ==> is_lower_hex(#[trigger] r@[i]),
{
    let digest = md5_digest(bytes);
    proof {
        lemma_lower_hex_shape(digest@);
    }
    to_hex(digest.as_slice())
}

} // verus!
