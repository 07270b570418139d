//! Decoding of the vendor's fixed-size string buffers: the meaningful value
//! is the byte prefix before the first zero; everything after it is padding.

use vstd::prelude::*;

verus! {

/// The byte prefix of `s` before its first zero byte (all of `s` when no
/// byte is zero).
pub open spec fn decoded_prefix(s: Seq<u8>) -> Seq<u8>
    decreases s.len(),
{
    if s.len() == 0 {
        Seq::empty()
    } else if s[0] == 0 {
        Seq::empty()
    } else {
        seq![s[0]] + decoded_prefix(s.subrange(1, s.len() as int))
    }
}

/// Whether `s` contains a zero byte, i.e. the buffer carries a terminator.
pub open spec fn has_zero(s: Seq<u8>) -> bool {
    exists|i: int| 0 <= i < s.len() && s[i] == 0
}

/// The decoded prefix is `s.take(n)` whenever the first `n` bytes are
/// nonzero and position `n` is the end of `s` or a zero byte.
proof fn lemma_decoded_prefix_is_take(s: Seq<u8>, n: int)
    requires
        0 <= n <= s.len(),
        forall|j: int| 0 <= j < n ==> s[j] != 0,
        n == s.len() || s[n] == 0,
    ensures
        decoded_prefix(s) == s.take(n),
    decreases n,
{
    if n == 0 {
        assert(decoded_prefix(s) =~= s.take(0));
    } else {
        let t = s.subrange(1, s.len() as int);
        lemma_decoded_prefix_is_take(t, n - 1);
        assert(decoded_prefix(s) =~= s.take(n));
    }
}

/// The decoded prefix never grows the buffer, and a buffer with a
/// terminator decodes to something strictly shorter than itself.
pub proof fn lemma_decoded_prefix_len(s: Seq<u8>)
    ensures
        decoded_prefix(s).len() <= s.len(),
        has_zero(s) ==> decoded_prefix(s).len() < s.len(),
    decreases s.len(),
{
    if s.len() == 0 || s[0] == 0 {
    } else {
        let t = s.subrange(1, s.len() as int);
        lemma_decoded_prefix_len(t);
        if has_zero(s) {
            let i = choose|i: int| 0 <= i < s.len() && s[i] == 0;
            assert(t[i - 1] == 0);
        }
    }
}

/// The decoded prefix contains no zero byte.
pub proof fn lemma_decoded_prefix_no_zero(s: Seq<u8>)
    ensures
        forall|i: int| 0 <= i < decoded_prefix(s).len() ==> decoded_prefix(s)[i] != 0,
    decreases s.len(),
{
    if s.len() == 0 || s[0] == 0 {
    } else {
        let t = s.subrange(1, s.len() as int);
        lemma_decoded_prefix_no_zero(t);
        assert forall|i: int| 0 <= i < decoded_prefix(s).len() implies decoded_prefix(s)[i] != 0 by {
            if i > 0 {
                assert(decoded_prefix(s)[i] == decoded_prefix(t)[i - 1]);
            }
        }
    }
}

/// A byte string without zero bytes decodes to itself.
proof fn lemma_decoded_prefix_of_clean(s: Seq<u8>)
    requires
        forall|i: int| 0 <= i < s.len() ==> s[i] != 0,
    ensures
        decoded_prefix(s) == s,
    decreases s.len(),
{
    if s.len() == 0 {
        assert(decoded_prefix(s) =~= s);
    } else {
        let t = s.subrange(1, s.len() as int);
        lemma_decoded_prefix_of_clean(t);
        assert(decoded_prefix(s) =~= s);
    }
}

/// Short-string decoding is idempotent: decoding a buffer's decoded prefix
/// yields that prefix again.
pub proof fn lemma_decoded_prefix_idempotent(s: Seq<u8>)
    ensures
        decoded_prefix(decoded_prefix(s)) == decoded_prefix(s),
{
    lemma_decoded_prefix_no_zero(s);
    lemma_decoded_prefix_of_clean(decoded_prefix(s));
}

/// A full short-string buffer that carries a terminator decodes to at most
/// one byte less than the buffer width.
pub proof fn lemma_short_string_bound(s: Seq<u8>)
    requires
        s.len() == crate::abi::NVAPI_SHORT_STRING_MAX,
        has_zero(s),
    ensures
        decoded_prefix(s).len() <= crate::abi::NVAPI_SHORT_STRING_MAX - 1,
{
    lemma_decoded_prefix_len(s);
}

/// Extracts the zero-terminated prefix of a vendor string buffer: the bytes
/// before the first zero, or the whole buffer when no byte is zero.
pub fn short_string_prefix(buf: &Vec<u8>) -> (r: Vec<u8>)
    ensures
        r@ == decoded_prefix(buf@),
{
    let mut r: Vec<u8> = Vec::new();
    let mut i: usize = 0;
    while i < buf.len() && buf[i] != 0
        invariant
            0 <= i <= buf@.len(),
            r@ == buf@.take(i as int),
            forall|j: int| 0 <= j < i ==> buf@[j] != 0,
        decreases buf@.len() - i,
    {
        r.push(buf[i]);
        i = i + 1;
    }
    proof {
        lemma_decoded_prefix_is_take(buf@, i as int);
    }
    r
}

} // verus!
