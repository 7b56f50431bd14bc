//! Building blocks of the binary layout shared by records and their metadata:
//! fixed-width little-endian integers and byte strings preceded by their length
//! as a `u64`.
use vstd::bytes::{
    lemma_auto_spec_u128_to_from_le_bytes, lemma_auto_spec_u32_to_from_le_bytes,
    lemma_auto_spec_u64_to_from_le_bytes, spec_u128_from_le_bytes, spec_u128_to_le_bytes,
    spec_u32_from_le_bytes, spec_u32_to_le_bytes, spec_u64_from_le_bytes, spec_u64_to_le_bytes,
    u128_from_le_bytes, u128_to_le_bytes, u32_from_le_bytes, u32_to_le_bytes, u64_from_le_bytes,
    u64_to_le_bytes,
};
use vstd::prelude::*;

verus! {

/// `b` preceded by its length as eight little-endian bytes.
pub open spec fn length_prefixed(b: Seq<u8>) -> Seq<u8> {
    spec_u64_to_le_bytes(b.len() as u64) + b
}

/// Splits a length-prefixed byte string off the front of `s`.
pub open spec fn parse_length_prefixed(s: Seq<u8>) -> Option<(Seq<u8>, Seq<u8>)> {
    if s.len() < 8 {
        None
    } else {
        let n = spec_u64_from_le_bytes(s.subrange(0, 8));
        if s.len() - 8 < n {
            None
        } else {
            Some((s.subrange(8, 8 + n), s.subrange(8 + n, s.len() as int)))
        }
    }
}

/// Splits `n` bytes off the front of `s`.
pub open spec fn parse_fixed(s: Seq<u8>, n: nat) -> Option<(Seq<u8>, Seq<u8>)> {
    if s.len() < n {
        None
    } else {
        Some((s.subrange(0, n as int), s.subrange(n as int, s.len() as int)))
    }
}

pub open spec fn u128_bytes(x: u128) -> Seq<u8> {
    spec_u128_to_le_bytes(x)
}

pub open spec fn u128_of(s: Seq<u8>) -> u128 {
    spec_u128_from_le_bytes(s)
}

pub open spec fn u32_bytes(x: u32) -> Seq<u8> {
    spec_u32_to_le_bytes(x)
}

pub open spec fn u32_of(s: Seq<u8>) -> u32 {
    spec_u32_from_le_bytes(s)
}

pub open spec fn u64_bytes(x: u64) -> Seq<u8> {
    spec_u64_to_le_bytes(x)
}

pub open spec fn u64_of(s: Seq<u8>) -> u64 {
    spec_u64_from_le_bytes(s)
}

/// Encoding and decoding the fixed-width integers are inverse to each other.
pub proof fn lemma_int_bytes()
    ensures
        forall|x: u64| #![trigger u64_bytes(x)] u64_bytes(x).len() == 8 && u64_of(u64_bytes(x)) == x,
        forall|x: u32| #![trigger u32_bytes(x)] u32_bytes(x).len() == 4 && u32_of(u32_bytes(x)) == x,
        forall|x: u128| #![trigger u128_bytes(x)] u128_bytes(x).len() == 16 && u128_of(u128_bytes(x)) == x,
{
    lemma_auto_spec_u64_to_from_le_bytes();
    lemma_auto_spec_u32_to_from_le_bytes();
    lemma_auto_spec_u128_to_from_le_bytes();
}

/// A length-prefixed byte string followed by anything is split back into the two.
pub proof fn lemma_parse_length_prefixed(b: Seq<u8>, rest: Seq<u8>)
    requires
        b.len() <= u64::MAX,
    ensures
        parse_length_prefixed(length_prefixed(b) + rest) == Some((b, rest)),
{
    lemma_int_bytes();
    let s = length_prefixed(b) + rest;
    assert(s.subrange(0, 8) =~= u64_bytes(b.len() as u64));
    assert(s.subrange(8, 8 + b.len() as int) =~= b);
    assert(s.subrange(8 + b.len() as int, s.len() as int) =~= rest);
}

/// `n` bytes followed by anything are split back into the two.
pub proof fn lemma_parse_fixed(b: Seq<u8>, rest: Seq<u8>)
    ensures
        parse_fixed(b + rest, b.len()) == Some((b, rest)),
{
    let s = b + rest;
    assert(s.subrange(0, b.len() as int) =~= b);
    assert(s.subrange(b.len() as int, s.len() as int) =~= rest);
}

/// Appends `b` to `out`.
pub fn append(out: &mut Vec<u8>, b: &[u8])
    ensures
        final(out)@ == old(out)@ + b@,
{
    let mut i: usize = 0;
    while i < b.len()
        invariant
            i <= b@.len(),
            out@ == old(out)@ + b@.subrange(0, i as int),
        decreases b@.len() - i,
    {
        out.push(b[i]);
        i = i + 1;
        assert(out@ =~= old(out)@ + b@.subrange(0, i as int));
    }
    assert(b@.subrange(0, b@.len() as int) =~= b@);
}

/// Appends `b` preceded by its length.
pub fn put_length_prefixed(out: &mut Vec<u8>, b: &[u8])
    ensures
        final(out)@ == old(out)@ + length_prefixed(b@),
{
    let len = u64_to_le_bytes(b.len() as u64);
    append(out, len.as_slice());
    append(out, b);
    assert(final(out)@ =~= old(out)@ + length_prefixed(b@));
}

pub fn put_u128(out: &mut Vec<u8>, x: u128)
    ensures
        final(out)@ == old(out)@ + u128_bytes(x),
{
    let b = u128_to_le_bytes(x);
    append(out, b.as_slice());
}

pub fn put_u32(out: &mut Vec<u8>, x: u32)
    ensures
        final(out)@ == old(out)@ + u32_bytes(x),
{
    let b = u32_to_le_bytes(x);
    append(out, b.as_slice());
}

/// Splits a length-prefixed byte string off the front of `s`.
pub fn take_length_prefixed(s: &[u8]) -> (r: Option<(Vec<u8>, &[u8])>)
    ensures
        match r {
            Some((b, rest)) => parse_length_prefixed(s@) == Some((b@, rest@)),
            None => parse_length_prefixed(s@) is None,
        },
{
    if s.len() < 8 {
        return None;
    }
    let (head, tail) = s.split_at(8);
    let n = u64_from_le_bytes(head);
    if (tail.len() as u64) < n {
        return None;
    }
    let (body, rest) = tail.split_at(n as usize);
    let b = vstd::slice::slice_to_vec(body);
    assert(b@ =~= s@.subrange(8, 8 + n));
    assert(rest@ =~= s@.subrange(8 + n, s@.len() as int));
    Some((b, rest))
}

/// Splits `n` bytes off the front of `s`.
pub fn take_fixed(s: &[u8], n: usize) -> (r: Option<(&[u8], &[u8])>)
    ensures
        match r {
            Some((b, rest)) => parse_fixed(s@, n as nat) == Some((b@, rest@)),
            None => parse_fixed(s@, n as nat) is None,
        },
{
    if s.len() < n {
        return None;
    }
    let (b, rest) = s.split_at(n);
    Some((b, rest))
}

/// Copies a byte string into a new vector.
pub fn to_vec(b: &[u8]) -> (r: Vec<u8>)
    ensures
        r@ == b@,
{
    vstd::slice::slice_to_vec(b)
}

/// Copies 16 bytes into an array.
pub fn to_array16(b: &[u8]) -> (r: [u8; 16])
    requires
        b@.len() == 16,
    ensures
        r@ == b@,
{
    let mut a = [0u8; 16];
    let mut i: usize = 0;
    while i < 16
        invariant
            b@.len() == 16,
            i <= 16,
            a@.len() == 16,
            forall|j: int| 0 <= j < i ==> a@[j] == b@[j],
        decreases 16 - i,
    {
        a[i] = b[i];
        i = i + 1;
    }
    assert(a@ =~= b@);
    a
}

/// A string that parses as a length-prefixed byte string is that byte string's
/// encoding followed by the rest.
pub proof fn lemma_length_prefixed_canonical(s: Seq<u8>)
    ensures
        parse_length_prefixed(s) matches Some((b, rest)) ==> s == length_prefixed(b) + rest,
{
    lemma_auto_spec_u64_to_from_le_bytes();
    if let Some((b, rest)) = parse_length_prefixed(s) {
        let n = spec_u64_from_le_bytes(s.subrange(0, 8));
        assert(b.len() == n);
        assert(spec_u64_to_le_bytes(spec_u64_from_le_bytes(s.subrange(0, 8))) == s.subrange(0, 8));
        assert(s =~= s.subrange(0, 8) + b + rest);
        assert(s =~= length_prefixed(b) + rest);
    }
}

/// A string that parses as `n` fixed bytes is those bytes followed by the rest.
pub proof fn lemma_fixed_canonical(s: Seq<u8>, n: nat)
    ensures
        parse_fixed(s, n) matches Some((b, rest)) ==> s == b + rest && b.len() == n,
{
    if let Some((b, rest)) = parse_fixed(s, n) {
        assert(s =~= b + rest);
    }
}

pub fn read_u128(b: &[u8]) -> (r: u128)
    requires
        b@.len() == 16,
    ensures
        r == u128_of(b@),
{
    u128_from_le_bytes(b)
}

pub fn read_u32(b: &[u8]) -> (r: u32)
    requires
        b@.len() == 4,
    ensures
        r == u32_of(b@),
{
    u32_from_le_bytes(b)
}

} // verus!
