//! Byte-level building blocks for the canonical textual output: pushing the
//! bytes of a string slice, decimal numerals, and UTF-8 encoded characters.

use vstd::prelude::*;
use vstd::string::StringSliceAdditionalSpecFns;

verus! {

/// The decimal numeral of `n` (without sign), most significant digit first.
pub open spec fn dec_digits(n: int) -> Seq<u8>
    recommends
        n >= 0,
    decreases n,
{
    if n < 10 {
        seq![(48 + if n >= 0 { n } else { 0 }) as u8]
    } else {
        dec_digits(n / 10) + seq![(48 + n % 10) as u8]
    }
}

/// The UTF-8 encoding of a single character.
pub open spec fn char_utf8(c: char) -> Seq<u8> {
    let u = c as int;
    if u < 0x80 {
        seq![u as u8]
    } else if u < 0x800 {
        seq![(0xC0 + u / 0x40) as u8, (0x80 + u % 0x40) as u8]
    } else if u < 0x10000 {
        seq![
            (0xE0 + u / 0x1000) as u8,
            (0x80 + (u / 0x40) % 0x40) as u8,
            (0x80 + u % 0x40) as u8,
        ]
    } else {
        seq![
            (0xF0 + u / 0x40000) as u8,
            (0x80 + (u / 0x1000) % 0x40) as u8,
            (0x80 + (u / 0x40) % 0x40) as u8,
            (0x80 + u % 0x40) as u8,
        ]
    }
}

/// Appends the UTF-8 bytes of the string slice.
pub fn push_str_bytes(out: &mut Vec<u8>, s: &str)
    ensures
        final(out)@ == old(out)@ + s.spec_bytes(),
{
    let ghost pre = out@;
    out.extend_from_slice(s.as_bytes());
    proof {
        assert(out@ =~= pre + s.spec_bytes());
    }
}

/// Appends the given bytes.
pub fn push_bytes(out: &mut Vec<u8>, s: &[u8])
    ensures
        final(out)@ == old(out)@ + s@,
{
    let ghost pre = out@;
    out.extend_from_slice(s);
    proof {
        assert(out@ =~= pre + s@);
    }
}

/// An equal copy of the bytes.
pub fn clone_bytes(v: &Vec<u8>) -> (r: Vec<u8>)
    ensures
        r@ == v@,
{
    let r = v.clone();
    proof {
        assert forall|i: int| 0 <= i < v@.len() implies r@[i] == v@[i] by {
            assert(cloned::<u8>(v@[i], r@[i]));
        }
        assert(r@ =~= v@);
    }
    r
}

/// Whether the bytes spell exactly the given string.
pub fn bytes_eq_str(v: &[u8], s: &str) -> (r: bool)
    ensures
        r == (v@ == s.spec_bytes()),
{
    let b = s.as_bytes();
    if v.len() != b.len() {
        proof {
            assert(v@.len() != s.spec_bytes().len());
        }
        return false;
    }
    let n = v.len();
    let mut i: usize = 0;
    while i < n
        invariant
            n == v@.len() == b@.len(),
            b@ == s.spec_bytes(),
            0 <= i <= n,
            forall|j: int| 0 <= j < i ==> v@[j] == b@[j],
        decreases n - i,
    {
        if v[i] != b[i] {
            return false;
        }
        i += 1;
    }
    proof {
        assert(v@ =~= b@);
    }
    true
}

/// Appends the decimal numeral of `n`.
pub fn push_usize_dec(out: &mut Vec<u8>, n: usize)
    ensures
        final(out)@ == old(out)@ + dec_digits(n as int),
    decreases n,
{
    if n < 10 {
        out.push(48 + n as u8);
        proof {
            assert(out@ =~= old(out)@ + dec_digits(n as int));
        }
    } else {
        push_usize_dec(out, n / 10);
        out.push(48 + (n % 10) as u8);
        proof {
            assert(out@ =~= old(out)@ + dec_digits(n as int));
        }
    }
}

/// Appends the UTF-8 encoding of `c`.
pub fn push_char_utf8(out: &mut Vec<u8>, c: char)
    ensures
        final(out)@ == old(out)@ + char_utf8(c),
{
    let u = c as u32;
    if u < 0x80 {
        out.push(u as u8);
    } else if u < 0x800 {
        out.push((0xC0 + u / 0x40) as u8);
        out.push((0x80 + u % 0x40) as u8);
    } else if u < 0x10000 {
        out.push((0xE0 + u / 0x1000) as u8);
        out.push((0x80 + (u / 0x40) % 0x40) as u8);
        out.push((0x80 + u % 0x40) as u8);
    } else {
        out.push((0xF0 + u / 0x40000) as u8);
        out.push((0x80 + (u / 0x1000) % 0x40) as u8);
        out.push((0x80 + (u / 0x40) % 0x40) as u8);
        out.push((0x80 + u % 0x40) as u8);
    }
    proof {
        assert(out@ =~= old(out)@ + char_utf8(c));
    }
}

/// What the bytes say as text. Relies on `String::from_utf8_lossy`: the
/// decoding is a pure function of the bytes alone.
pub uninterp spec fn utf8_lossy(bytes: Seq<u8>) -> Seq<char>;

/// Relies on `String::from_utf8_lossy`: valid UTF-8 decodes unchanged, so
/// ASCII bytes come back as exactly their own characters.
#[verifier::external_body]
pub fn bytes_to_string_lossy(v: &Vec<u8>) -> (r: String)
    ensures
        r@ == utf8_lossy(v@),
        (forall|i: int| 0 <= i < v@.len() ==> v@[i] < 0x80) ==> r@ == v@.map_values(
            |b: u8| b as char,
        ),
{
    String::from_utf8_lossy(v.as_slice()).into_owned()
}

} // verus!
