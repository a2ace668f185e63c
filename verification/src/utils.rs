//! Small helpers on wide (16-bit) strings: equality, and the encoding of a
//! Rust string into a null-terminated wide string as the native interface
//! expects it.

use vstd::prelude::*;
use crate::types::WCHAR;

verus! {

/// Whether two wide strings hold the same code units.
pub fn wide_eq(a: &Vec<WCHAR>, b: &Vec<WCHAR>) -> (r: bool)
    ensures
        r == (a@ == b@),
{
    if a.len() != b.len() {
        return false;
    }
    let n = a.len();
    let mut i: usize = 0;
    while i < n
        invariant
            i <= n,
            n == a.len(),
            a.len() == b.len(),
            forall|j: int| 0 <= j < i ==> a@[j] == b@[j],
        decreases n - i,
    {
        if a[i] != b[i] {
            return false;
        }
        i += 1;
    }
    proof {
        assert(a@ =~= b@);
    }
    true
}

/// The UTF-16 encoding of one character: one code unit for scalars below
/// the supplementary planes, a surrogate pair above them.
pub open spec fn utf16_of_char(c: char) -> Seq<WCHAR> {
    let cp = c as u32;
    if cp < 0x10000 {
        seq![cp as u16]
    } else {
        seq![
            (0xD800 + ((cp - 0x10000) / 0x400)) as u16,
            (0xDC00 + ((cp - 0x10000) % 0x400)) as u16,
        ]
    }
}

/// The UTF-16 encoding of a character sequence.
pub open spec fn wide_chars(cs: Seq<char>) -> Seq<WCHAR>
    decreases cs.len(),
{
    if cs.len() == 0 {
        Seq::empty()
    } else {
        wide_chars(cs.drop_last()) + utf16_of_char(cs.last())
    }
}

/// Encodes a string as a null-terminated wide string, as the native
/// interface expects its class and window names.
pub fn wide_null(s: &str) -> (r: Vec<WCHAR>)
    ensures
        r@ == wide_chars(s@).push(0u16),
{
    let mut r: Vec<WCHAR> = Vec::new();
    let n = s.unicode_len();
    let mut i: usize = 0;
    while i < n
        invariant
            i <= n,
            n == s@.len(),
            r@ == wide_chars(s@.take(i as int)),
        decreases n - i,
    {
        let c = s.get_char(i);
        let cp: u32 = c as u32;
        proof {
            vstd::utf8::char_is_scalar(c);
        }
        if cp < 0x10000 {
            r.push(cp as u16);
        } else {
            let hi: u32 = 0xD800 + ((cp - 0x10000) / 0x400);
            let lo: u32 = 0xDC00 + ((cp - 0x10000) % 0x400);
            r.push(hi as u16);
            r.push(lo as u16);
        }
        proof {
            assert(s@.take(i + 1).drop_last() =~= s@.take(i as int));
            assert(r@ =~= wide_chars(s@.take(i + 1)));
        }
        i += 1;
    }
    proof {
        assert(s@.take(n as int) =~= s@);
    }
    r.push(0);
    r
}

/// A copy of a wide string, code unit for code unit.
pub fn wide_copy(v: &Vec<WCHAR>) -> (r: Vec<WCHAR>)
    ensures
        r@ == v@,
{
    let mut r: Vec<WCHAR> = Vec::new();
    let n = v.len();
    let mut i: usize = 0;
    while i < n
        invariant
            i <= n,
            n == v.len(),
            r@ == v@.take(i as int),
        decreases n - i,
    {
        r.push(v[i]);
        proof {
            assert(r@ =~= v@.take(i + 1));
        }
        i += 1;
    }
    proof {
        assert(r@ =~= v@);
    }
    r
}

} // verus!
