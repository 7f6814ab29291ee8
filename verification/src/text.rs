//! Comparisons on text, stated over sequences of characters.

use vstd::prelude::*;
use vstd::string::*;
use vstd::utf8::*;

verus! {

/// The lower-case form of an ASCII upper-case letter; any other character
/// unchanged.
pub open spec fn ascii_lower(c: char) -> char {
    if 'A' <= c && c <= 'Z' {
        ((c as u8) + 32) as char
    } else {
        c
    }
}

/// `a` and `b` are the same text up to the case of ASCII letters.
pub open spec fn same_ignoring_ascii_case(a: Seq<char>, b: Seq<char>) -> bool {
    &&& a.len() == b.len()
    &&& forall|i: int| 0 <= i < a.len() ==> ascii_lower(#[trigger] a[i]) == ascii_lower(b[i])
}

/// Whether two string slices hold the same characters.
pub fn str_eq(a: &str, b: &str) -> (same: bool)
    ensures
        same == (a@ == b@),
{
    let x = a.as_bytes();
    let y = b.as_bytes();
    proof {
        encode_utf8_decode_utf8(a@);
        encode_utf8_decode_utf8(b@);
    }
    if x.len() != y.len() {
        return false;
    }
    let n: usize = x.len();
    let mut i: usize = 0;
    while i < n
        invariant
            n == x@.len(),
            n == y@.len(),
            x@ == encode_utf8(a@),
            y@ == encode_utf8(b@),
            i <= n,
            forall|k: int| 0 <= k < i ==> x@[k] == y@[k],
        decreases n - i,
    {
        if x[i] != y[i] {
            return false;
        }
        i += 1;
    }
    assert(x@ =~= y@);
    true
}

/// Whether `text` reads as `word` up to the case of ASCII letters.
pub(crate) fn matches_ascii_word(text: &str, word: &str) -> (same: bool)
    requires
        is_ascii(word),
    ensures
        same == same_ignoring_ascii_case(text@, word@),
{
    if !text.is_ascii() {
        proof {
            if same_ignoring_ascii_case(text@, word@) {
                assert forall|i: int| 0 <= i < text@.len() implies '\0' <= #[trigger] text@[i]
                    <= '\u{7f}' by {
                    assert('\0' <= word@[i] <= '\u{7f}');
                    assert(ascii_lower(text@[i]) == ascii_lower(word@[i]));
                }
            }
        }
        return false;
    }
    let x = text.as_bytes();
    let y = word.as_bytes();
    proof {
        is_ascii_spec_bytes(text);
        is_ascii_spec_bytes(word);
    }
    if x.len() != y.len() {
        return false;
    }
    let n: usize = x.len();
    let mut i: usize = 0;
    while i < n
        invariant
            i <= n,
            n == text@.len(),
            n == word@.len(),
            x@.len() == n,
            y@.len() == n,
            forall|k: int| 0 <= k < n ==> x@[k] == text@[k] as u8,
            forall|k: int| 0 <= k < n ==> y@[k] == word@[k] as u8,
            forall|k: int| 0 <= k < n ==> '\0' <= #[trigger] text@[k] <= '\u{7f}',
            forall|k: int| 0 <= k < n ==> '\0' <= #[trigger] word@[k] <= '\u{7f}',
            forall|k: int| 0 <= k < i ==> ascii_lower(#[trigger] text@[k]) == ascii_lower(word@[k]),
        decreases n - i,
    {
        let a: u8 = x[i];
        let b: u8 = y[i];
        let la: u8 = if 65 <= a && a <= 90 {
            a + 32
        } else {
            a
        };
        let lb: u8 = if 65 <= b && b <= 90 {
            b + 32
        } else {
            b
        };
        proof {
            let c = text@[i as int];
            let d = word@[i as int];
            assert('\0' <= c <= '\u{7f}');
            assert('\0' <= d <= '\u{7f}');
            assert(a == c as u8);
            assert(b == d as u8);
            assert(ascii_lower(c) as u32 == la);
            assert(ascii_lower(d) as u32 == lb);
        }
        if la != lb {
            return false;
        }
        i += 1;
    }
    true
}

} // verus!
