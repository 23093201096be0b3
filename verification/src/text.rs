//! Byte-level helpers over UTF-8 text: white space, and words that stand as
//! whole tokens.

use vstd::prelude::*;
use vstd::string::*;
use vstd::utf8::*;

verus! {

/// The lower-case form of an ASCII capital, any other byte unchanged.
pub open spec fn ascii_lower(b: u8) -> u8 {
    if 65 <= b <= 90 {
        (b + 32) as u8
    } else {
        b
    }
}

/// The length in bytes of the white-space character that starts at `i`, or 0
/// where none does. White space is what Unicode calls `White_Space`: the
/// ASCII controls U+0009 to U+000D, the space, U+0085, U+00A0, U+1680, U+2000
/// to U+200A, U+2028, U+2029, U+202F, U+205F and U+3000.
pub open spec fn space_width_at(b: Seq<u8>, i: int) -> int {
    if i < 0 || i >= b.len() {
        0
    } else if (9 <= b[i] <= 13) || b[i] == 32 {
        1
    } else if b[i] == 0xC2 && i + 1 < b.len() && (b[i + 1] == 0x85 || b[i + 1] == 0xA0) {
        2
    } else if i + 2 < b.len() && (
        (b[i] == 0xE1 && b[i + 1] == 0x9A && b[i + 2] == 0x80)
        || (b[i] == 0xE2 && b[i + 1] == 0x80 && (
            0x80 <= b[i + 2] <= 0x8A || b[i + 2] == 0xA8 || b[i + 2] == 0xA9 || b[i + 2] == 0xAF))
        || (b[i] == 0xE2 && b[i + 1] == 0x81 && b[i + 2] == 0x9F)
        || (b[i] == 0xE3 && b[i + 1] == 0x80 && b[i + 2] == 0x80)) {
        3
    } else {
        0
    }
}

/// The bytes of `word` stand in `b` from `i` on; with `fold_case`, ASCII
/// letters are compared without regard to case.
pub open spec fn word_at(b: Seq<u8>, i: int, word: Seq<u8>, fold_case: bool) -> bool {
    &&& 0 <= i
    &&& i + word.len() <= b.len()
    &&& forall|k: int|
        0 <= k < word.len() ==> if fold_case {
            ascii_lower(#[trigger] b[i + k]) == ascii_lower(word[k])
        } else {
            #[trigger] b[i + k] == word[k]
        }
}

/// `word` stands at `i` as a whole token: white space or the end of `b`
/// follows it.
pub open spec fn token_at(b: Seq<u8>, i: int, word: Seq<u8>, fold_case: bool) -> bool {
    word_at(b, i, word, fold_case) && (i + word.len() == b.len() || space_width_at(
        b,
        i + word.len(),
    ) > 0)
}

/// `word` stands somewhere in `b` as a whole token.
pub open spec fn has_token(b: Seq<u8>, word: Seq<u8>, fold_case: bool) -> bool {
    exists|i: int| token_at(b, i, word, fold_case)
}

pub fn to_ascii_lower(b: u8) -> (lower: u8)
    ensures
        lower == ascii_lower(b),
{
    if 65 <= b && b <= 90 {
        b + 32
    } else {
        b
    }
}

pub fn space_width(bytes: &[u8], i: usize) -> (width: usize)
    ensures
        width == space_width_at(bytes@, i as int),
{
    let n = bytes.len();
    if i >= n {
        return 0;
    }
    let first = bytes[i];
    if (9 <= first && first <= 13) || first == 32 {
        return 1;
    }
    if n - i >= 2 && first == 0xC2 {
        let second = bytes[i + 1];
        if second == 0x85 || second == 0xA0 {
            return 2;
        }
    }
    if n - i >= 3 {
        let second = bytes[i + 1];
        let third = bytes[i + 2];
        if first == 0xE1 && second == 0x9A && third == 0x80 {
            return 3;
        }
        if first == 0xE2 && second == 0x80 && ((0x80 <= third && third <= 0x8A) || third == 0xA8
            || third == 0xA9 || third == 0xAF) {
            return 3;
        }
        if first == 0xE2 && second == 0x81 && third == 0x9F {
            return 3;
        }
        if first == 0xE3 && second == 0x80 && third == 0x80 {
            return 3;
        }
    }
    0
}

pub fn is_word_at(bytes: &[u8], i: usize, word: &[u8], fold_case: bool) -> (found: bool)
    ensures
        found == word_at(bytes@, i as int, word@, fold_case),
{
    let n = bytes.len();
    let m = word.len();
    if i > n || m > n - i {
        return false;
    }
    let mut k: usize = 0;
    while k < m
        invariant
            k <= m,
            m == word@.len(),
            n == bytes@.len(),
            i + m <= n,
            forall|j: int|
                0 <= j < k ==> if fold_case {
                    ascii_lower(#[trigger] bytes@[i + j]) == ascii_lower(word@[j])
                } else {
                    #[trigger] bytes@[i + j] == word@[j]
                },
        decreases m - k,
    {
        let same = if fold_case {
            to_ascii_lower(bytes[i + k]) == to_ascii_lower(word[k])
        } else {
            bytes[i + k] == word[k]
        };
        if !same {
            return false;
        }
        k += 1;
    }
    true
}

pub fn is_token_at(bytes: &[u8], i: usize, word: &[u8], fold_case: bool) -> (found: bool)
    ensures
        found == token_at(bytes@, i as int, word@, fold_case),
{
    if !is_word_at(bytes, i, word, fold_case) {
        return false;
    }
    let n = bytes.len();
    assert(i + word@.len() <= n);
    let end = i + word.len();
    end == n || space_width(bytes, end) > 0
}

pub fn contains_token(bytes: &[u8], word: &[u8], fold_case: bool) -> (found: bool)
    ensures
        found == has_token(bytes@, word@, fold_case),
{
    let n = bytes.len();
    let mut i: usize = 0;
    while i <= n
        invariant
            i <= n + 1,
            n == bytes@.len(),
            forall|j: int| 0 <= j < i ==> !token_at(bytes@, j, word@, fold_case),
        decreases n + 1 - i,
    {
        if is_token_at(bytes, i, word, fold_case) {
            return true;
        }
        if i == n {
            proof {
                assert forall|j: int| !token_at(bytes@, j, word@, fold_case) by {
                    if token_at(bytes@, j, word@, fold_case) {
                        assert(0 <= j <= n);
                    }
                }
            }
            return false;
        }
        i += 1;
    }
    false
}

/// Tells whether two texts are the same.
pub fn str_eq(a: &str, b: &str) -> (same: bool)
    ensures
        same == (a@ == b@),
{
    let x = a.as_bytes();
    let y = b.as_bytes();
    if x.len() != y.len() {
        return false;
    }
    let mut i: usize = 0;
    while i < x.len()
        invariant
            i <= x@.len(),
            x@.len() == y@.len(),
            x@ == a.spec_bytes(),
            y@ == b.spec_bytes(),
            forall|j: int| 0 <= j < i ==> x@[j] == y@[j],
        decreases x@.len() - i,
    {
        if x[i] != y[i] {
            assert(x@[i as int] != y@[i as int]);
            assert(a.spec_bytes() != b.spec_bytes());
            return false;
        }
        i += 1;
    }
    proof {
        assert(x@ =~= y@);
        encode_utf8_decode_utf8(a@);
        encode_utf8_decode_utf8(b@);
    }
    true
}

} // verus!
