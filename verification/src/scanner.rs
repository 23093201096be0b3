//! Best-effort lexical scan that tells whether a byte offset of a Rust source
//! lies inside a comment or a string literal.
//!
//! The scan is approximate on purpose: it looks at the bytes before the
//! offset only, counts block-comment markers without regard to strings, and
//! lets any quote end a raw string whatever its run of `#`.

use vstd::prelude::*;
use vstd::string::*;

verus! {

pub const NEWLINE: u8 = 10;

pub const QUOTE: u8 = 34;

pub const HASH: u8 = 35;

pub const STAR: u8 = 42;

pub const SLASH: u8 = 47;

pub const BACKSLASH: u8 = 92;

pub const LOWER_R: u8 = 114;

/// The bytes `first`, `second` stand at `i` and `i + 1` of `b`.
pub open spec fn pair_at(b: Seq<u8>, i: int, first: u8, second: u8) -> bool {
    0 <= i && i + 1 < b.len() && b[i] == first && b[i + 1] == second
}

/// A `//` starts at `k`, and no newline stands from there up to `end`.
pub open spec fn comment_reaches(b: Seq<u8>, k: int, end: int) -> bool {
    pair_at(b, k, SLASH, SLASH) && forall|j: int| k <= j < end ==> #[trigger] b[j] != NEWLINE
}

/// Some `//` of `b` has no newline between it and the end of `b`.
pub open spec fn in_line_comment(b: Seq<u8>) -> bool {
    exists|k: int| comment_reaches(b, k, b.len() as int)
}

/// How many of the positions below `end` start the pair `first`, `second`.
pub open spec fn count_pairs_below(b: Seq<u8>, first: u8, second: u8, end: int) -> nat
    decreases end,
{
    if end <= 0 {
        0
    } else {
        count_pairs_below(b, first, second, end - 1) + if pair_at(b, end - 1, first, second) {
            1nat
        } else {
            0nat
        }
    }
}

/// How often the pair `first`, `second` occurs in `b`.
pub open spec fn count_pairs(b: Seq<u8>, first: u8, second: u8) -> nat {
    count_pairs_below(b, first, second, b.len() as int)
}

/// More `/*` than `*/` occur in `b`.
pub open spec fn in_block_comment(b: Seq<u8>) -> bool {
    count_pairs(b, SLASH, STAR) > count_pairs(b, STAR, SLASH)
}

/// The first position from `j` on that holds no `#`, or the end of `b`.
pub open spec fn skip_hashes(b: Seq<u8>, j: int) -> int
    decreases b.len() - j,
{
    if 0 <= j < b.len() && b[j] == HASH {
        skip_hashes(b, j + 1)
    } else {
        j
    }
}

/// An `r`, any number of `#` and a quote start at `i`.
pub open spec fn raw_opener_at(b: Seq<u8>, i: int) -> bool {
    &&& 0 <= i
    &&& i + 1 < b.len()
    &&& b[i] == LOWER_R
    &&& skip_hashes(b, i + 1) < b.len()
    &&& b[skip_hashes(b, i + 1)] == QUOTE
}

/// A quote that no backslash precedes stands at `i`.
pub open spec fn bare_quote_at(b: Seq<u8>, i: int) -> bool {
    0 <= i < b.len() && b[i] == QUOTE && (i == 0 || b[i - 1] != BACKSLASH)
}

/// The first position from `k` on that holds a quote with no backslash before
/// it, or the end of `b`. Meant for `k >= 1`.
pub open spec fn closing_quote(b: Seq<u8>, k: int) -> int
    decreases b.len() - k,
{
    if 1 <= k < b.len() && !(b[k] == QUOTE && b[k - 1] != BACKSLASH) {
        closing_quote(b, k + 1)
    } else {
        k
    }
}

pub proof fn lemma_skip_hashes_bounds(b: Seq<u8>, j: int)
    requires
        0 <= j <= b.len(),
    ensures
        j <= skip_hashes(b, j) <= b.len(),
    decreases b.len() - j,
{
    if j < b.len() && b[j] == HASH {
        lemma_skip_hashes_bounds(b, j + 1);
    }
}

pub proof fn lemma_closing_quote_bounds(b: Seq<u8>, k: int)
    requires
        1 <= k <= b.len(),
    ensures
        k <= closing_quote(b, k) <= b.len(),
    decreases b.len() - k,
{
    if k < b.len() && !(b[k] == QUOTE && b[k - 1] != BACKSLASH) {
        lemma_closing_quote_bounds(b, k + 1);
    }
}

/// The walk over `b` from `i`, in a raw string or not, ends inside a string:
/// in a raw string that no later quote closes, or behind the opening quote of
/// an ordinary string whose closing quote is missing.
pub open spec fn ends_in_string(b: Seq<u8>, i: int, in_raw: bool) -> bool
    decreases b.len() - i,
{
    if i < 0 || i >= b.len() {
        in_raw
    } else if in_raw {
        ends_in_string(b, i + 1, b[i] != QUOTE)
    } else if raw_opener_at(b, i) {
        proof {
            lemma_skip_hashes_bounds(b, i + 1);
        }
        ends_in_string(b, skip_hashes(b, i + 1) + 1, true)
    } else if bare_quote_at(b, i) {
        proof {
            lemma_closing_quote_bounds(b, i + 1);
        }
        let k = closing_quote(b, i + 1);
        if k >= b.len() {
            true
        } else {
            ends_in_string(b, k + 1, false)
        }
    } else {
        ends_in_string(b, i + 1, false)
    }
}

/// The bytes of `b` that stand before `offset`: all of them where the offset
/// lies past the end.
pub open spec fn bytes_before(b: Seq<u8>, offset: int) -> Seq<u8> {
    if offset <= 0 {
        Seq::empty()
    } else if offset >= b.len() {
        b
    } else {
        b.subrange(0, offset)
    }
}

/// The position `offset` of `b` lies in a line comment, in an open block
/// comment or in a string, as far as the bytes before it tell.
pub open spec fn is_excluded_position(b: Seq<u8>, offset: int) -> bool {
    let before = bytes_before(b, offset);
    in_line_comment(before) || in_block_comment(before) || ends_in_string(before, 0, false)
}

/// Nothing stands in an empty buffer, so nothing opens a comment or a string.
pub proof fn lemma_nothing_before_is_not_excluded(before: Seq<u8>)
    requires
        before.len() == 0,
    ensures
        !in_line_comment(before),
        !in_block_comment(before),
        !ends_in_string(before, 0, false),
{
    assert(count_pairs_below(before, SLASH, STAR, 0) == 0);
    assert(count_pairs_below(before, STAR, SLASH, 0) == 0);
    assert forall|k: int| !comment_reaches(before, k, before.len() as int) by {}
}

/// No position is excluded at the very start of a buffer: nothing stands
/// before it that could open a comment or a string.
pub proof fn lemma_start_is_not_excluded(b: Seq<u8>)
    ensures
        !is_excluded_position(b, 0),
{
    lemma_nothing_before_is_not_excluded(bytes_before(b, 0));
}

/// In an empty buffer no position is excluded, whatever the offset.
pub proof fn lemma_empty_buffer_is_not_excluded(b: Seq<u8>, offset: int)
    requires
        b.len() == 0,
    ensures
        !is_excluded_position(b, offset),
{
    lemma_nothing_before_is_not_excluded(bytes_before(b, offset));
}

/// Whether a position is excluded depends on the bytes before it alone: two
/// buffers that agree up to the offset get the same answer, and so does one
/// buffer that is scanned twice.
pub proof fn lemma_excluded_reads_prefix(a: Seq<u8>, b: Seq<u8>, offset: int)
    requires
        bytes_before(a, offset) == bytes_before(b, offset),
    ensures
        is_excluded_position(a, offset) == is_excluded_position(b, offset),
{
}

fn line_comment_before(bytes: &[u8], n: usize) -> (found: bool)
    requires
        n <= bytes@.len(),
    ensures
        found == in_line_comment(bytes@.subrange(0, n as int)),
{
    let ghost before = bytes@.subrange(0, n as int);
    let mut found = false;
    let mut i: usize = 0;
    while i < n
        invariant
            i <= n <= bytes@.len(),
            before == bytes@.subrange(0, n as int),
            found == exists|k: int| k < i && comment_reaches(before, k, i as int),
        decreases n - i,
    {
        let ghost was = found;
        let ghost cur = i as int;
        let ghost next = i + 1;
        if bytes[i] == NEWLINE {
            found = false;
            proof {
                assert forall|k: int| k < next implies !comment_reaches(before, k, next) by {
                    if pair_at(before, k, SLASH, SLASH) {
                        assert(before[cur] == NEWLINE);
                    }
                }
            }
        } else if i + 1 < n && bytes[i] == SLASH && bytes[i + 1] == SLASH {
            found = true;
            assert(comment_reaches(before, cur, next));
        } else {
            proof {
                if was {
                    let k = choose|k: int| k < cur && comment_reaches(before, k, cur);
                    assert(comment_reaches(before, k, next));
                }
                assert forall|k: int| k < next && comment_reaches(before, k, next) implies was by {
                    assert(!pair_at(before, cur, SLASH, SLASH));
                    assert(comment_reaches(before, k, cur));
                }
            }
        }
        i += 1;
    }
    proof {
        let ghost end = n as int;
        assert forall|k: int| comment_reaches(before, k, end) implies k < end by {}
    }
    found
}

fn block_comment_open(bytes: &[u8], n: usize) -> (open: bool)
    requires
        n <= bytes@.len(),
    ensures
        open == in_block_comment(bytes@.subrange(0, n as int)),
{
    let ghost before = bytes@.subrange(0, n as int);
    let mut opens: usize = 0;
    let mut closes: usize = 0;
    let mut i: usize = 0;
    while i < n
        invariant
            i <= n <= bytes@.len(),
            before == bytes@.subrange(0, n as int),
            opens == count_pairs_below(before, SLASH, STAR, i as int),
            closes == count_pairs_below(before, STAR, SLASH, i as int),
            opens <= i,
            closes <= i,
        decreases n - i,
    {
        if i + 1 < n {
            if bytes[i] == SLASH && bytes[i + 1] == STAR {
                opens += 1;
            } else if bytes[i] == STAR && bytes[i + 1] == SLASH {
                closes += 1;
            }
        }
        i += 1;
    }
    opens > closes
}

fn string_open_before(bytes: &[u8], n: usize) -> (open: bool)
    requires
        n <= bytes@.len(),
    ensures
        open == ends_in_string(bytes@.subrange(0, n as int), 0, false),
{
    let ghost before = bytes@.subrange(0, n as int);
    let mut in_raw = false;
    let mut i: usize = 0;
    while i < n
        invariant
            i <= n <= bytes@.len(),
            before == bytes@.subrange(0, n as int),
            ends_in_string(before, 0, false) == ends_in_string(before, i as int, in_raw),
        decreases n - i,
    {
        if in_raw {
            if bytes[i] == QUOTE {
                in_raw = false;
            }
            i += 1;
        } else {
            let mut raw_end: usize = i;
            if bytes[i] == LOWER_R && i + 1 < n {
                let mut j: usize = i + 1;
                while j < n && bytes[j] == HASH
                    invariant
                        i + 1 <= j <= n <= bytes@.len(),
                        before == bytes@.subrange(0, n as int),
                        skip_hashes(before, i + 1) == skip_hashes(before, j as int),
                    decreases n - j,
                {
                    j += 1;
                }
                if j < n && bytes[j] == QUOTE {
                    raw_end = j + 1;
                }
            }
            if raw_end > i {
                in_raw = true;
                i = raw_end;
            } else if bytes[i] == QUOTE && (i == 0 || bytes[i - 1] != BACKSLASH) {
                let mut k: usize = i + 1;
                while k < n && !(bytes[k] == QUOTE && bytes[k - 1] != BACKSLASH)
                    invariant
                        i + 1 <= k <= n <= bytes@.len(),
                        before == bytes@.subrange(0, n as int),
                        closing_quote(before, i + 1) == closing_quote(before, k as int),
                    decreases n - k,
                {
                    k += 1;
                }
                if k >= n {
                    return true;
                }
                i = k + 1;
            } else {
                i += 1;
            }
        }
    }
    in_raw
}

/// Tells whether the byte offset `match_start` of `content` lies inside a
/// line comment, an unterminated block comment or a string literal.
///
/// Only the bytes before the offset are read, and the answer is a best
/// effort: comment markers inside strings are counted as markers, and any
/// quote ends a raw string. The offset counts bytes and is meant to stand
/// where a character begins; one past the end counts as the end. In an empty
/// buffer nothing is excluded.
pub fn is_in_comment_or_string(content: &str, match_start: usize) -> (excluded: bool)
    ensures
        excluded == is_excluded_position(content.spec_bytes(), match_start as int),
        content.spec_bytes().len() == 0 ==> !excluded,
{
    let bytes = content.as_bytes();
    let end = if match_start > bytes.len() {
        bytes.len()
    } else {
        match_start
    };
    proof {
        assert(bytes@.subrange(0, end as int) =~= bytes_before(bytes@, match_start as int));
        if bytes@.len() == 0 {
            lemma_empty_buffer_is_not_excluded(bytes@, match_start as int);
        }
    }
    line_comment_before(bytes, end) || block_comment_open(bytes, end) || string_open_before(
        bytes,
        end,
    )
}

} // verus!
