//! The bracket structure of a program: how often a character occurs, how
//! deep a stretch of code nests, and which bracket answers which.

use vstd::prelude::*;

verus! {

/// How many positions `i` with `lo <= i < hi` hold the character `c`.
pub open spec fn occurrences(code: Seq<char>, c: char, lo: int, hi: int) -> nat
    decreases hi - lo,
{
    if hi <= lo {
        0
    } else {
        occurrences(code, c, lo, hi - 1) + if code[hi - 1] == c { 1nat } else { 0nat }
    }
}

/// A program is balanced when it holds as many `[` as `]`, wherever they stand.
pub open spec fn balanced(code: Seq<char>) -> bool {
    occurrences(code, '[', 0, code.len() as int) == occurrences(code, ']', 0, code.len() as int)
}

/// The change of nesting depth over the positions `lo <= i < hi`:
/// the number of `[` there minus the number of `]`.
pub open spec fn net_depth(code: Seq<char>, lo: int, hi: int) -> int {
    occurrences(code, '[', lo, hi) - occurrences(code, ']', lo, hi)
}

/// The change of nesting depth over the positions `first <= i <= last`.
pub open spec fn span_depth(code: Seq<char>, first: int, last: int) -> int {
    net_depth(code, first, last + 1)
}

/// `close` holds the `]` that ends the loop opened by the `[` at `open`:
/// it is the first position after `open` at which the brackets read from
/// `open` on cancel out.
pub open spec fn closes_at(code: Seq<char>, open: int, close: int) -> bool {
    &&& 0 <= open < close < code.len()
    &&& code[open] == '['
    &&& span_depth(code, open, close) == 0
    &&& forall|k: int| open <= k < close ==> span_depth(code, open, k) > 0
}

/// `open` holds the `[` that begins the loop ended by the `]` at `close`:
/// it is the last position before `close` from which the brackets read up
/// to `close` cancel out.
pub open spec fn opens_at(code: Seq<char>, close: int, open: int) -> bool {
    &&& 0 <= open < close < code.len()
    &&& code[close] == ']'
    &&& span_depth(code, open, close) == 0
    &&& forall|k: int| open < k <= close ==> span_depth(code, k, close) < 0
}

/// A program is well nested when no prefix closes more loops than it has
/// opened and the whole program closes all of them.
pub open spec fn well_nested(code: Seq<char>) -> bool {
    &&& net_depth(code, 0, code.len() as int) == 0
    &&& forall|h: int| 0 <= h <= code.len() ==> net_depth(code, 0, h) >= 0
}

/// Counting over `lo..hi` is counting over `lo..mid` and over `mid..hi`.
pub proof fn lemma_occurrences_split(code: Seq<char>, c: char, lo: int, mid: int, hi: int)
    requires
        lo <= mid <= hi,
    ensures
        occurrences(code, c, lo, hi) == occurrences(code, c, lo, mid) + occurrences(code, c, mid, hi),
    decreases hi - mid,
{
    if mid < hi {
        lemma_occurrences_split(code, c, lo, mid, hi - 1);
    }
}

/// The depth over `lo..hi` is the depth over `lo..mid` plus that over `mid..hi`.
pub proof fn lemma_net_depth_split(code: Seq<char>, lo: int, mid: int, hi: int)
    requires
        lo <= mid <= hi,
    ensures
        net_depth(code, lo, hi) == net_depth(code, lo, mid) + net_depth(code, mid, hi),
{
    lemma_occurrences_split(code, '[', lo, mid, hi);
    lemma_occurrences_split(code, ']', lo, mid, hi);
}

/// A well-nested program is balanced.
pub proof fn lemma_well_nested_is_balanced(code: Seq<char>)
    requires
        well_nested(code),
    ensures
        balanced(code),
{
}

/// An opening bracket has at most one closing partner.
pub proof fn lemma_closes_at_unique(code: Seq<char>, open: int, a: int, b: int)
    requires
        closes_at(code, open, a),
        closes_at(code, open, b),
    ensures
        a == b,
{
    if a < b {
        assert(span_depth(code, open, a) > 0);
    } else if b < a {
        assert(span_depth(code, open, b) > 0);
    }
}

/// A closing bracket has at most one opening partner.
pub proof fn lemma_opens_at_unique(code: Seq<char>, close: int, a: int, b: int)
    requires
        opens_at(code, close, a),
        opens_at(code, close, b),
    ensures
        a == b,
{
    if a < b {
        assert(span_depth(code, b, close) < 0);
    } else if b < a {
        assert(span_depth(code, a, close) < 0);
    }
}

/// Looks for the `]` that ends the loop opened at `open`, reading forward
/// and keeping count of the loops opened on the way.
pub fn find_close(code: &Vec<char>, open: usize) -> (found: Option<usize>)
    requires
        open < code.len(),
        code[open as int] == '[',
    ensures
        found matches Some(close) ==> closes_at(code@, open as int, close as int),
        found is None ==> forall|j: int| !closes_at(code@, open as int, j),
{
    let mut pos: usize = open;
    let mut depth: usize = 1;
    assert(span_depth(code@, open as int, open as int) == 1) by {
        reveal_with_fuel(occurrences, 2);
    }
    while pos + 1 < code.len()
        invariant
            open <= pos < code.len(),
            code[open as int] == '[',
            depth == span_depth(code@, open as int, pos as int),
            1 <= depth <= pos - open + 1,
            forall|k: int| open <= k <= pos ==> span_depth(code@, open as int, k) > 0,
        decreases code.len() - pos,
    {
        pos += 1;
        let c: char = code[pos];
        if c == '[' {
            depth += 1;
        } else if c == ']' {
            depth -= 1;
            if depth == 0 {
                return Some(pos);
            }
        }
    }
    None
}

/// Looks for the `[` that begins the loop ended at `close`, reading
/// backward and keeping count of the loops closed on the way.
pub fn find_open(code: &Vec<char>, close: usize) -> (found: Option<usize>)
    requires
        close < code.len(),
        code[close as int] == ']',
    ensures
        found matches Some(open) ==> opens_at(code@, close as int, open as int),
        found is None ==> forall|i: int| !opens_at(code@, close as int, i),
{
    let mut pos: usize = close;
    let mut depth: usize = 1;
    assert(span_depth(code@, close as int, close as int) == -1) by {
        reveal_with_fuel(occurrences, 2);
    }
    while pos > 0
        invariant
            pos <= close < code.len(),
            code[close as int] == ']',
            depth == -span_depth(code@, pos as int, close as int),
            1 <= depth <= close - pos + 1,
            forall|k: int| pos <= k <= close ==> span_depth(code@, k, close as int) < 0,
        decreases pos,
    {
        pos -= 1;
        let c: char = code[pos];
        proof {
            lemma_net_depth_split(code@, pos as int, pos + 1, close + 1);
            reveal_with_fuel(occurrences, 2);
        }
        if c == ']' {
            depth += 1;
        } else if c == '[' {
            depth -= 1;
            if depth == 0 {
                return Some(pos);
            }
        }
    }
    None
}

} // verus!
