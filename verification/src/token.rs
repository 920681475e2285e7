//! Tokens, numbers and lines of a header, as functions on bytes.
//!
//! A scan sets out at an index `from` of the input and knows of no comment
//! there. Every function takes the whole input and indices into it.

use vstd::prelude::*;
use vstd::slice::slice_subrange;

verus! {

/// The horizontal tab.
pub const TAB: u8 = 9;

/// The line feed, which ends a line.
pub const LINE_FEED: u8 = 10;

/// The vertical tab.
pub const VERTICAL_TAB: u8 = 11;

/// The form feed.
pub const FORM_FEED: u8 = 12;

/// The carriage return.
pub const CARRIAGE_RETURN: u8 = 13;

/// The space.
pub const SPACE: u8 = 32;

/// The byte `#`, which opens a comment.
pub const HASH: u8 = 35;

/// The byte `+`.
pub const PLUS: u8 = 43;

/// The byte `0`.
pub const DIGIT_ZERO: u8 = 48;

/// The byte `9`.
pub const DIGIT_NINE: u8 = 57;

/// Whether `b` is one of the six bytes that separate tokens.
pub open spec fn is_whitespace(b: u8) -> bool {
    b == TAB || b == LINE_FEED || b == VERTICAL_TAB || b == FORM_FEED || b == CARRIAGE_RETURN
        || b == SPACE
}

/// Whether `b` ends a comment.
pub open spec fn is_line_end(b: u8) -> bool {
    b == LINE_FEED || b == CARRIAGE_RETURN
}

/// Whether every byte of `t` is below 128.
pub open spec fn all_ascii(t: Seq<u8>) -> bool {
    forall|i: int| 0 <= i < t.len() ==> t[i] < 128
}

/// Whether the scan that set out at `from` is inside a comment when it comes
/// to index `i`: the byte before is no line end, and either it is a `#` or
/// the scan was inside a comment there already.
pub open spec fn in_comment(s: Seq<u8>, from: int, i: int) -> bool
    decreases i - from,
{
    if i <= from {
        false
    } else {
        !is_line_end(s[i - 1]) && (s[i - 1] == HASH || in_comment(s, from, i - 1))
    }
}

/// Whether the byte at `i` is read at all: it stands outside a comment and
/// opens none. The line end that closes a comment is not shown.
pub open spec fn is_shown(s: Seq<u8>, from: int, i: int) -> bool {
    !in_comment(s, from, i) && s[i] != HASH
}

/// Index of the first shown byte at or after `i` that is no whitespace, or the
/// length of the input where there is none.
pub open spec fn token_start(s: Seq<u8>, from: int, i: int) -> int
    decreases s.len() - i,
{
    if i >= s.len() {
        s.len() as int
    } else if is_shown(s, from, i) && !is_whitespace(s[i]) {
        i
    } else {
        token_start(s, from, i + 1)
    }
}

/// Index of the first shown whitespace at or after `i`, or the length of the
/// input where there is none.
pub open spec fn token_stop(s: Seq<u8>, from: int, i: int) -> int
    decreases s.len() - i,
{
    if i >= s.len() {
        s.len() as int
    } else if is_shown(s, from, i) && is_whitespace(s[i]) {
        i
    } else {
        token_stop(s, from, i + 1)
    }
}

/// The shown bytes among those from index `i` up to `j`.
pub open spec fn shown_bytes(s: Seq<u8>, from: int, i: int, j: int) -> Seq<u8>
    decreases j - i,
{
    if j <= i {
        Seq::empty()
    } else if is_shown(s, from, j - 1) {
        shown_bytes(s, from, i, j - 1).push(s[j - 1])
    } else {
        shown_bytes(s, from, i, j - 1)
    }
}

/// The next token of a scan that sets out at `from`: the shown bytes from the
/// first one that is no whitespace up to the next shown whitespace. It is
/// empty where only blanks and comments are left.
pub open spec fn token_text(s: Seq<u8>, from: int) -> Seq<u8> {
    let first = token_start(s, from, from);
    shown_bytes(s, from, first, token_stop(s, from, first))
}

/// Where the scan for the next token leaves off: behind the whitespace that
/// ends the token, or at the end of the input.
pub open spec fn token_end(s: Seq<u8>, from: int) -> int {
    let stop = token_stop(s, from, token_start(s, from, from));
    if stop < s.len() {
        stop + 1
    } else {
        s.len() as int
    }
}

/// Whether `b` is a decimal digit.
pub open spec fn is_digit(b: u8) -> bool {
    DIGIT_ZERO <= b <= DIGIT_NINE
}

/// Whether `t` holds decimal digits only.
pub open spec fn all_digits(t: Seq<u8>) -> bool {
    forall|i: int| 0 <= i < t.len() ==> is_digit(t[i])
}

/// The number that the digits of `t` write in base ten.
pub open spec fn decimal_value(t: Seq<u8>) -> int
    decreases t.len(),
{
    if t.len() == 0 {
        0
    } else {
        10 * decimal_value(t.drop_last()) + (t.last() - DIGIT_ZERO)
    }
}

/// The number that `t` writes: one or more decimal digits, and nothing else,
/// with a value of at most 32 bits.
pub open spec fn parse_decimal(t: Seq<u8>) -> Option<u32> {
    if t.len() > 0 && all_digits(t) && decimal_value(t) <= u32::MAX {
        Some(decimal_value(t) as u32)
    } else {
        None
    }
}

/// As [`parse_decimal`], but one `+` may stand before the digits.
pub open spec fn parse_signed_decimal(t: Seq<u8>) -> Option<u32> {
    if t.len() > 0 && t[0] == PLUS {
        parse_decimal(t.skip(1))
    } else {
        parse_decimal(t)
    }
}

/// Index behind the first line feed at or after `i`, or the length of the
/// input where there is none.
pub open spec fn line_end(s: Seq<u8>, i: int) -> int
    decreases s.len() - i,
{
    if i >= s.len() {
        s.len() as int
    } else if s[i] == LINE_FEED {
        i + 1
    } else {
        line_end(s, i + 1)
    }
}

/// Index of the first whitespace of `t` at or after `i`, or the length of `t`.
pub open spec fn first_whitespace(t: Seq<u8>, i: int) -> int
    decreases t.len() - i,
{
    if i >= t.len() {
        t.len() as int
    } else if is_whitespace(t[i]) {
        i
    } else {
        first_whitespace(t, i + 1)
    }
}

/// Index of the first byte of `t` at or after `i` that is no whitespace, or
/// the length of `t`.
pub open spec fn first_non_whitespace(t: Seq<u8>, i: int) -> int
    decreases t.len() - i,
{
    if i >= t.len() {
        t.len() as int
    } else if !is_whitespace(t[i]) {
        i
    } else {
        first_non_whitespace(t, i + 1)
    }
}

/// Index behind the last byte of `t` before `j` that is no whitespace, but
/// not less than `low`.
pub open spec fn last_non_whitespace(t: Seq<u8>, low: int, j: int) -> int
    decreases j - low,
{
    if j <= low {
        low
    } else if !is_whitespace(t[j - 1]) {
        j
    } else {
        last_non_whitespace(t, low, j - 1)
    }
}

/// `t` without the whitespace at its two ends.
pub open spec fn trimmed(t: Seq<u8>) -> Seq<u8> {
    let low = first_non_whitespace(t, 0);
    t.subrange(low, last_non_whitespace(t, low, t.len() as int))
}

/// Whether a `#` stands at `j` and no line end between it and `i`.
pub open spec fn comment_runs(s: Seq<u8>, j: int, i: int) -> bool {
    s[j] == HASH && forall|k: int| j < k < i ==> !is_line_end(#[trigger] s[k])
}

/// The scan is inside a comment exactly if it has passed a `#` and no line
/// end since.
pub proof fn lemma_in_comment(s: Seq<u8>, from: int, i: int)
    ensures
        in_comment(s, from, i) <==> exists|j: int| from <= j < i && #[trigger] comment_runs(s, j, i),
    decreases i - from,
{
    if i > from {
        lemma_in_comment(s, from, i - 1);
        if in_comment(s, from, i) {
            if s[i - 1] == HASH {
                assert(comment_runs(s, i - 1, i));
            } else {
                let j = choose|j: int| from <= j < i - 1 && #[trigger] comment_runs(s, j, i - 1);
                assert(comment_runs(s, j, i));
            }
        }
        if exists|j: int| from <= j < i && #[trigger] comment_runs(s, j, i) {
            let j = choose|j: int| from <= j < i && #[trigger] comment_runs(s, j, i);
            if j < i - 1 {
                assert(!is_line_end(s[i - 1]));
                assert(comment_runs(s, j, i - 1));
            }
        }
    }
}

/// The search for the start of a token moves forward and stays inside the
/// input.
pub proof fn lemma_token_start_bounds(s: Seq<u8>, from: int, i: int)
    requires
        0 <= i <= s.len(),
    ensures
        i <= token_start(s, from, i) <= s.len(),
    decreases s.len() - i,
{
    if i < s.len() {
        lemma_token_start_bounds(s, from, i + 1);
    }
}

/// The search for the end of a token moves forward and stays inside the
/// input.
pub proof fn lemma_token_stop_bounds(s: Seq<u8>, from: int, i: int)
    requires
        0 <= i <= s.len(),
    ensures
        i <= token_stop(s, from, i) <= s.len(),
    decreases s.len() - i,
{
    if i < s.len() {
        lemma_token_stop_bounds(s, from, i + 1);
    }
}

/// A scan for a token moves forward, and past at least one byte unless none
/// is left.
pub proof fn lemma_token_end_bounds(s: Seq<u8>, from: int)
    requires
        0 <= from <= s.len(),
    ensures
        from <= token_end(s, from) <= s.len(),
        from < s.len() ==> from < token_end(s, from),
{
    lemma_token_start_bounds(s, from, from);
    lemma_token_stop_bounds(s, from, token_start(s, from, from));
}

/// A line ends inside the input, and behind at least one byte unless none is
/// left.
pub proof fn lemma_line_end_bounds(s: Seq<u8>, i: int)
    requires
        0 <= i <= s.len(),
    ensures
        i <= line_end(s, i) <= s.len(),
        i < s.len() ==> i < line_end(s, i),
    decreases s.len() - i,
{
    if i < s.len() {
        lemma_line_end_bounds(s, i + 1);
    }
}

/// Trimming keeps a stretch of the bytes, so it keeps them below 128.
pub proof fn lemma_trimmed_ascii(t: Seq<u8>)
    requires
        all_ascii(t),
    ensures
        all_ascii(trimmed(t)),
{
    lemma_first_non_whitespace_bounds(t, 0);
    lemma_last_non_whitespace_bounds(t, first_non_whitespace(t, 0), t.len() as int);
}

/// The first whitespace is found at or behind the index where the search
/// sets out.
pub proof fn lemma_first_whitespace_bounds(t: Seq<u8>, i: int)
    requires
        0 <= i <= t.len(),
    ensures
        i <= first_whitespace(t, i) <= t.len(),
    decreases t.len() - i,
{
    if i < t.len() {
        lemma_first_whitespace_bounds(t, i + 1);
    }
}

/// The first byte that is no whitespace is found at or behind the index
/// where the search sets out.
pub proof fn lemma_first_non_whitespace_bounds(t: Seq<u8>, i: int)
    requires
        0 <= i <= t.len(),
    ensures
        i <= first_non_whitespace(t, i) <= t.len(),
    decreases t.len() - i,
{
    if i < t.len() {
        lemma_first_non_whitespace_bounds(t, i + 1);
    }
}

/// The last byte that is no whitespace is found between the two indices of
/// the search.
pub proof fn lemma_last_non_whitespace_bounds(t: Seq<u8>, low: int, j: int)
    requires
        0 <= low <= j <= t.len(),
    ensures
        low <= last_non_whitespace(t, low, j) <= j,
    decreases j - low,
{
    if low < j {
        lemma_last_non_whitespace_bounds(t, low, j - 1);
    }
}

/// Whether `b` is one of the six bytes that separate tokens.
pub fn whitespace(b: u8) -> (r: bool)
    ensures
        r == is_whitespace(b),
{
    b == TAB || b == LINE_FEED || b == VERTICAL_TAB || b == FORM_FEED || b == CARRIAGE_RETURN
        || b == SPACE
}

/// Reads the next token of `data` from index `from` on. Returns the token and
/// the index at which the scan left off.
pub fn scan_token(data: &[u8], from: usize) -> (r: (Vec<u8>, usize))
    requires
        from <= data@.len(),
    ensures
        r.0@ == token_text(data@, from as int),
        r.1 == token_end(data@, from as int),
        from <= r.1 <= data@.len(),
{
    let ghost s = data@;
    let ghost start = from as int;
    let mut token: Vec<u8> = Vec::new();
    let mut pos: usize = from;
    let mut live = true;
    proof {
        lemma_token_end_bounds(s, start);
    }
    while pos < data.len()
        invariant
            s == data@,
            start == from,
            from <= pos <= data.len(),
            live == !in_comment(s, start, pos as int),
            token@.len() == 0 ==> token_start(s, start, start) == token_start(
                s,
                start,
                pos as int,
            ),
            token@.len() > 0 ==> {
                let first = token_start(s, start, start);
                &&& first < pos
                &&& token@ == shown_bytes(s, start, first, pos as int)
                &&& token_stop(s, start, first) == token_stop(s, start, pos as int)
            },
        decreases data.len() - pos,
    {
        let b = data[pos];
        let shown = live && b != HASH;
        if shown && whitespace(b) {
            if token.len() > 0 {
                return (token, pos + 1);
            }
        } else if shown {
            proof {
                if token@.len() == 0 {
                    assert(shown_bytes(s, start, pos as int, pos as int) =~= Seq::empty());
                }
            }
            token.push(b);
        }
        live = shown || b == LINE_FEED || b == CARRIAGE_RETURN;
        pos = pos + 1;
    }
    (token, pos)
}

/// Reads `t` as a decimal number of 32 bits.
pub fn parse_u32(t: &[u8]) -> (r: Option<u32>)
    ensures
        r == parse_decimal(t@),
{
    if t.len() == 0 {
        return None;
    }
    let mut value: u64 = 0;
    let mut i: usize = 0;
    while i < t.len()
        invariant
            i <= t.len(),
            all_digits(t@.take(i as int)),
            value == decimal_value(t@.take(i as int)),
            value <= u32::MAX,
        decreases t.len() - i,
    {
        let b = t[i];
        proof {
            assert(t@.take(i + 1).drop_last() =~= t@.take(i as int));
            assert(t@.take(i + 1).last() == b);
            if all_digits(t@) {
                lemma_decimal_prefix(t@, i + 1);
            }
        }
        if b < DIGIT_ZERO || b > DIGIT_NINE {
            assert(!is_digit(t@[i as int]));
            return None;
        }
        value = 10 * value + (b - DIGIT_ZERO) as u64;
        if value > 0xFFFF_FFFF {
            return None;
        }
        i = i + 1;
    }
    assert(t@.take(i as int) =~= t@);
    Some(value as u32)
}

/// The value of the first `n` digits is at most that of all of them.
pub proof fn lemma_decimal_prefix(t: Seq<u8>, n: int)
    requires
        0 <= n <= t.len(),
        all_digits(t),
    ensures
        0 <= decimal_value(t.take(n)) <= decimal_value(t),
    decreases t.len(),
{
    if n < t.len() {
        assert(t.drop_last().take(n) =~= t.take(n));
        lemma_decimal_prefix(t.drop_last(), n);
        assert(is_digit(t.last()));
    } else {
        assert(t.take(n) =~= t);
        if t.len() > 0 {
            lemma_decimal_prefix(t.drop_last(), t.len() - 1);
            assert(is_digit(t.last()));
        }
    }
}

/// Reads `t` as a decimal number of 32 bits that may carry a `+`.
pub fn parse_signed_u32(t: &[u8]) -> (r: Option<u32>)
    ensures
        r == parse_signed_decimal(t@),
{
    if t.len() > 0 && t[0] == PLUS {
        let digits = slice_subrange(t, 1, t.len());
        assert(digits@ =~= t@.skip(1));
        parse_u32(digits)
    } else {
        parse_u32(t)
    }
}

/// The index behind the line that starts at `from`.
pub fn scan_line(data: &[u8], from: usize) -> (r: usize)
    requires
        from <= data@.len(),
    ensures
        r == line_end(data@, from as int),
        from <= r <= data@.len(),
        from < data@.len() ==> from < r,
{
    let mut pos: usize = from;
    proof {
        lemma_line_end_bounds(data@, from as int);
    }
    while pos < data.len()
        invariant
            from <= pos <= data.len(),
            line_end(data@, from as int) == line_end(data@, pos as int),
        decreases data.len() - pos,
    {
        if data[pos] == LINE_FEED {
            return pos + 1;
        }
        pos = pos + 1;
    }
    pos
}

/// The index of the first whitespace of `t`, or its length.
pub fn find_whitespace(t: &[u8]) -> (r: usize)
    ensures
        r == first_whitespace(t@, 0),
        r <= t@.len(),
{
    let mut i: usize = 0;
    while i < t.len()
        invariant
            i <= t.len(),
            first_whitespace(t@, 0) == first_whitespace(t@, i as int),
        decreases t.len() - i,
    {
        if whitespace(t[i]) {
            return i;
        }
        i = i + 1;
    }
    i
}

/// `t` without the whitespace at its two ends.
pub fn trim(t: &[u8]) -> (r: &[u8])
    ensures
        r@ == trimmed(t@),
{
    let mut low: usize = 0;
    while low < t.len() && whitespace(t[low])
        invariant
            low <= t.len(),
            first_non_whitespace(t@, 0) == first_non_whitespace(t@, low as int),
        decreases t.len() - low,
    {
        low = low + 1;
    }
    let mut high: usize = t.len();
    while high > low && whitespace(t[high - 1])
        invariant
            low <= high <= t.len(),
            last_non_whitespace(t@, low as int, t@.len() as int) == last_non_whitespace(
                t@,
                low as int,
                high as int,
            ),
        decreases high - low,
    {
        high = high - 1;
    }
    slice_subrange(t, low, high)
}

/// Whether every byte of `t` is below 128.
pub fn is_ascii(t: &[u8]) -> (r: bool)
    ensures
        r == all_ascii(t@),
{
    let mut i: usize = 0;
    while i < t.len()
        invariant
            i <= t.len(),
            forall|k: int| 0 <= k < i ==> t@[k] < 128,
        decreases t.len() - i,
    {
        if t[i] >= 128 {
            return false;
        }
        i = i + 1;
    }
    true
}

/// Whether `a` and `b` hold the same bytes.
pub fn bytes_eq(a: &[u8], b: &[u8]) -> (r: bool)
    ensures
        r == (a@ == b@),
{
    if a.len() != b.len() {
        return false;
    }
    let mut i: usize = 0;
    while i < a.len()
        invariant
            i <= a.len(),
            a.len() == b.len(),
            forall|k: int| 0 <= k < i ==> a@[k] == b@[k],
        decreases a.len() - i,
    {
        if a[i] != b[i] {
            return false;
        }
        i = i + 1;
    }
    assert(a@ =~= b@);
    true
}

} // verus!
