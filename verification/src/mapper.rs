//! The position mapper: converts a (line, character) range into the slice of
//! the document text that it denotes, counting positions in Unicode scalar
//! values (codepoints), never in bytes.

use vstd::prelude::*;

verus! {

/// A zero-based (line, character) coordinate within a document, with the
/// character offset counted in codepoints from the start of the line.
#[derive(Clone, Copy, Debug, PartialEq, Eq, Structural)]
pub struct Position {
    pub line: u32,
    pub character: u32,
}

/// A span of text delimited by a start and an end position.
#[derive(Clone, Copy, Debug, PartialEq, Eq, Structural)]
pub struct TextRange {
    pub start: Position,
    pub end: Position,
}

/// How many line terminators (`'\n'`) occur in `t` strictly before index `i`.
pub open spec fn newlines_up_to(t: Seq<char>, i: int) -> int
    decreases i,
{
    if i <= 0 {
        0
    } else {
        newlines_up_to(t, i - 1) + if t[i - 1] == '\n' {
            1int
        } else {
            0int
        }
    }
}

/// The number of lines of `t`: one more than the number of line terminators,
/// so an empty text still has one (empty) line.
pub open spec fn line_count(t: Seq<char>) -> int {
    newlines_up_to(t, t.len() as int) + 1
}

/// The first index at or after `i` whose running line counter equals `l`,
/// scanning as the mapper does; `None` if no index of `t` lies on line `l`.
pub open spec fn line_begin_from(t: Seq<char>, l: int, i: int) -> Option<int>
    decreases t.len() - i,
{
    if i < 0 || i >= t.len() {
        None
    } else if newlines_up_to(t, i) == l {
        Some(i)
    } else {
        line_begin_from(t, l, i + 1)
    }
}

/// The character index at which line `l` first becomes current, or `None`
/// when no character of `t` lies on line `l` (the line is never reached).
pub open spec fn line_begin(t: Seq<char>, l: int) -> Option<int> {
    line_begin_from(t, l, 0)
}

/// The raw start offset of a range: the index where the start line begins
/// plus the start character, or 0 when the start line is never reached.
/// A character value past the line's length spills into following lines.
pub open spec fn start_offset(t: Seq<char>, r: TextRange) -> int {
    match line_begin(t, r.start.line as int) {
        Some(i) => i + r.start.character as int,
        None => 0,
    }
}

/// The raw end offset of a range: the index where the end line begins plus
/// the end character, or the length of `t` when the end line is never reached.
pub open spec fn end_offset(t: Seq<char>, r: TextRange) -> int {
    match line_begin(t, r.end.line as int) {
        Some(i) => i + r.end.character as int,
        None => t.len() as int,
    }
}

/// The end offset clamped to the length of `t`.
pub open spec fn end_offset_clamped(t: Seq<char>, r: TextRange) -> int {
    if end_offset(t, r) <= t.len() {
        end_offset(t, r)
    } else {
        t.len() as int
    }
}

/// The start offset clamped so that it never exceeds the clamped end offset;
/// a range whose end precedes its start therefore denotes an empty slice.
pub open spec fn start_offset_clamped(t: Seq<char>, r: TextRange) -> int {
    if start_offset(t, r) <= end_offset_clamped(t, r) {
        start_offset(t, r)
    } else {
        end_offset_clamped(t, r)
    }
}

/// The slice of `t` that the range denotes.
pub open spec fn range_slice(t: Seq<char>, r: TextRange) -> Seq<char> {
    t.subrange(start_offset_clamped(t, r), end_offset_clamped(t, r))
}

/// The clamped offsets are always a well-formed subrange of `t`.
pub proof fn lemma_offsets_in_bounds(t: Seq<char>, r: TextRange)
    ensures
        0 <= start_offset_clamped(t, r) <= end_offset_clamped(t, r) <= t.len(),
{
    lemma_line_begin_in_bounds(t, r.start.line as int);
    lemma_line_begin_in_bounds(t, r.end.line as int);
}

/// Wherever a line begins, that index lies inside `t`.
proof fn lemma_line_begin_in_bounds(t: Seq<char>, l: int)
    ensures
        line_begin(t, l) matches Some(i) ==> 0 <= i < t.len(),
{
    lemma_line_begin_from_in_bounds(t, l, 0);
}

proof fn lemma_line_begin_from_in_bounds(t: Seq<char>, l: int, i: int)
    ensures
        line_begin_from(t, l, i) matches Some(j) ==> i <= j < t.len(),
    decreases t.len() - i,
{
    if 0 <= i < t.len() && newlines_up_to(t, i) != l {
        lemma_line_begin_from_in_bounds(t, l, i + 1);
    }
}

/// The text that results from replacing the span a range denotes with a
/// replacement slice: the prefix before the span, the replacement, and the
/// suffix after the span.
pub open spec fn apply_edit(t: Seq<char>, r: TextRange, replacement: Seq<char>) -> Seq<char> {
    t.subrange(0, start_offset_clamped(t, r)) + replacement + t.subrange(
        end_offset_clamped(t, r),
        t.len() as int,
    )
}

/// Counting newlines over a longer prefix never counts fewer.
proof fn lemma_newlines_monotone(t: Seq<char>, i: int, j: int)
    requires
        i <= j,
    ensures
        newlines_up_to(t, i) <= newlines_up_to(t, j),
    decreases j - i,
{
    if i < j {
        lemma_newlines_monotone(t, i, j - 1);
    }
}

/// A line number larger than every newline count of `t` is never reached.
proof fn lemma_line_begin_from_none_above(t: Seq<char>, l: int, i: int)
    requires
        l > newlines_up_to(t, t.len() as int),
        i >= 0,
    ensures
        line_begin_from(t, l, i) is None,
    decreases t.len() - i,
{
    if i < t.len() {
        lemma_newlines_monotone(t, i, t.len() as int);
        lemma_line_begin_from_none_above(t, l, i + 1);
    }
}

/// Extracting the slice a range denotes and re-inserting it at that same
/// range reproduces the text unchanged: the proposed self-edit is a no-op.
pub proof fn lemma_self_edit_identity(t: Seq<char>, r: TextRange)
    ensures
        apply_edit(t, r, range_slice(t, r)) == t,
{
    lemma_offsets_in_bounds(t, r);
    assert(apply_edit(t, r, range_slice(t, r)) =~= t);
}

/// A range whose start line is not a line of `t` denotes a slice that starts
/// at offset 0.
pub proof fn lemma_start_line_out_of_bounds(t: Seq<char>, r: TextRange)
    requires
        r.start.line as int >= line_count(t),
    ensures
        start_offset_clamped(t, r) == 0,
        range_slice(t, r) == t.subrange(0, end_offset_clamped(t, r)),
{
    lemma_line_begin_from_none_above(t, r.start.line as int, 0);
    lemma_offsets_in_bounds(t, r);
}

/// A range whose end line is not a line of `t` denotes a slice that ends at
/// the true end of `t`.
pub proof fn lemma_end_line_out_of_bounds(t: Seq<char>, r: TextRange)
    requires
        r.end.line as int >= line_count(t),
    ensures
        end_offset_clamped(t, r) == t.len(),
        range_slice(t, r) == t.subrange(start_offset_clamped(t, r), t.len() as int),
{
    lemma_line_begin_from_none_above(t, r.end.line as int, 0);
}

/// Extract the slice of `s` denoted by `r`.
///
/// The scan walks the text by codepoint, keeping a running line counter that
/// steps at each `'\n'`. The start offset is the index at which the counter
/// first equals the start line, plus the start character; likewise for the
/// end. A start line that is never reached defaults the start offset to 0; an
/// end line that is never reached defaults the end offset to the text's end.
/// Offsets are then clamped so that the slice is always well formed.
pub fn string_range_index<'a>(s: &'a str, r: TextRange) -> (ret: &'a str)
    ensures
        ret@ == range_slice(s@, r),
{
    let ghost t: Seq<char> = s@;
    let n: usize = s.unicode_len();
    let mut newline_count: u64 = 0;
    let mut start: Option<usize> = None;
    let mut end: Option<usize> = None;
    let mut i: usize = 0;
    while i < n
        invariant
            t == s@,
            n == t.len(),
            0 <= i <= n,
            newline_count == newlines_up_to(t, i as int),
            newline_count <= i,
            match start {
                Some(j) => line_begin(t, r.start.line as int) == Some(j as int),
                None => line_begin(t, r.start.line as int) == line_begin_from(
                    t,
                    r.start.line as int,
                    i as int,
                ),
            },
            match end {
                Some(j) => line_begin(t, r.end.line as int) == Some(j as int),
                None => line_begin(t, r.end.line as int) == line_begin_from(
                    t,
                    r.end.line as int,
                    i as int,
                ),
            },
        decreases n - i,
    {
        if newline_count == r.start.line as u64 && start.is_none() {
            start = Some(i);
        }
        if newline_count == r.end.line as u64 && end.is_none() {
            end = Some(i);
        }
        let c = s.get_char(i);
        if c == '\n' {
            newline_count = newline_count + 1;
        }
        i = i + 1;
    }
    proof {
        lemma_line_begin_in_bounds(t, r.start.line as int);
        lemma_line_begin_in_bounds(t, r.end.line as int);
    }
    let end_off: usize = match end {
        Some(j) => {
            if r.end.character as usize <= n - j {
                j + r.end.character as usize
            } else {
                n
            }
        },
        None => n,
    };
    let start_off: usize = match start {
        Some(j) => {
            if j >= end_off {
                end_off
            } else if r.start.character as usize <= end_off - j {
                j + r.start.character as usize
            } else {
                end_off
            }
        },
        None => 0,
    };
    s.substring_char(start_off, end_off)
}

} // verus!
