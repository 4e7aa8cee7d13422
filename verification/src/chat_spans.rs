//! Splitting a chat line into plain text, `@` mentions and clickable
//! location tokens `&:[x, y, z]`.
//!
//! A coordinate is `[+-]digits[.digits]` with at least one digit; the
//! scanner gives the byte range of each, and the caller reads them as
//! numbers.
use vstd::prelude::*;
use vstd::string::StringSliceAdditionalSpecFns;
use vstd::utf8::is_char_boundary;
use crate::text::is_ascii_ws_byte;
use crate::chat::{
    skip_ws_from, skip_ascii_whitespace, mention_span_from, mention_end, word_end, find_byte_from,
    scan_mention_span,
};

verus! {

pub open spec fn is_digit_byte(b: u8) -> bool {
    48 <= b && b <= 57
}

/// The end of the run of ASCII digits that starts at `i`.
pub open spec fn digits_end(b: Seq<u8>, i: int) -> int
    decreases b.len() - i,
{
    if 0 <= i < b.len() && is_digit_byte(b[i]) {
        digits_end(b, i + 1)
    } else {
        i
    }
}

/// The end of the coordinate `[+-]digits[.digits]` that starts at `start`,
/// if it has a digit.
pub open spec fn number_end(b: Seq<u8>, start: int) -> Option<int> {
    let i0 = if 0 <= start < b.len() && (b[start] == 43 || b[start] == 45) {
        start + 1
    } else {
        start
    };
    let i1 = digits_end(b, i0);
    let has_point = 0 <= i1 < b.len() && b[i1] == 46;
    let i2 = if has_point {
        digits_end(b, i1 + 1)
    } else {
        i1
    };
    if i1 > i0 || i2 - i1 > 1 {
        Some(i2)
    } else {
        None
    }
}

/// A range of byte indices, end exclusive.
#[derive(Clone, Copy, PartialEq, Eq, Debug, Structural)]
pub struct ByteRange {
    pub start: usize,
    pub end: usize,
}

/// A location token `&:[x, y, z]` in a chat line: where it starts and ends
/// (byte indices, end exclusive) and the byte range of each coordinate.
#[derive(Clone, Copy, PartialEq, Eq, Debug, Structural)]
pub struct LocationToken {
    pub start: usize,
    pub end: usize,
    pub x: ByteRange,
    pub y: ByteRange,
    pub z: ByteRange,
}

pub open spec fn is_location_opener(b: Seq<u8>, i: int) -> bool {
    0 <= i && i + 3 <= b.len() && b[i] == 38 && b[i + 1] == 58 && b[i + 2] == 91
}

pub open spec fn byte_is(b: Seq<u8>, i: int, x: u8) -> bool {
    0 <= i < b.len() && b[i] == x
}

/// The location token starting at `start`: `&:[`, then three coordinates
/// separated by commas and closed by `]`, with ASCII whitespace allowed
/// around each coordinate.
pub open spec fn location_at(b: Seq<u8>, start: int) -> Option<LocationToken> {
    if !is_location_opener(b, start) {
        None
    } else {
        let xs = skip_ws_from(b, start + 3);
        match number_end(b, xs) {
            None => None,
            Some(xe) => {
                let c1 = skip_ws_from(b, xe);
                if !byte_is(b, c1, 44) {
                    None
                } else {
                    let ys = skip_ws_from(b, c1 + 1);
                    match number_end(b, ys) {
                        None => None,
                        Some(ye) => {
                            let c2 = skip_ws_from(b, ye);
                            if !byte_is(b, c2, 44) {
                                None
                            } else {
                                let zs = skip_ws_from(b, c2 + 1);
                                match number_end(b, zs) {
                                    None => None,
                                    Some(ze) => {
                                        let c3 = skip_ws_from(b, ze);
                                        if !byte_is(b, c3, 93) {
                                            None
                                        } else {
                                            Some(
                                                LocationToken {
                                                    start: start as usize,
                                                    end: (c3 + 1) as usize,
                                                    x: ByteRange { start: xs as usize, end: xe as usize },
                                                    y: ByteRange { start: ys as usize, end: ye as usize },
                                                    z: ByteRange { start: zs as usize, end: ze as usize },
                                                },
                                            )
                                        }
                                    },
                                }
                            }
                        },
                    }
                }
            },
        }
    }
}

/// The first location token starting at or after byte `i`.
pub open spec fn location_span_from(b: Seq<u8>, i: int) -> Option<LocationToken>
    decreases b.len() - i,
{
    if i < 0 || i >= b.len() {
        None
    } else if location_at(b, i) is Some {
        location_at(b, i)
    } else {
        location_span_from(b, i + 1)
    }
}

/// A run of digits ends within the line, at or after its start.
pub proof fn lemma_digits_end(b: Seq<u8>, i: int)
    requires
        0 <= i <= b.len(),
    ensures
        i <= digits_end(b, i) <= b.len(),
    decreases b.len() - i,
{
    if i < b.len() && is_digit_byte(b[i]) {
        lemma_digits_end(b, i + 1);
    }
}

/// Skipping whitespace ends within the line, at or after its start.
pub proof fn lemma_skip_ws(b: Seq<u8>, i: int)
    requires
        0 <= i <= b.len(),
    ensures
        i <= skip_ws_from(b, i) <= b.len(),
    decreases b.len() - i,
{
    if i < b.len() && is_ascii_ws_byte(b[i]) {
        lemma_skip_ws(b, i + 1);
    }
}

/// A number found at `start` is not empty and ends within the line.
pub proof fn lemma_number_end(b: Seq<u8>, start: int)
    requires
        0 <= start <= b.len(),
    ensures
        number_end(b, start) matches Some(e) ==> start < e <= b.len(),
{
    let i0 = if 0 <= start < b.len() && (b[start] == 43 || b[start] == 45) {
        start + 1
    } else {
        start
    };
    lemma_digits_end(b, i0);
    let i1 = digits_end(b, i0);
    if 0 <= i1 < b.len() && b[i1] == 46 {
        lemma_digits_end(b, i1 + 1);
    }
}

/// A token ends after its start and within the line.
pub proof fn lemma_location_at(b: Seq<u8>, start: int)
    requires
        b.len() <= usize::MAX,
    ensures
        location_at(b, start) matches Some(t) ==> start == t.start && start < t.end <= b.len(),
{
    if is_location_opener(b, start) {
        lemma_skip_ws(b, start + 3);
        let xs = skip_ws_from(b, start + 3);
        lemma_number_end(b, xs);
        if let Some(xe) = number_end(b, xs) {
            lemma_skip_ws(b, xe);
            let c1 = skip_ws_from(b, xe);
            if byte_is(b, c1, 44) {
                lemma_skip_ws(b, c1 + 1);
                let ys = skip_ws_from(b, c1 + 1);
                lemma_number_end(b, ys);
                if let Some(ye) = number_end(b, ys) {
                    lemma_skip_ws(b, ye);
                    let c2 = skip_ws_from(b, ye);
                    if byte_is(b, c2, 44) {
                        lemma_skip_ws(b, c2 + 1);
                        let zs = skip_ws_from(b, c2 + 1);
                        lemma_number_end(b, zs);
                        if let Some(ze) = number_end(b, zs) {
                            lemma_skip_ws(b, ze);
                        }
                    }
                }
            }
        }
    }
}

/// A location token found at or after `i` lies within the line and is the token that starts there.
pub proof fn lemma_location_span_from(b: Seq<u8>, i: int)
    requires
        0 <= i,
        b.len() <= usize::MAX,
    ensures
        location_span_from(b, i) matches Some(t) ==> i <= t.start < t.end <= b.len()
            && location_at(b, t.start as int) == Some(t),
    decreases b.len() - i,
{
    if i < b.len() {
        lemma_location_at(b, i);
        if location_at(b, i) is None {
            lemma_location_span_from(b, i + 1);
        }
    }
}

/// A word ends at or after its start, and within the line.
pub proof fn lemma_word_end(b: Seq<u8>, i: int)
    requires
        0 <= i,
    ensures
        i <= word_end(b, i),
        i <= b.len() ==> word_end(b, i) <= b.len(),
    decreases b.len() - i,
{
    if i < b.len() && crate::chat::is_word_byte(b[i]) {
        lemma_word_end(b, i + 1);
    }
}

/// A byte found at or after `i` lies within the line.
pub proof fn lemma_find_byte_bounds(b: Seq<u8>, x: u8, i: int)
    requires
        0 <= i,
    ensures
        find_byte_from(b, x, i) matches Some(j) ==> i <= j < b.len(),
    decreases b.len() - i,
{
    if i < b.len() && b[i] != x {
        lemma_find_byte_bounds(b, x, i + 1);
    }
}

/// A mention found at or after `i` lies within the line and is not empty.
pub proof fn lemma_mention_span_from(b: Seq<u8>, i: int)
    requires
        0 <= i,
    ensures
        mention_span_from(b, i) matches Some((s, e)) ==> i <= s < e <= b.len(),
    decreases b.len() - i,
{
    if i < b.len() {
        if b[i] == 64 && mention_end(b, i) is Some {
            lemma_find_byte_bounds(b, 125, i + 2);
            lemma_word_end(b, i + 1);
        } else {
            lemma_mention_span_from(b, i + 1);
        }
    }
}

fn digits_end_exec(b: &[u8], i: usize) -> (r: usize)
    requires
        i <= b@.len(),
    ensures
        r as int == digits_end(b@, i as int),
{
    let mut k = i;
    while k < b.len() && 48 <= b[k] && b[k] <= 57
        invariant
            i <= k <= b@.len(),
            digits_end(b@, i as int) == digits_end(b@, k as int),
        decreases b@.len() - k,
    {
        k = k + 1;
    }
    k
}

/// The end of the coordinate starting at byte `start` (see `number_end`).
pub fn parse_ascii_number_end(b: &[u8], start: usize) -> (r: Option<usize>)
    requires
        start <= b@.len(),
    ensures
        match number_end(b@, start as int) {
            Some(e) => r == Some(e as usize),
            None => r is None,
        },
{
    proof {
        lemma_number_end(b@, start as int);
    }
    let i0 = if start < b.len() && (b[start] == 43 || b[start] == 45) {
        start + 1
    } else {
        start
    };
    let i1 = digits_end_exec(b, i0);
    proof {
        lemma_digits_end(b@, i0 as int);
    }
    let has_point = i1 < b.len() && b[i1] == 46;
    let i2 = if has_point {
        proof {
            lemma_digits_end(b@, i1 + 1);
        }
        digits_end_exec(b, i1 + 1)
    } else {
        i1
    };
    if i1 > i0 || i2 - i1 > 1 {
        Some(i2)
    } else {
        None
    }
}

fn location_at_exec(b: &[u8], start: usize) -> (r: Option<LocationToken>)
    ensures
        r == location_at(b@, start as int),
{
    if !(start <= b.len() && 3 <= b.len() - start && b[start] == 38 && b[start + 1] == 58 && b[start
        + 2] == 91) {
        return None;
    }
    proof {
        lemma_skip_ws(b@, start + 3);
    }
    let xs = skip_ascii_whitespace(b, start + 3);
    let xe = match parse_ascii_number_end(b, xs) {
        Some(e) => e,
        None => return None,
    };
    proof {
        lemma_number_end(b@, xs as int);
        lemma_skip_ws(b@, xe as int);
    }
    let c1 = skip_ascii_whitespace(b, xe);
    if !(c1 < b.len() && b[c1] == 44) {
        return None;
    }
    proof {
        lemma_skip_ws(b@, c1 + 1);
    }
    let ys = skip_ascii_whitespace(b, c1 + 1);
    let ye = match parse_ascii_number_end(b, ys) {
        Some(e) => e,
        None => return None,
    };
    proof {
        lemma_number_end(b@, ys as int);
        lemma_skip_ws(b@, ye as int);
    }
    let c2 = skip_ascii_whitespace(b, ye);
    if !(c2 < b.len() && b[c2] == 44) {
        return None;
    }
    proof {
        lemma_skip_ws(b@, c2 + 1);
    }
    let zs = skip_ascii_whitespace(b, c2 + 1);
    let ze = match parse_ascii_number_end(b, zs) {
        Some(e) => e,
        None => return None,
    };
    proof {
        lemma_number_end(b@, zs as int);
        lemma_skip_ws(b@, ze as int);
    }
    let c3 = skip_ascii_whitespace(b, ze);
    if !(c3 < b.len() && b[c3] == 93) {
        return None;
    }
    Some(
        LocationToken {
            start,
            end: c3 + 1,
            x: ByteRange { start: xs, end: xe },
            y: ByteRange { start: ys, end: ye },
            z: ByteRange { start: zs, end: ze },
        },
    )
}

/// The location token starting at byte `start` of `text`, if one does.
pub fn parse_location_token(text: &str, start: usize) -> (r: Option<LocationToken>)
    requires
        start + 3 <= text.spec_bytes().len() ==> is_char_boundary(
            text.spec_bytes(),
            start as int,
        ) && is_char_boundary(text.spec_bytes(), start + 3),
    ensures
        r == location_at(text.spec_bytes(), start as int),
{
    location_at_exec(text.as_bytes(), start)
}

fn scan_location_span(b: &[u8], from: usize) -> (r: Option<LocationToken>)
    ensures
        r == location_span_from(b@, from as int),
{
    let mut i = from;
    while i < b.len()
        invariant
            from <= i,
            location_span_from(b@, from as int) == location_span_from(b@, i as int),
        decreases b@.len() - i,
    {
        let found = location_at_exec(b, i);
        if found.is_some() {
            return found;
        }
        i = i + 1;
    }
    None
}

/// The first location token in `text` at or after byte `from`.
pub fn next_location_span(text: &str, from: usize) -> (r: Option<LocationToken>)
    requires
        from < text.spec_bytes().len() ==> is_char_boundary(
            text.spec_bytes(),
            from as int,
        ),
    ensures
        r == location_span_from(text.spec_bytes(), from as int),
{
    scan_location_span(text.as_bytes(), from)
}

/// A mention or a location token found in a chat line.
#[derive(Clone, Copy, PartialEq, Eq, Debug, Structural)]
pub enum ChatSpecialSpan {
    Mention(ByteRange),
    Location(LocationToken),
}

pub open spec fn span_start(s: ChatSpecialSpan) -> int {
    match s {
        ChatSpecialSpan::Mention(r) => r.start as int,
        ChatSpecialSpan::Location(t) => t.start as int,
    }
}

pub open spec fn span_end(s: ChatSpecialSpan) -> int {
    match s {
        ChatSpecialSpan::Mention(r) => r.end as int,
        ChatSpecialSpan::Location(t) => t.end as int,
    }
}

impl ChatSpecialSpan {
    /// The span's byte range, start and end.
    pub fn range(&self) -> (r: (usize, usize))
        ensures
            r.0 as int == span_start(*self),
            r.1 as int == span_end(*self),
    {
        match self {
            ChatSpecialSpan::Mention(r) => (r.start, r.end),
            ChatSpecialSpan::Location(t) => (t.start, t.end),
        }
    }
}

/// Of a mention and a location token, the one that starts first; the
/// mention where both start at the same byte.
pub open spec fn earliest(mention: Option<ChatSpecialSpan>, location: Option<ChatSpecialSpan>) -> Option<
    ChatSpecialSpan,
> {
    match (mention, location) {
        (Some(a), Some(b)) => if span_start(a) <= span_start(b) {
            Some(a)
        } else {
            Some(b)
        },
        (Some(a), None) => Some(a),
        (None, Some(b)) => Some(b),
        (None, None) => None,
    }
}

pub fn earliest_special_span(
    mention: Option<ChatSpecialSpan>,
    location: Option<ChatSpecialSpan>,
) -> (r: Option<ChatSpecialSpan>)
    ensures
        r == earliest(mention, location),
{
    match (mention, location) {
        (Some(a), Some(b)) => {
            let a_start = match a {
                ChatSpecialSpan::Mention(r) => r.start,
                ChatSpecialSpan::Location(t) => t.start,
            };
            let b_start = match b {
                ChatSpecialSpan::Mention(r) => r.start,
                ChatSpecialSpan::Location(t) => t.start,
            };
            if a_start <= b_start {
                Some(a)
            } else {
                Some(b)
            }
        },
        (Some(span), None) => Some(span),
        (None, Some(span)) => Some(span),
        (None, None) => None,
    }
}

/// The first mention or location token at or after byte `i`.
pub open spec fn next_special(b: Seq<u8>, i: int) -> Option<ChatSpecialSpan> {
    let m = match mention_span_from(b, i) {
        Some((s, e)) => Some(ChatSpecialSpan::Mention(ByteRange { start: s as usize, end: e as usize })),
        None => None,
    };
    let l = match location_span_from(b, i) {
        Some(t) => Some(ChatSpecialSpan::Location(t)),
        None => None,
    };
    earliest(m, l)
}

/// A piece of a chat line as it is drawn.
#[derive(Clone, Copy, PartialEq, Eq, Debug, Structural)]
pub enum ChatSegment {
    Plain(ByteRange),
    Mention(ByteRange),
    Location(LocationToken),
}

pub open spec fn special_segment(s: ChatSpecialSpan) -> ChatSegment {
    match s {
        ChatSpecialSpan::Mention(r) => ChatSegment::Mention(r),
        ChatSpecialSpan::Location(t) => ChatSegment::Location(t),
    }
}

/// The pieces of the line from byte `cursor` on: plain text up to the next
/// mention or location token, that token, and so on; the rest of the line
/// is plain text.
pub open spec fn segments_from(b: Seq<u8>, cursor: int) -> Seq<ChatSegment>
    decreases b.len() - cursor,
{
    if cursor < 0 || cursor >= b.len() {
        Seq::empty()
    } else {
        match next_special(b, cursor) {
            None => seq![ChatSegment::Plain(ByteRange { start: cursor as usize, end: b.len() as usize })],
            Some(sp) => {
                let s = span_start(sp);
                let e = span_end(sp);
                if e <= cursor || e > b.len() {
                    Seq::empty()
                } else {
                    let lead = if s > cursor {
                        seq![ChatSegment::Plain(ByteRange { start: cursor as usize, end: s as usize })]
                    } else {
                        Seq::empty()
                    };
                    lead + seq![special_segment(sp)] + segments_from(b, e)
                }
            },
        }
    }
}

proof fn lemma_next_special(b: Seq<u8>, i: int)
    requires
        0 <= i,
        b.len() <= usize::MAX,
    ensures
        next_special(b, i) matches Some(sp) ==> i <= span_start(sp) < span_end(sp) <= b.len(),
{
    lemma_mention_span_from(b, i);
    lemma_location_span_from(b, i);
}

/// Splits a chat line into the pieces it is drawn as (see `segments_from`).
pub fn chat_line_segments(text: &str) -> (r: Vec<ChatSegment>)
    ensures
        r@ == segments_from(text.spec_bytes(), 0),
{
    let b = text.as_bytes();
    let mut out: Vec<ChatSegment> = Vec::new();
    let mut cursor: usize = 0;
    while cursor < b.len()
        invariant
            b@ == text.spec_bytes(),
            cursor <= b@.len(),
            segments_from(b@, 0) == out@ + segments_from(b@, cursor as int),
        decreases b@.len() - cursor,
    {
        proof {
            lemma_next_special(b@, cursor as int);
            lemma_mention_span_from(b@, cursor as int);
        }
        let mention = match scan_mention_span(text, cursor) {
            Some((s, e)) => Some(ChatSpecialSpan::Mention(ByteRange { start: s, end: e })),
            None => None,
        };
        let location = match scan_location_span(b, cursor) {
            Some(t) => Some(ChatSpecialSpan::Location(t)),
            None => None,
        };
        let next = earliest_special_span(mention, location);
        assert(next == next_special(b@, cursor as int));
        let ghost before = out@;
        match next {
            None => {
                out.push(ChatSegment::Plain(ByteRange { start: cursor, end: b.len() }));
                assert(out@ == before + segments_from(b@, cursor as int));
                cursor = b.len();
            },
            Some(sp) => {
                let (start, end, seg) = match sp {
                    ChatSpecialSpan::Mention(r) => (r.start, r.end, ChatSegment::Mention(r)),
                    ChatSpecialSpan::Location(t) => (t.start, t.end, ChatSegment::Location(t)),
                };
                if start > cursor {
                    out.push(ChatSegment::Plain(ByteRange { start: cursor, end: start }));
                }
                out.push(seg);
                assert(out@ + segments_from(b@, end as int) =~= before + segments_from(
                    b@,
                    cursor as int,
                ));
                cursor = end;
            },
        }
    }
    assert(segments_from(b@, cursor as int) =~= Seq::<ChatSegment>::empty());
    assert(out@ + Seq::<ChatSegment>::empty() =~= out@);
    out
}

pub open spec fn segment_range(s: ChatSegment) -> (int, int) {
    match s {
        ChatSegment::Plain(r) => (r.start as int, r.end as int),
        ChatSegment::Mention(r) => (r.start as int, r.end as int),
        ChatSegment::Location(t) => (t.start as int, t.end as int),
    }
}

/// The segments are non-empty byte ranges that follow each other without
/// gap from `from` to `to`.
pub open spec fn tiles(segs: Seq<ChatSegment>, from: int, to: int) -> bool
    decreases segs.len(),
{
    if segs.len() == 0 {
        from == to
    } else {
        let (s, e) = segment_range(segs[0]);
        &&& s == from
        &&& s < e
        &&& tiles(segs.drop_first(), e, to)
    }
}

proof fn lemma_tiles_cons(x: ChatSegment, t: Seq<ChatSegment>, from: int, to: int)
    requires
        segment_range(x).0 == from,
        segment_range(x).0 < segment_range(x).1,
        tiles(t, segment_range(x).1, to),
    ensures
        tiles(seq![x] + t, from, to),
{
    assert((seq![x] + t).drop_first() =~= t);
}

/// A chat line is drawn whole, each byte once and in order: its segments
/// are non-empty ranges that follow each other from the first byte to the
/// last.
pub proof fn lemma_segments_tile_line(b: Seq<u8>, cursor: int)
    requires
        0 <= cursor <= b.len(),
        b.len() <= usize::MAX,
    ensures
        tiles(segments_from(b, cursor), cursor, b.len() as int),
    decreases b.len() - cursor,
{
    if cursor < b.len() {
        lemma_next_special(b, cursor);
        match next_special(b, cursor) {
            None => {
                let x = ChatSegment::Plain(ByteRange { start: cursor as usize, end: b.len() as usize });
                lemma_tiles_cons(x, Seq::empty(), cursor, b.len() as int);
                assert(seq![x] + Seq::<ChatSegment>::empty() =~= seq![x]);
            },
            Some(sp) => {
                let s = span_start(sp);
                let e = span_end(sp);
                lemma_segments_tile_line(b, e);
                let rest = segments_from(b, e);
                let x = special_segment(sp);
                lemma_tiles_cons(x, rest, s, b.len() as int);
                if s > cursor {
                    let p = ChatSegment::Plain(ByteRange { start: cursor as usize, end: s as usize });
                    lemma_tiles_cons(p, seq![x] + rest, cursor, b.len() as int);
                    assert(seq![p] + seq![x] + rest =~= seq![p] + (seq![x] + rest));
                } else {
                    assert(Seq::<ChatSegment>::empty() + seq![x] + rest =~= seq![x] + rest);
                }
            },
        }
    }
}

/// Lines the chat shows while closed: the most recent ones.
pub const CHAT_RENDERED_LINES_CLOSED: usize = 10;

/// The first chat line to draw: every line while the chat is open, the
/// last `CHAT_RENDERED_LINES_CLOSED` while it is closed.
pub fn chat_render_start(open: bool, line_count: usize) -> (r: usize)
    ensures
        r == if open || line_count <= CHAT_RENDERED_LINES_CLOSED {
            0
        } else {
            (line_count - CHAT_RENDERED_LINES_CLOSED) as usize
        },
{
    if open {
        0
    } else {
        line_count.saturating_sub(CHAT_RENDERED_LINES_CLOSED)
    }
}

} // verus!
