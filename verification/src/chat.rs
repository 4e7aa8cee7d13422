//! Chat input: `@name` mentions (finding them in a line, completing a partial
//! one), command suggestions, and the byte scanner used by the location tokens.
use vstd::prelude::*;
use vstd::utf8::is_char_boundary;
use vstd::string::StringSliceAdditionalSpecFns;
use crate::text::{
    is_ws, is_ascii_ws_byte, ascii_lower, is_prefix, trim_seq, trim_start_seq, push_char,
    to_ascii_lowercase, starts_with, trim, trim_start, text_equals,
};

verus! {

// ---------------------------------------------------------------------------
// Byte scanning
// ---------------------------------------------------------------------------

/// The first index at or after `idx` that is past the end of `bytes` or holds a
/// byte that is not ASCII whitespace.
pub open spec fn skip_ws_from(bytes: Seq<u8>, idx: int) -> int
    decreases bytes.len() - idx,
{
    if 0 <= idx < bytes.len() && is_ascii_ws_byte(bytes[idx]) {
        skip_ws_from(bytes, idx + 1)
    } else {
        idx
    }
}

fn ascii_ws_byte(b: u8) -> (r: bool)
    ensures
        r == is_ascii_ws_byte(b),
{
    b == 32 || b == 9 || b == 10 || b == 12 || b == 13
}

/// Skips ASCII whitespace starting at `idx`.
pub fn skip_ascii_whitespace(bytes: &[u8], idx: usize) -> (r: usize)
    ensures
        r as int == skip_ws_from(bytes@, idx as int),
{
    let mut i = idx;
    while i < bytes.len() && ascii_ws_byte(bytes[i])
        invariant
            idx <= i,
            skip_ws_from(bytes@, idx as int) == skip_ws_from(bytes@, i as int),
        decreases bytes@.len() - i,
    {
        i = i + 1;
    }
    i
}

// ---------------------------------------------------------------------------
// Mentions in a chat line
// ---------------------------------------------------------------------------

pub open spec fn is_word_byte(b: u8) -> bool {
    (48 <= b && b <= 57) || (65 <= b && b <= 90) || (97 <= b && b <= 122) || b == 95
}

/// End of the run of ASCII letters, digits and `_` that starts at `i`.
pub open spec fn word_end(b: Seq<u8>, i: int) -> int
    decreases b.len() - i,
{
    if 0 <= i < b.len() && is_word_byte(b[i]) {
        word_end(b, i + 1)
    } else {
        i
    }
}

/// Index of the first byte `x` at or after `i`.
pub open spec fn find_byte_from(b: Seq<u8>, x: u8, i: int) -> Option<int>
    decreases b.len() - i,
{
    if i < 0 || i >= b.len() {
        None
    } else if b[i] == x {
        Some(i)
    } else {
        find_byte_from(b, x, i + 1)
    }
}

/// Where the mention that starts at byte `at` ends: `@{name}` (non-empty name)
/// or `@word` (a non-empty run of ASCII letters, digits and `_`).
pub open spec fn mention_end(b: Seq<u8>, at: int) -> Option<int> {
    if at < 0 || at >= b.len() || !is_char_boundary(b, at) || b[at] != 64 {
        None
    } else if at + 1 < b.len() && b[at + 1] == 123 {
        match find_byte_from(b, 125, at + 2) {
            Some(j) => if j == at + 2 {
                None
            } else {
                Some(j + 1)
            },
            None => None,
        }
    } else {
        let e = word_end(b, at + 1);
        if e <= at + 1 {
            None
        } else {
            Some(e)
        }
    }
}

proof fn lemma_find_byte_from(b: Seq<u8>, x: u8, i: int)
    requires
        0 <= i,
    ensures
        find_byte_from(b, x, i) matches Some(j) ==> i <= j < b.len() && b[j] == x,
    decreases b.len() - i,
{
    if i < b.len() && b[i] != x {
        lemma_find_byte_from(b, x, i + 1);
    }
}

fn find_byte(b: &[u8], x: u8, from: usize) -> (r: Option<usize>)
    ensures
        r matches Some(j) ==> j < b@.len(),
        match find_byte_from(b@, x, from as int) {
            Some(j) => r == Some(j as usize),
            None => r is None,
        },
{
    let mut i = from;
    while i < b.len()
        invariant
            from <= i,
            find_byte_from(b@, x, from as int) == find_byte_from(b@, x, i as int),
        decreases b@.len() - i,
    {
        if b[i] == x {
            return Some(i);
        }
        i = i + 1;
    }
    None
}

fn word_byte(c: u8) -> (r: bool)
    ensures
        r == is_word_byte(c),
{
    (48 <= c && c <= 57) || (65 <= c && c <= 90) || (97 <= c && c <= 122) || c == 95
}

fn scan_word(b: &[u8], from: usize) -> (r: usize)
    ensures
        r as int == word_end(b@, from as int),
{
    let mut i = from;
    while i < b.len() && word_byte(b[i])
        invariant
            from <= i,
            word_end(b@, from as int) == word_end(b@, i as int),
        decreases b@.len() - i,
    {
        i = i + 1;
    }
    i
}

/// The end (byte index, exclusive) of the mention starting at byte `at` of
/// `text`, if one starts there.
pub fn parse_mention_end(text: &str, at: usize) -> (r: Option<usize>)
    ensures
        match mention_end(text.spec_bytes(), at as int) {
            Some(e) => r == Some(e as usize),
            None => r is None,
        },
{
    let b = text.as_bytes();
    if at >= b.len() || !text.is_char_boundary(at) || b[at] != 64 {
        return None;
    }
    assert(mention_end(b@, at as int) is Some ==> mention_end(text.spec_bytes(), at as int) is Some);
    if at + 1 < b.len() && b[at + 1] == 123 {
        let found = find_byte(b, 125, at + 2);
        proof {
            lemma_find_byte_from(b@, 125, at + 2);
        }
        assert(mention_end(b@, at as int) == match find_byte_from(b@, 125, at + 2) {
            Some(j) => if j == at + 2 { None::<int> } else { Some(j + 1) },
            None => None,
        });
        match found {
            Some(j) => {
                assert(find_byte_from(b@, 125, at + 2) == Some(j as int));
                if j == at + 2 {
                    None
                } else {
                    Some(j + 1)
                }
            },
            None => None,
        }
    } else {
        let e = scan_word(b, at + 1);
        assert(mention_end(b@, at as int) == if e <= at + 1 { None::<int> } else { Some(e as int) });
        if e <= at + 1 {
            None
        } else {
            Some(e)
        }
    }
}

/// The first mention starting at or after byte `i`.
pub open spec fn mention_span_from(b: Seq<u8>, i: int) -> Option<(int, int)>
    decreases b.len() - i,
{
    if i < 0 || i >= b.len() {
        None
    } else if b[i] == 64 && mention_end(b, i) is Some {
        Some((i, mention_end(b, i)->0))
    } else {
        mention_span_from(b, i + 1)
    }
}

/// The first mention in `text` at or after byte `from`, as a byte range.
pub fn next_mention_span(text: &str, from: usize) -> (r: Option<(usize, usize)>)
    requires
        is_char_boundary(text.spec_bytes(), from as int),
    ensures
        match mention_span_from(text.spec_bytes(), from as int) {
            Some((s, e)) => r == Some((s as usize, e as usize)),
            None => r is None,
        },
{
    scan_mention_span(text, from)
}

pub(crate) fn scan_mention_span(text: &str, from: usize) -> (r: Option<(usize, usize)>)
    ensures
        match mention_span_from(text.spec_bytes(), from as int) {
            Some((s, e)) => r == Some((s as usize, e as usize)),
            None => r is None,
        },
{
    let b = text.as_bytes();
    let mut i = from;
    while i < b.len()
        invariant
            b@ == text.spec_bytes(),
            from <= i,
            mention_span_from(b@, from as int) == mention_span_from(b@, i as int),
        decreases b@.len() - i,
    {
        if b[i] == 64 {
            match parse_mention_end(text, i) {
                Some(end) => {
                    return Some((i, end));
                },
                None => {},
            }
        }
        i = i + 1;
    }
    None
}

// ---------------------------------------------------------------------------
// Completing a mention
// ---------------------------------------------------------------------------

/// Lexicographic order of character sequences (the order of `String`).
pub open spec fn seq_lt(a: Seq<char>, b: Seq<char>) -> bool
    decreases a.len(),
{
    if a.len() == 0 {
        b.len() > 0
    } else if b.len() == 0 {
        false
    } else if a[0] < b[0] {
        true
    } else if a[0] > b[0] {
        false
    } else {
        seq_lt(a.drop_first(), b.drop_first())
    }
}

/// No name sorts before itself.
pub proof fn lemma_seq_lt_irreflexive(a: Seq<char>)
    ensures
        !seq_lt(a, a),
    decreases a.len(),
{
    if a.len() > 0 {
        lemma_seq_lt_irreflexive(a.drop_first());
    }
}

/// The name order is transitive.
pub proof fn lemma_seq_lt_transitive(a: Seq<char>, b: Seq<char>, c: Seq<char>)
    requires
        seq_lt(a, b),
        seq_lt(b, c),
    ensures
        seq_lt(a, c),
    decreases a.len(),
{
    if a.len() > 0 && b.len() > 0 && c.len() > 0 {
        if a[0] == b[0] && b[0] == c[0] {
            lemma_seq_lt_transitive(a.drop_first(), b.drop_first(), c.drop_first());
        }
    }
}

/// Of two different names, one sorts before the other.
pub proof fn lemma_seq_lt_total(a: Seq<char>, b: Seq<char>)
    ensures
        a == b || seq_lt(a, b) || seq_lt(b, a),
    decreases a.len(),
{
    if a.len() > 0 && b.len() > 0 {
        if a[0] == b[0] {
            lemma_seq_lt_total(a.drop_first(), b.drop_first());
            if a.drop_first() == b.drop_first() {
                assert(a[0] == b[0]);
                assert(a =~= seq![a[0]] + a.drop_first());
                assert(b =~= seq![b[0]] + b.drop_first());
            }
        }
    } else if a.len() == 0 && b.len() == 0 {
        assert(a =~= b);
    }
}

pub(crate) fn chars_lt(a: &str, b: &str) -> (r: bool)
    ensures
        r == seq_lt(a@, b@),
{
    let n = a.unicode_len();
    let m = b.unicode_len();
    let mut i: usize = 0;
    assert(a@.subrange(0, n as int) =~= a@);
    assert(b@.subrange(0, m as int) =~= b@);
    while i < n && i < m
        invariant
            n == a@.len(),
            m == b@.len(),
            i <= n,
            i <= m,
            seq_lt(a@, b@) == seq_lt(a@.subrange(i as int, n as int), b@.subrange(i as int, m as int)),
        decreases n - i,
    {
        let x = a.get_char(i);
        let y = b.get_char(i);
        let ghost sa = a@.subrange(i as int, n as int);
        let ghost sb = b@.subrange(i as int, m as int);
        assert(sa[0] == x && sb[0] == y);
        if x < y {
            return true;
        }
        if x > y {
            return false;
        }
        assert(sa.drop_first() =~= a@.subrange(i + 1, n as int));
        assert(sb.drop_first() =~= b@.subrange(i + 1, m as int));
        i = i + 1;
    }
    i == n && i < m
}

/// Whether player name `name` completes the (lower-cased) `prefix`.
pub open spec fn completes(name: Seq<char>, prefix: Seq<char>) -> bool {
    is_prefix(prefix, ascii_lower(name))
}

/// Name `k` is the one picked: it completes the prefix, no completing name sorts
/// before it (ignoring ASCII case), and of equally sorting names it comes first.
pub open spec fn is_best_completion(names: Seq<String>, prefix: Seq<char>, k: int) -> bool {
    &&& 0 <= k < names.len()
    &&& completes(names[k]@, prefix)
    &&& forall|j: int|
        0 <= j < names.len() && completes(#[trigger] names[j]@, prefix) ==> !seq_lt(
            ascii_lower(names[j]@),
            ascii_lower(names[k]@),
        ) && (ascii_lower(names[j]@) == ascii_lower(names[k]@) ==> k <= j)
}

/// At most one name is picked.
pub proof fn lemma_best_completion_unique(names: Seq<String>, prefix: Seq<char>, k1: int, k2: int)
    requires
        is_best_completion(names, prefix, k1),
        is_best_completion(names, prefix, k2),
    ensures
        k1 == k2,
{
    let a = ascii_lower(names[k1]@);
    let b = ascii_lower(names[k2]@);
    lemma_seq_lt_total(a, b);
}

fn best_completion(names: &Vec<String>, prefix: &str) -> (r: Option<usize>)
    ensures
        r matches Some(k) ==> is_best_completion(names@, prefix@, k as int),
        r is None ==> forall|j: int| 0 <= j < names@.len() ==> !completes(#[trigger] names@[j]@, prefix@),
{
    let mut best: Option<usize> = None;
    let mut best_key: String = String::new();
    let mut i: usize = 0;
    while i < names.len()
        invariant
            i <= names@.len(),
            best matches Some(k) ==> k < i && best_key@ == ascii_lower(names@[k as int]@)
                && completes(names@[k as int]@, prefix@) && forall|j: int|
                0 <= j < i && completes(#[trigger] names@[j]@, prefix@) ==> !seq_lt(
                    ascii_lower(names@[j]@),
                    ascii_lower(names@[k as int]@),
                ) && (ascii_lower(names@[j]@) == ascii_lower(names@[k as int]@) ==> k <= j),
            best is None ==> forall|j: int| 0 <= j < i ==> !completes(#[trigger] names@[j]@, prefix@),
        decreases names.len() - i,
    {
        let key = to_ascii_lowercase(names[i].as_str());
        if starts_with(key.as_str(), prefix) {
            let better = match best {
                None => true,
                Some(_) => chars_lt(key.as_str(), best_key.as_str()),
            };
            if better {
                proof {
                    if best is Some {
                        let k = best->0 as int;
                        assert forall|j: int|
                            0 <= j < i + 1 && completes(#[trigger] names@[j]@, prefix@) implies !seq_lt(
                            ascii_lower(names@[j]@),
                            ascii_lower(names@[i as int]@),
                        ) && (ascii_lower(names@[j]@) == ascii_lower(names@[i as int]@) ==> i <= j) by {
                            if j < i {
                                let kj = ascii_lower(names@[j]@);
                                let ki = ascii_lower(names@[i as int]@);
                                let kk = ascii_lower(names@[k]@);
                                if seq_lt(kj, ki) {
                                    lemma_seq_lt_transitive(kj, ki, kk);
                                }
                                if kj == ki {
                                    assert(seq_lt(kj, kk));
                                }
                            } else {
                                lemma_seq_lt_irreflexive(ascii_lower(names@[i as int]@));
                            }
                        }
                    } else {
                        lemma_seq_lt_irreflexive(ascii_lower(names@[i as int]@));
                    }
                }
                best = Some(i);
                best_key = key;
            } else {
                proof {
                    let k = best->0 as int;
                    lemma_seq_lt_total(ascii_lower(names@[i as int]@), ascii_lower(names@[k]@));
                }
            }
        }
        i = i + 1;
    }
    best
}

/// Index of the last `c` in `s`.
pub open spec fn last_index_of(s: Seq<char>, c: char) -> Option<int>
    decreases s.len(),
{
    if s.len() == 0 {
        None
    } else if s.last() == c {
        Some(s.len() - 1)
    } else {
        last_index_of(s.drop_last(), c)
    }
}

proof fn lemma_last_index_of(s: Seq<char>, c: char)
    ensures
        last_index_of(s, c) matches Some(k) ==> 0 <= k < s.len() && s[k] == c,
    decreases s.len(),
{
    if s.len() > 0 && s.last() != c {
        lemma_last_index_of(s.drop_last(), c);
    }
}

/// Number of leading spaces (`' '` only).
pub open spec fn leading_spaces(s: Seq<char>) -> nat
    decreases s.len(),
{
    if s.len() > 0 && s[0] == ' ' {
        1 + leading_spaces(s.drop_first())
    } else {
        0
    }
}

/// The pieces of a partial mention after the last `@`: whether a space follows
/// the `@`, whether it is braced, and the partial name.
pub open spec fn mention_parts(input: Seq<char>, at: int) -> (bool, bool, Seq<char>) {
    let suffix = input.subrange(at + 1, input.len() as int);
    let has_space = suffix.len() > 0 && suffix[0] == ' ';
    let t1 = if has_space {
        suffix.subrange(leading_spaces(suffix) as int, suffix.len() as int)
    } else {
        suffix
    };
    let braced = t1.len() > 0 && t1[0] == '{';
    let tail = if braced {
        t1.drop_first()
    } else {
        t1
    };
    (has_space, braced, tail)
}

/// The input with its partial mention replaced by the full name.
pub open spec fn completed_input(input: Seq<char>, at: int, has_space: bool, braced: bool, name: Seq<char>) -> Seq<char> {
    input.subrange(0, at) + seq!['@'] + (if has_space {
        seq![' ']
    } else {
        Seq::empty()
    }) + (if braced {
        seq!['{'] + name + seq!['}']
    } else {
        name
    })
}

/// Whether the mention is still open for completion: its partial name holds
/// no `}` and no whitespace.
pub open spec fn completable_tail(tail: Seq<char>) -> bool {
    !tail.contains('}') && forall|k: int| 0 <= k < tail.len() ==> !is_ws(#[trigger] tail[k])
}

fn last_at_index(s: &str) -> (r: Option<usize>)
    ensures
        match last_index_of(s@, '@') {
            Some(k) => r == Some(k as usize),
            None => r is None,
        },
{
    let n = s.unicode_len();
    let mut j: usize = n;
    assert(s@.subrange(0, n as int) =~= s@);
    while j > 0
        invariant
            n == s@.len(),
            j <= n,
            last_index_of(s@, '@') == last_index_of(s@.subrange(0, j as int), '@'),
        decreases j,
    {
        let c = s.get_char(j - 1);
        let ghost p = s@.subrange(0, j as int);
        assert(p.last() == c);
        assert(p.drop_last() =~= s@.subrange(0, j - 1));
        if c == '@' {
            return Some(j - 1);
        }
        j = j - 1;
    }
    assert(s@.subrange(0, 0) =~= Seq::<char>::empty());
    None
}

fn skip_spaces(s: &str) -> (r: usize)
    ensures
        r as nat == leading_spaces(s@),
        r <= s@.len(),
{
    let n = s.unicode_len();
    let mut i: usize = 0;
    assert(s@.subrange(0, n as int) =~= s@);
    while i < n && s.get_char(i) == ' '
        invariant
            n == s@.len(),
            i <= n,
            leading_spaces(s@) == i + leading_spaces(s@.subrange(i as int, n as int)),
        decreases n - i,
    {
        assert(s@.subrange(i as int, n as int).drop_first() =~= s@.subrange(i + 1, n as int));
        i = i + 1;
    }
    assert(s@.subrange(0, n as int) =~= s@);
    i
}

fn tail_completable(tail: &str) -> (r: bool)
    ensures
        r == completable_tail(tail@),
{
    let n = tail.unicode_len();
    let mut i: usize = 0;
    while i < n
        invariant
            n == tail@.len(),
            i <= n,
            forall|k: int| 0 <= k < i ==> tail@[k] != '}' && !is_ws(#[trigger] tail@[k]),
        decreases n - i,
    {
        let c = tail.get_char(i);
        if c == '}' {
            assert(tail@.contains('}'));
            return false;
        }
        if crate::text::is_whitespace_char(c) {
            return false;
        }
        i = i + 1;
    }
    true
}

/// What `autocomplete_mention` answers for `input` and the known names.
pub open spec fn autocomplete_answer(input: Seq<char>, names: Seq<String>, r: Option<String>) -> bool {
    &&& (names.len() == 0 ==> r is None)
    &&& (names.len() > 0 ==> match last_index_of(input, '@') {
            None => r is None,
            Some(at) => {
                let (has_space, braced, tail) = mention_parts(input, at);
                if !completable_tail(tail) {
                    r is None
                } else {
                    match r {
                        None => forall|j: int|
                            0 <= j < names.len() ==> !completes(
                                #[trigger] names[j]@,
                                ascii_lower(tail),
                            ),
                        Some(out) => exists|k: int|
                            is_best_completion(names, ascii_lower(tail), k) && out@
                                == completed_input(
                                input,
                                at,
                                has_space,
                                braced,
                                names[k]@,
                            ),
                    }
                }
            },
        })
}

/// Completes the mention being typed at the end of the chat input: the text
/// after the last `@` (after optional spaces and an optional `{`) is matched,
/// ignoring ASCII case, against the known player names; the name that sorts
/// first replaces it.
pub fn autocomplete_mention(input: &str, known_player_names: &Vec<String>) -> (r: Option<String>)
    ensures
        autocomplete_answer(input@, known_player_names@, r),
{
    if known_player_names.len() == 0 {
        return None;
    }
    let at = match last_at_index(input) {
        Some(a) => a,
        None => {
            return None;
        },
    };
    proof {
        lemma_last_index_of(input@, '@');
    }
    let n = input.unicode_len();
    let suffix = input.substring_char(at + 1, n);
    let has_space = suffix.unicode_len() > 0 && suffix.get_char(0) == ' ';
    let t1: &str = if has_space {
        let sp = skip_spaces(suffix);
        suffix.substring_char(sp, suffix.unicode_len())
    } else {
        suffix
    };
    let braced = t1.unicode_len() > 0 && t1.get_char(0) == '{';
    let tail: &str = if braced {
        t1.substring_char(1, t1.unicode_len())
    } else {
        t1
    };
    assert(braced ==> tail@ =~= t1@.drop_first());
    let ghost parts = mention_parts(input@, at as int);
    assert(suffix@ == input@.subrange(at + 1, input@.len() as int));
    assert(has_space == parts.0);
    assert(t1@ == (if parts.0 {
        suffix@.subrange(leading_spaces(suffix@) as int, suffix@.len() as int)
    } else {
        suffix@
    }));
    assert(braced == parts.1);
    assert(tail@ == parts.2);
    if !tail_completable(tail) {
        return None;
    }
    let prefix = to_ascii_lowercase(tail);
    let best = match best_completion(known_player_names, prefix.as_str()) {
        Some(k) => k,
        None => {
            return None;
        },
    };
    let mut out = String::new();
    out.append(input.substring_char(0, at));
    push_char(&mut out, '@');
    if has_space {
        push_char(&mut out, ' ');
    }
    if braced {
        push_char(&mut out, '{');
        out.append(known_player_names[best].as_str());
        push_char(&mut out, '}');
    } else {
        out.append(known_player_names[best].as_str());
    }
    assert(out@ =~= completed_input(
        input@,
        at as int,
        has_space,
        braced,
        known_player_names@[best as int]@,
    ));
    assert(is_best_completion(known_player_names@, ascii_lower(tail@), best as int));
    Some(out)
}

/// The first suggestion that differs from the trimmed input.
pub open spec fn first_other_suggestion_from(s: Seq<String>, input: Seq<char>, i: int) -> Option<int>
    decreases s.len() - i,
{
    if i < 0 || i >= s.len() {
        None
    } else if s[i]@ != input {
        Some(i)
    } else {
        first_other_suggestion_from(s, input, i + 1)
    }
}

/// The chat suggestion for the current input: for a command (input starting,
/// after whitespace, with `/`) the first of the command registry's completions
/// `command_suggestions` that differs from the trimmed input; otherwise the
/// mention completion.
pub fn resolve_chat_suggestion(
    input: &str,
    known_player_names: &Vec<String>,
    command_suggestions: &Vec<String>,
) -> (r: Option<String>)
    ensures
        !is_prefix(seq!['/'], trim_start_seq(input@)) ==> autocomplete_answer(
            input@,
            known_player_names@,
            r,
        ),
        is_prefix(seq!['/'], trim_start_seq(input@)) ==> match first_other_suggestion_from(
            command_suggestions@,
            trim_seq(input@),
            0,
        ) {
            Some(k) => r matches Some(s) && s@ == command_suggestions@[k]@,
            None => r is None,
        },
{
    if starts_with(trim_start(input), "/") {
        proof {
            reveal_strlit("/");
            assert("/"@ =~= seq!['/']);
        }
        let trimmed = trim(input);
        let mut i: usize = 0;
        while i < command_suggestions.len()
            invariant
                is_prefix(seq!['/'], trim_start_seq(input@)),
                i <= command_suggestions@.len(),
                trimmed@ == trim_seq(input@),
                first_other_suggestion_from(command_suggestions@, trim_seq(input@), 0)
                    == first_other_suggestion_from(command_suggestions@, trim_seq(input@), i as int),
            decreases command_suggestions.len() - i,
        {
            if !text_equals(command_suggestions[i].as_str(), trimmed) {
                return Some(command_suggestions[i].clone());
            }
            i = i + 1;
        }
        return None;
    }
    proof {
        reveal_strlit("/");
        assert("/"@ =~= seq!['/']);
    }
    autocomplete_mention(input, known_player_names)
}

} // verus!
