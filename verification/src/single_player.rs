//! The single-player screen: the list of saved worlds, the create-world
//! form, and what a click does; plus the naming and seeding of new worlds.
use vstd::prelude::*;
use crate::css_ids::{WidgetState, prefixed_number, parse_card_index, SINGLE_PLAYER_WORLD_CARD_PREFIX};
use crate::text::{
    text_equals, trim, trim_seq, to_owned_string, push_char, parse_i32, parse_i32_seq, decimal_chars,
    push_decimal,
};
use crate::multiplayer::{FormInputField, field_text, field_set, last_field_text};
use crate::ui_state::UiInteractionState;
use vstd::utf8::encode_utf8;

verus! {

pub const SINGLE_PLAYER_CREATE_WORLD_ID: &'static str = "single-player-create-world";
pub const SINGLE_PLAYER_PLAY_WORLD_ID: &'static str = "single-player-play-world";
pub const SINGLE_PLAYER_DELETE_WORLD_ID: &'static str = "single-player-delete-world";
pub const SINGLE_PLAYER_DELETE_CONFIRM_ID: &'static str = "single-player-delete-confirm";
pub const SINGLE_PLAYER_DELETE_CANCEL_ID: &'static str = "single-player-delete-cancel";
pub const CREATE_WORLD_NAME_INPUT_ID: &'static str = "create-world-name-input";
pub const CREATE_WORLD_SEED_INPUT_ID: &'static str = "create-world-seed-input";
pub const CREATE_WORLD_CREATE_ID: &'static str = "create-world-create";
pub const CREATE_WORLD_ABORT_ID: &'static str = "create-world-abort";

/// What a click on the single-player screen asks for.
#[derive(Clone, Copy, PartialEq, Eq, Debug, Structural)]
pub enum SinglePlayerAction {
    SelectWorld(usize),
    OpenCreateWorld,
    PlayWorld,
    DeleteWorld,
    BackToMenu,
    ConfirmDelete,
    CancelDelete,
    CreateWorldSubmit,
    CreateWorldAbort,
}

pub open spec fn single_player_action_of(id: Seq<char>) -> Option<SinglePlayerAction> {
    if id == SINGLE_PLAYER_CREATE_WORLD_ID@ {
        Some(SinglePlayerAction::OpenCreateWorld)
    } else if id == SINGLE_PLAYER_PLAY_WORLD_ID@ {
        Some(SinglePlayerAction::PlayWorld)
    } else if id == SINGLE_PLAYER_DELETE_WORLD_ID@ {
        Some(SinglePlayerAction::DeleteWorld)
    } else if id == SINGLE_PLAYER_DELETE_CONFIRM_ID@ {
        Some(SinglePlayerAction::ConfirmDelete)
    } else if id == SINGLE_PLAYER_DELETE_CANCEL_ID@ {
        Some(SinglePlayerAction::CancelDelete)
    } else if id == CREATE_WORLD_CREATE_ID@ {
        Some(SinglePlayerAction::CreateWorldSubmit)
    } else if id == CREATE_WORLD_ABORT_ID@ {
        Some(SinglePlayerAction::CreateWorldAbort)
    } else {
        match prefixed_number(id, SINGLE_PLAYER_WORLD_CARD_PREFIX@) {
            Some(n) => Some(SinglePlayerAction::SelectWorld(n as usize)),
            None => None,
        }
    }
}

/// The action of a single-player button id.
pub fn parse_single_player_action(id: &str) -> (r: Option<SinglePlayerAction>)
    ensures
        r == single_player_action_of(id@),
{
    if text_equals(id, SINGLE_PLAYER_CREATE_WORLD_ID) {
        return Some(SinglePlayerAction::OpenCreateWorld);
    }
    if text_equals(id, SINGLE_PLAYER_PLAY_WORLD_ID) {
        return Some(SinglePlayerAction::PlayWorld);
    }
    if text_equals(id, SINGLE_PLAYER_DELETE_WORLD_ID) {
        return Some(SinglePlayerAction::DeleteWorld);
    }
    if text_equals(id, SINGLE_PLAYER_DELETE_CONFIRM_ID) {
        return Some(SinglePlayerAction::ConfirmDelete);
    }
    if text_equals(id, SINGLE_PLAYER_DELETE_CANCEL_ID) {
        return Some(SinglePlayerAction::CancelDelete);
    }
    if text_equals(id, CREATE_WORLD_CREATE_ID) {
        return Some(SinglePlayerAction::CreateWorldSubmit);
    }
    if text_equals(id, CREATE_WORLD_ABORT_ID) {
        return Some(SinglePlayerAction::CreateWorldAbort);
    }
    match parse_card_index(id, SINGLE_PLAYER_WORLD_CARD_PREFIX) {
        Some(n) => Some(SinglePlayerAction::SelectWorld(n)),
        None => None,
    }
}

/// One button's contribution to a frame's clicks: a world card that is
/// checked or focused selects it and is reset; another checked button is
/// unchecked and yields its action, if it has one.
pub open spec fn world_button_step(w: WidgetState) -> (WidgetState, Option<SinglePlayerAction>) {
    match prefixed_number(w.css_id@, SINGLE_PLAYER_WORLD_CARD_PREFIX@) {
        Some(n) => if w.checked || w.focused {
            (
                WidgetState { checked: false, focused: false, ..w },
                Some(SinglePlayerAction::SelectWorld(n as usize)),
            )
        } else {
            (w, None)
        },
        None => if !w.checked {
            (w, None)
        } else {
            (WidgetState { checked: false, ..w }, single_player_action_of(w.css_id@))
        },
    }
}

pub open spec fn world_button_actions(w: Seq<WidgetState>) -> Seq<SinglePlayerAction>
    decreases w.len(),
{
    if w.len() == 0 {
        Seq::empty()
    } else {
        let prev = world_button_actions(w.drop_last());
        match world_button_step(w.last()).1 {
            Some(a) => prev.push(a),
            None => prev,
        }
    }
}

/// The clicks of this frame on the single-player screen, in button order;
/// the buttons that produced them are reset.
pub fn collect_single_player_actions(widgets: &mut Vec<WidgetState>) -> (r: Vec<SinglePlayerAction>)
    ensures
        r@ == world_button_actions(old(widgets)@),
        final(widgets)@.len() == old(widgets)@.len(),
        forall|k: int|
            0 <= k < old(widgets)@.len() ==> #[trigger] final(widgets)@[k] == world_button_step(
                old(widgets)@[k],
            ).0,
{
    let ghost w0 = widgets@;
    let mut actions: Vec<SinglePlayerAction> = Vec::new();
    let mut i: usize = 0;
    while i < widgets.len()
        invariant
            w0 == old(widgets)@,
            widgets@.len() == w0.len(),
            i <= w0.len(),
            actions@ == world_button_actions(w0.subrange(0, i as int)),
            forall|k: int| 0 <= k < i ==> #[trigger] widgets@[k] == world_button_step(w0[k]).0,
            forall|k: int| i <= k < w0.len() ==> #[trigger] widgets@[k] == w0[k],
        decreases widgets.len() - i,
    {
        proof {
            let p = w0.subrange(0, i + 1);
            assert(p.drop_last() =~= w0.subrange(0, i as int));
            assert(p.last() == w0[i as int]);
        }
        let w = WidgetState {
            css_id: widgets[i].css_id.clone(),
            hovered: widgets[i].hovered,
            checked: widgets[i].checked,
            focused: widgets[i].focused,
        };
        assert(w == w0[i as int]);
        match parse_card_index(w.css_id.as_str(), SINGLE_PLAYER_WORLD_CARD_PREFIX) {
            Some(index) => {
                if w.checked || w.focused {
                    let reset = WidgetState {
                        css_id: w.css_id,
                        hovered: w.hovered,
                        checked: false,
                        focused: false,
                    };
                    widgets.set(i, reset);
                    actions.push(SinglePlayerAction::SelectWorld(index));
                }
            },
            None => {
                if w.checked {
                    let action = parse_single_player_action(w.css_id.as_str());
                    let reset = WidgetState {
                        css_id: w.css_id,
                        hovered: w.hovered,
                        checked: false,
                        focused: w.focused,
                    };
                    widgets.set(i, reset);
                    match action {
                        Some(a) => {
                            actions.push(a);
                        },
                        None => {},
                    }
                }
            },
        }
        i = i + 1;
    }
    assert(w0.subrange(0, w0.len() as int) =~= w0);
    actions
}

// ---------------------------------------------------------------------------
// The create-world form
// ---------------------------------------------------------------------------

/// The name and seed typed into the create-world form: the trimmed name
/// must not be empty; a blank seed means none, else it must be an `i32`.
pub open spec fn create_world_form_of(form: Seq<FormInputField>) -> Option<(Seq<char>, Option<i32>)> {
    let name = trim_seq(field_text(form, CREATE_WORLD_NAME_INPUT_ID@));
    let seed = trim_seq(field_text(form, CREATE_WORLD_SEED_INPUT_ID@));
    if name.len() == 0 {
        None
    } else if seed.len() == 0 {
        Some((name, None))
    } else {
        match parse_i32_seq(seed) {
            Some(v) => Some((name, Some(v as i32))),
            None => None,
        }
    }
}

/// Reads the create-world form: the world's name and, if given, its seed;
/// `None` where the name is blank or the seed not a number.
pub fn read_create_world_inputs(create_inputs: &Vec<FormInputField>) -> (r: Option<(String, Option<i32>)>)
    ensures
        match create_world_form_of(create_inputs@) {
            None => r is None,
            Some((name, seed)) => r matches Some((n, s)) && n@ == name && s == seed,
        },
{
    let name_text = last_field_text(create_inputs, CREATE_WORLD_NAME_INPUT_ID);
    let seed_text = last_field_text(create_inputs, CREATE_WORLD_SEED_INPUT_ID);
    let name = to_owned_string(trim(name_text.as_str()));
    if name.as_str().unicode_len() == 0 {
        return None;
    }
    let seed_trimmed = trim(seed_text.as_str());
    if seed_trimmed.unicode_len() == 0 {
        return Some((name, None));
    }
    match parse_i32(seed_trimmed) {
        Some(v) => Some((name, Some(v))),
        None => None,
    }
}

/// Empties the name and seed inputs of the create-world form.
pub fn clear_create_world_inputs(create_inputs: &mut Vec<FormInputField>)
    ensures
        final(create_inputs)@.len() == old(create_inputs)@.len(),
        forall|k: int|
            0 <= k < old(create_inputs)@.len() ==> if old(create_inputs)@[k].css_id@
                == CREATE_WORLD_NAME_INPUT_ID@ || old(create_inputs)@[k].css_id@
                == CREATE_WORLD_SEED_INPUT_ID@ {
                field_set(#[trigger] old(create_inputs)@[k], final(create_inputs)@[k], Seq::empty())
            } else {
                final(create_inputs)@[k] == old(create_inputs)@[k]
            },
{
    let ghost f0 = create_inputs@;
    let mut i: usize = 0;
    while i < create_inputs.len()
        invariant
            f0 == old(create_inputs)@,
            create_inputs@.len() == f0.len(),
            i <= f0.len(),
            forall|k: int|
                0 <= k < i ==> if f0[k].css_id@ == CREATE_WORLD_NAME_INPUT_ID@ || f0[k].css_id@
                    == CREATE_WORLD_SEED_INPUT_ID@ {
                    field_set(#[trigger] f0[k], create_inputs@[k], Seq::empty())
                } else {
                    create_inputs@[k] == f0[k]
                },
            forall|k: int| i <= k < f0.len() ==> #[trigger] create_inputs@[k] == f0[k],
        decreases create_inputs.len() - i,
    {
        if text_equals(create_inputs[i].css_id.as_str(), CREATE_WORLD_NAME_INPUT_ID) || text_equals(
            create_inputs[i].css_id.as_str(),
            CREATE_WORLD_SEED_INPUT_ID,
        ) {
            let field = FormInputField {
                css_id: create_inputs[i].css_id.clone(),
                text: String::new(),
                cursor_position: 0,
                value: String::new(),
            };
            proof {
                assert(encode_utf8(Seq::<char>::empty()) =~= Seq::<u8>::empty()) by {
                    reveal_with_fuel(encode_utf8, 2);
                }
            }
            create_inputs.set(i, field);
        }
        i = i + 1;
    }
}

// ---------------------------------------------------------------------------
// Naming and seeding new worlds
// ---------------------------------------------------------------------------

/// Characters that cannot stand in a folder name.
pub open spec fn is_reserved_char(c: char) -> bool {
    c == '/' || c == '\\' || c == ':' || c == '*' || c == '?' || c == '"' || c == '<' || c == '>'
        || c == '|'
}

/// The folder name of a world: the trimmed name with every reserved
/// character replaced by `_`.
pub open spec fn normalized_world_name(raw: Seq<char>) -> Seq<char> {
    let t = trim_seq(raw);
    Seq::new(t.len(), |i: int| if is_reserved_char(t[i]) { '_' } else { t[i] })
}

pub fn normalize_world_name(raw_name: &str) -> (r: String)
    ensures
        r@ == normalized_world_name(raw_name@),
{
    let t = trim(raw_name);
    let n = t.unicode_len();
    let mut out = String::new();
    let mut i: usize = 0;
    while i < n
        invariant
            n == t@.len(),
            t@ == trim_seq(raw_name@),
            i <= n,
            out@ == normalized_world_name(raw_name@).subrange(0, i as int),
        decreases n - i,
    {
        let c = t.get_char(i);
        let mapped = if c == '/' || c == '\\' || c == ':' || c == '*' || c == '?' || c == '"' || c == '<'
            || c == '>' || c == '|' {
            '_'
        } else {
            c
        };
        push_char(&mut out, mapped);
        assert(out@ =~= normalized_world_name(raw_name@).subrange(0, i + 1));
        i = i + 1;
    }
    assert(normalized_world_name(raw_name@).subrange(0, n as int) =~= normalized_world_name(
        raw_name@,
    ));
    out
}

/// A text without whitespace at either end is its own trim.
proof fn lemma_trimmed_is_fixed(s: Seq<char>)
    requires
        s.len() > 0 ==> !crate::text::is_ws(s[0]) && !crate::text::is_ws(s.last()),
    ensures
        trim_seq(s) == s,
{
    if s.len() == 0 {
        assert(crate::text::leading_ws(s) == 0);
        assert(trim_seq(s) =~= s);
    } else {
        crate::text::lemma_leading_ws_exact(s, 0);
        assert(crate::text::trim_start_seq(s) =~= s);
        crate::text::lemma_trailing_ws_exact(s, s.len() as int);
        assert(crate::text::trim_end_seq(s) =~= s);
    }
}

/// The trim of a text has no whitespace at either end.
proof fn lemma_trim_ends(raw: Seq<char>)
    ensures
        trim_seq(raw).len() > 0 ==> !crate::text::is_ws(trim_seq(raw)[0]) && !crate::text::is_ws(
            trim_seq(raw).last(),
        ),
{
    let ts = crate::text::trim_start_seq(raw);
    crate::text::lemma_leading_ws_bound(raw);
    crate::text::lemma_trailing_ws_bound(ts);
    let t = trim_seq(raw);
    if t.len() > 0 {
        assert(t[0] == ts[0]);
        assert(ts[0] == raw[crate::text::leading_ws(raw) as int]);
        assert(t.last() == ts[ts.len() - crate::text::trailing_ws(ts) - 1]);
    }
}

/// Normalizing a world name twice gives the same name as once: the result
/// is trimmed and holds no reserved character.
pub proof fn lemma_normalize_world_name_idempotent(raw: Seq<char>)
    ensures
        normalized_world_name(normalized_world_name(raw)) == normalized_world_name(raw),
        normalized_world_name(raw).len() == trim_seq(raw).len(),
        forall|i: int|
            0 <= i < normalized_world_name(raw).len() ==> !is_reserved_char(
                #[trigger] normalized_world_name(raw)[i],
            ),
{
    let t = trim_seq(raw);
    let n = normalized_world_name(raw);
    lemma_trim_ends(raw);
    if n.len() > 0 {
        assert(n[0] == '_' || n[0] == t[0]);
        assert(n.last() == '_' || n.last() == t.last());
        assert(!crate::text::is_ws('_'));
    }
    lemma_trimmed_is_fixed(n);
    assert(normalized_world_name(n) =~= n);
}

/// `base-<n>`.
pub open spec fn suffixed_name(base: Seq<char>, n: nat) -> Seq<char> {
    base + seq!['-'] + decimal_chars(n)
}

/// The decimal form of a signed number.
pub open spec fn signed_decimal(v: int) -> Seq<char> {
    if v < 0 {
        seq!['-'] + decimal_chars((-v) as nat)
    } else {
        decimal_chars(v as nat)
    }
}

/// Appends the decimal form of `v` to `out`.
pub fn push_i32(out: &mut String, v: i32)
    ensures
        final(out)@ == old(out)@ + signed_decimal(v as int),
{
    if v < 0 {
        push_char(out, '-');
        let m: u64 = if v == i32::MIN {
            2147483648
        } else {
            (-v) as u64
        };
        push_decimal(out, m);
        assert(old(out)@.push('-') + decimal_chars(m as nat) =~= old(out)@ + signed_decimal(v as int));
    } else {
        push_decimal(out, v as u64);
    }
}

/// The first `base-<i>` with `from <= i < 10000` that is not taken.
pub open spec fn first_free_suffix(base: Seq<char>, taken: Seq<Seq<char>>, from: int) -> Option<nat>
    decreases 10000 - from,
{
    if from < 2 || from >= 10000 {
        None
    } else if !taken.contains(suffixed_name(base, from as nat)) {
        Some(from as nat)
    } else {
        first_free_suffix(base, taken, from + 1)
    }
}

/// The folder name of a new world: the base name if it is free, else the
/// first free `base-2` .. `base-9999`, else `base-<fallback>`.
pub open spec fn unique_name_of(base: Seq<char>, taken: Seq<Seq<char>>, fallback: i32) -> Seq<char> {
    if !taken.contains(base) {
        base
    } else {
        match first_free_suffix(base, taken, 2) {
            Some(i) => suffixed_name(base, i),
            None => base + seq!['-'] + signed_decimal(fallback as int),
        }
    }
}

fn name_taken(taken: &Vec<String>, name: &str) -> (r: bool)
    ensures
        r == crate::multiplayer::key_views(taken@).contains(name@),
{
    let mut i: usize = 0;
    while i < taken.len()
        invariant
            i <= taken@.len(),
            forall|j: int| 0 <= j < i ==> taken@[j]@ != name@,
        decreases taken.len() - i,
    {
        if text_equals(taken[i].as_str(), name) {
            assert(crate::multiplayer::key_views(taken@)[i as int] == name@);
            return true;
        }
        i = i + 1;
    }
    assert(!crate::multiplayer::key_views(taken@).contains(name@)) by {
        if crate::multiplayer::key_views(taken@).contains(name@) {
            let j = choose|j: int|
                0 <= j < crate::multiplayer::key_views(taken@).len()
                    && crate::multiplayer::key_views(taken@)[j] == name@;
            assert(taken@[j]@ == name@);
        }
    }
    false
}

/// The folder name for a new world called `base_name`, given the names in the
/// saves folder and the seed to append when every numbered name is taken.
pub fn unique_world_name(base_name: &str, taken: &Vec<String>, fallback_seed: i32) -> (r: String)
    ensures
        r@ == unique_name_of(base_name@, crate::multiplayer::key_views(taken@), fallback_seed),
{
    if !name_taken(taken, base_name) {
        return to_owned_string(base_name);
    }
    let ghost tv = crate::multiplayer::key_views(taken@);
    let mut i: u64 = 2;
    while i < 10000
        invariant
            2 <= i <= 10000,
            tv == crate::multiplayer::key_views(taken@),
            tv.contains(base_name@),
            first_free_suffix(base_name@, tv, 2) == first_free_suffix(base_name@, tv, i as int),
        decreases 10000 - i,
    {
        let mut candidate = to_owned_string(base_name);
        push_char(&mut candidate, '-');
        push_decimal(&mut candidate, i);
        assert(candidate@ == suffixed_name(base_name@, i as nat));
        if !name_taken(taken, candidate.as_str()) {
            return candidate;
        }
        i = i + 1;
    }
    let mut out = to_owned_string(base_name);
    push_char(&mut out, '-');
    push_i32(&mut out, fallback_seed);
    assert(out@ =~= base_name@ + seq!['-'] + signed_decimal(fallback_seed as int));
    out
}

/// The path of a new world's folder under the saves folder `root`.
pub fn unique_world_path(root: &str, base_name: &str, taken: &Vec<String>, fallback_seed: i32) -> (r:
    String)
    ensures
        r@ == crate::text::path_join_seq(
            root@,
            unique_name_of(base_name@, crate::multiplayer::key_views(taken@), fallback_seed),
        ),
{
    let name = unique_world_name(base_name, taken, fallback_seed);
    crate::text::path_join(root, name.as_str())
}

/// `wrapping_abs` of an `i32`: the absolute value, except that the least
/// value stays itself.
pub open spec fn wrapping_abs_i32(x: i32) -> i32 {
    if x == i32::MIN {
        x
    } else if x < 0 {
        (-x) as i32
    } else {
        x
    }
}

/// The seed of a new world from the clock (`nanos`, nanoseconds since the
/// epoch truncated to 64 bits) and a salt: the low 32 bits of
/// `nanos ^ (salt * 0x9E3779B97F4A7C15)` (wrapping), made non-negative with
/// `wrapping_abs`; zero becomes `max(default_seed, 1)`.
pub open spec fn seed_from(default_seed: i32, salt: u64, nanos: u64) -> i32 {
    let mixed: u64 = nanos ^ ((salt * 0x9E37_79B9_7F4A_7C15u64) % 0x1_0000_0000_0000_0000) as u64;
    let seed = wrapping_abs_i32(mixed as i32);
    if seed == 0 {
        if default_seed < 1 {
            1
        } else {
            default_seed
        }
    } else {
        seed
    }
}

/// A seed for a new world; `nanos` is the time the caller read from the clock.
pub fn generate_seed(default_seed: i32, salt: u64, nanos: u64) -> (r: i32)
    ensures
        r == seed_from(default_seed, salt, nanos),
{
    let product = salt.wrapping_mul(0x9E37_79B9_7F4A_7C15u64);
    let mixed = nanos ^ product;
    let truncated = mixed as i32;
    let seed = if truncated == i32::MIN {
        truncated
    } else if truncated < 0 {
        -truncated
    } else {
        truncated
    };
    if seed == 0 {
        if default_seed < 1 {
            1
        } else {
            default_seed
        }
    } else {
        seed
    }
}

// ---------------------------------------------------------------------------
// The screen's state and clicks
// ---------------------------------------------------------------------------

#[derive(Clone, Copy, PartialEq, Eq, Debug, Structural)]
pub enum SinglePlayerPage {
    List,
    CreateWorld,
}

/// A world in the saves folder: its folder name, seed and path.
pub struct SavedWorldEntry {
    pub folder_name: String,
    pub seed: i32,
    pub path: String,
}

/// A saved world as plain values.
pub struct WorldView {
    pub folder_name: Seq<char>,
    pub seed: i32,
    pub path: Seq<char>,
}

pub open spec fn world_views(v: Seq<SavedWorldEntry>) -> Seq<WorldView> {
    Seq::new(
        v.len(),
        |i: int| WorldView { folder_name: v[i].folder_name@, seed: v[i].seed, path: v[i].path@ },
    )
}

pub open spec fn insert_world(s: Seq<WorldView>, x: WorldView) -> Seq<WorldView>
    decreases s.len(),
{
    if s.len() == 0 || !crate::chat::seq_lt(x.folder_name, s.last().folder_name) {
        s.push(x)
    } else {
        insert_world(s.drop_last(), x).push(s.last())
    }
}

/// The worlds ordered by folder name; worlds of equal names keep their order.
pub open spec fn sort_worlds(s: Seq<WorldView>) -> Seq<WorldView>
    decreases s.len(),
{
    if s.len() == 0 {
        s
    } else {
        insert_world(sort_worlds(s.drop_last()), s.last())
    }
}

proof fn lemma_insert_world_at(s: Seq<WorldView>, x: WorldView, j: int)
    requires
        0 <= j <= s.len(),
        j == 0 || !crate::chat::seq_lt(x.folder_name, s[j - 1].folder_name),
        forall|k: int| j <= k < s.len() ==> crate::chat::seq_lt(x.folder_name, #[trigger] s[k].folder_name),
    ensures
        insert_world(s, x) == s.insert(j, x),
    decreases s.len() - j,
{
    if j == s.len() {
        assert(s.insert(j, x) =~= s.push(x));
    } else {
        lemma_insert_world_at(s.drop_last(), x, j);
        assert(s.insert(j, x) =~= s.drop_last().insert(j, x).push(s.last()));
    }
}

/// The saved worlds as the list shows them: ordered by folder name, a
/// stable sort.
pub fn sort_saved_worlds(worlds: Vec<SavedWorldEntry>) -> (r: Vec<SavedWorldEntry>)
    ensures
        world_views(r@) == sort_worlds(world_views(worlds@)),
{
    let ghost vv = world_views(worlds@);
    let mut rest = worlds;
    let mut out: Vec<SavedWorldEntry> = Vec::new();
    let ghost mut i: int = 0;
    while rest.len() > 0
        invariant
            0 <= i <= vv.len(),
            world_views(rest@) == vv.subrange(i, vv.len() as int),
            world_views(out@) == sort_worlds(vv.subrange(0, i)),
        decreases rest.len(),
    {
        let ghost rv = world_views(rest@);
        let x = rest.remove(0);
        proof {
            assert(world_views(rest@) =~= rv.subrange(1, rv.len() as int));
            assert(rv[0] == vv[i]);
        }
        let mut j: usize = out.len();
        while j > 0 && crate::chat::chars_lt(x.folder_name.as_str(), out[j - 1].folder_name.as_str())
            invariant
                j <= out@.len(),
                forall|k: int|
                    j <= k < out@.len() ==> crate::chat::seq_lt(
                        x.folder_name@,
                        #[trigger] out@[k].folder_name@,
                    ),
            decreases j,
        {
            j = j - 1;
        }
        proof {
            let o = world_views(out@);
            let xv = WorldView { folder_name: x.folder_name@, seed: x.seed, path: x.path@ };
            assert forall|k: int| j <= k < o.len() implies crate::chat::seq_lt(
                xv.folder_name,
                #[trigger] o[k].folder_name,
            ) by {
                assert(o[k].folder_name == out@[k].folder_name@);
            }
            if j > 0 {
                assert(o[j - 1].folder_name == out@[j - 1].folder_name@);
            }
            lemma_insert_world_at(o, xv, j as int);
            let p = vv.subrange(0, i + 1);
            assert(p.drop_last() =~= vv.subrange(0, i));
            assert(p.last() == vv[i]);
            assert(xv == vv[i]);
        }
        let ghost before = world_views(out@);
        let ghost xv = WorldView { folder_name: x.folder_name@, seed: x.seed, path: x.path@ };
        out.insert(j, x);
        assert(world_views(out@) =~= before.insert(j as int, xv));
        proof {
            i = i + 1;
        }
    }
    assert(vv.subrange(0, vv.len() as int) =~= vv);
    out
}

/// The state of the single-player screen. The time of the last card click
/// is kept by the caller; here only which card it was.
pub struct SinglePlayerUiState {
    pub page: SinglePlayerPage,
    pub worlds: Vec<SavedWorldEntry>,
    pub selected_index: Option<usize>,
    pub pending_delete_index: Option<usize>,
    pub last_card_click: Option<usize>,
    pub closing_for_world_load: bool,
}

/// What a click asks of the screen's surroundings.
#[derive(Clone, PartialEq, Eq, Debug)]
pub enum SinglePlayerEffect {
    /// Nothing.
    Stay,
    /// Load world `i` of the list and start; no further click of this frame counts.
    LoadWorld(usize),
    /// Delete world `i` of the list, then list the saves folder again.
    DeleteWorld(usize),
    /// Create a world with this name and seed (if given), then load it.
    CreateWorld(String, Option<i32>),
}

pub open spec fn same_sp(o: SinglePlayerUiState, n: SinglePlayerUiState) -> bool {
    &&& n.page == o.page
    &&& n.worlds == o.worlds
    &&& n.selected_index == o.selected_index
    &&& n.pending_delete_index == o.pending_delete_index
    &&& n.last_card_click == o.last_card_click
    &&& n.closing_for_world_load == o.closing_for_world_load
}

/// The state after the screen began loading a world: it closes for the load
/// and the menu no longer counts as open.
pub open spec fn loading(o: SinglePlayerUiState, n: SinglePlayerUiState) -> bool {
    &&& n.closing_for_world_load
    &&& n.page == o.page
    &&& n.worlds == o.worlds
}

/// What one click does on the single-player screen; `quick_repeat` tells
/// whether the previous card click was recent enough to make a double click.
pub open spec fn single_player_step(
    o: SinglePlayerUiState,
    n: SinglePlayerUiState,
    menu_before: bool,
    menu_after: bool,
    fo: Seq<FormInputField>,
    fnew: Seq<FormInputField>,
    action: SinglePlayerAction,
    quick_repeat: bool,
    e: SinglePlayerEffect,
) -> bool {
    let on_list = o.page == SinglePlayerPage::List;
    let on_create = o.page == SinglePlayerPage::CreateWorld;
    match action {
        SinglePlayerAction::SelectWorld(i) => fnew == fo && if !on_list || i >= o.worlds@.len() {
            same_sp(o, n) && menu_after == menu_before && e == SinglePlayerEffect::Stay
        } else {
            let double = o.last_card_click == Some(i) && quick_repeat;
            &&& n.selected_index == Some(i)
            &&& n.pending_delete_index is None
            &&& n.last_card_click == Some(i)
            &&& n.page == o.page
            &&& n.worlds == o.worlds
            &&& if double {
                n.closing_for_world_load && !menu_after && e == SinglePlayerEffect::LoadWorld(i)
            } else {
                n.closing_for_world_load == o.closing_for_world_load && menu_after == menu_before && e
                    == SinglePlayerEffect::Stay
            }
        },
        SinglePlayerAction::OpenCreateWorld => menu_after == menu_before && e == SinglePlayerEffect::Stay
            && if on_list {
            &&& n.page == SinglePlayerPage::CreateWorld
            &&& n.pending_delete_index is None
            &&& n.worlds == o.worlds
            &&& n.selected_index == o.selected_index
            &&& n.last_card_click == o.last_card_click
            &&& n.closing_for_world_load == o.closing_for_world_load
            &&& fnew.len() == fo.len()
            &&& forall|k: int|
                0 <= k < fo.len() ==> if fo[k].css_id@ == CREATE_WORLD_NAME_INPUT_ID@ || fo[k].css_id@
                    == CREATE_WORLD_SEED_INPUT_ID@ {
                    field_set(#[trigger] fo[k], fnew[k], Seq::empty())
                } else {
                    fnew[k] == fo[k]
                }
        } else {
            same_sp(o, n) && fnew == fo
        },
        SinglePlayerAction::PlayWorld => fnew == fo && match o.selected_index {
            Some(i) if on_list && i < o.worlds@.len() => {
                &&& n.closing_for_world_load
                &&& !menu_after
                &&& e == SinglePlayerEffect::LoadWorld(i)
                &&& n.page == o.page
                &&& n.worlds == o.worlds
                &&& n.selected_index == o.selected_index
                &&& n.pending_delete_index == o.pending_delete_index
                &&& n.last_card_click == o.last_card_click
            },
            _ => same_sp(o, n) && menu_after == menu_before && e == SinglePlayerEffect::Stay,
        },
        SinglePlayerAction::DeleteWorld => fnew == fo && menu_after == menu_before && e
            == SinglePlayerEffect::Stay && match o.selected_index {
            Some(i) if on_list && i < o.worlds@.len() => {
                &&& n.pending_delete_index == Some(i)
                &&& n.page == o.page
                &&& n.worlds == o.worlds
                &&& n.selected_index == o.selected_index
                &&& n.last_card_click == o.last_card_click
                &&& n.closing_for_world_load == o.closing_for_world_load
            },
            _ => same_sp(o, n),
        },
        SinglePlayerAction::ConfirmDelete => fnew == fo && menu_after == menu_before && if !on_list {
            same_sp(o, n) && e == SinglePlayerEffect::Stay
        } else {
            match o.pending_delete_index {
                None => same_sp(o, n) && e == SinglePlayerEffect::Stay,
                Some(i) => {
                    &&& n.pending_delete_index is None
                    &&& n.page == o.page
                    &&& n.worlds == o.worlds
                    &&& n.closing_for_world_load == o.closing_for_world_load
                    &&& if i < o.worlds@.len() {
                        n.selected_index is None && n.last_card_click is None && e
                            == SinglePlayerEffect::DeleteWorld(i)
                    } else {
                        n.selected_index == o.selected_index && n.last_card_click == o.last_card_click
                            && e == SinglePlayerEffect::Stay
                    }
                },
            }
        },
        SinglePlayerAction::CancelDelete => fnew == fo && menu_after == menu_before && e
            == SinglePlayerEffect::Stay && {
            &&& n.pending_delete_index is None
            &&& n.page == o.page
            &&& n.worlds == o.worlds
            &&& n.selected_index == o.selected_index
            &&& n.last_card_click == o.last_card_click
            &&& n.closing_for_world_load == o.closing_for_world_load
        },
        SinglePlayerAction::CreateWorldSubmit => fnew == fo && menu_after == menu_before && same_sp(o, n)
            && if !on_create {
            e == SinglePlayerEffect::Stay
        } else {
            match create_world_form_of(fo) {
                None => e == SinglePlayerEffect::Stay,
                Some((name, seed)) => e matches SinglePlayerEffect::CreateWorld(n2, s2) && n2@ == name
                    && s2 == seed,
            }
        },
        SinglePlayerAction::CreateWorldAbort => fnew == fo && menu_after == menu_before && e
            == SinglePlayerEffect::Stay && if on_create {
            &&& n.page == SinglePlayerPage::List
            &&& n.worlds == o.worlds
            &&& n.selected_index == o.selected_index
            &&& n.pending_delete_index == o.pending_delete_index
            &&& n.last_card_click == o.last_card_click
            &&& n.closing_for_world_load == o.closing_for_world_load
        } else {
            same_sp(o, n)
        },
        SinglePlayerAction::BackToMenu => fnew == fo && menu_after == menu_before && same_sp(o, n) && e
            == SinglePlayerEffect::Stay,
    }
}

/// Whether a click on world card `index` counts: on the world list, for a
/// listed world (the others are ignored, see `apply_single_player_action`).
pub fn card_click_counts(ui_state: &SinglePlayerUiState, index: usize) -> (r: bool)
    ensures
        r == (ui_state.page == SinglePlayerPage::List && index < ui_state.worlds@.len()),
{
    let on_list = match ui_state.page {
        SinglePlayerPage::List => true,
        _ => false,
    };
    on_list && index < ui_state.worlds.len()
}

/// Applies one click of the single-player screen. A `LoadWorld` effect ends
/// the frame's clicks; `DeleteWorld` and `CreateWorld` are carried out by the
/// caller, which then refreshes the list or starts the new world.
pub fn apply_single_player_action(
    ui_state: &mut SinglePlayerUiState,
    ui_interaction: &mut UiInteractionState,
    create_inputs: &mut Vec<FormInputField>,
    action: SinglePlayerAction,
    quick_repeat: bool,
) -> (e: SinglePlayerEffect)
    ensures
        single_player_step(
            *old(ui_state),
            *final(ui_state),
            old(ui_interaction).menu_open,
            final(ui_interaction).menu_open,
            old(create_inputs)@,
            final(create_inputs)@,
            action,
            quick_repeat,
            e,
        ),
        final(ui_interaction).chat_open == old(ui_interaction).chat_open,
        final(ui_interaction).inventory_open == old(ui_interaction).inventory_open,
{
    let on_list = ui_state.page == SinglePlayerPage::List;
    match action {
        SinglePlayerAction::SelectWorld(index) => {
            if !on_list || index >= ui_state.worlds.len() {
                return SinglePlayerEffect::Stay;
            }
            let double_click = ui_state.last_card_click == Some(index) && quick_repeat;
            ui_state.selected_index = Some(index);
            ui_state.pending_delete_index = None;
            ui_state.last_card_click = Some(index);
            if double_click {
                ui_state.closing_for_world_load = true;
                ui_interaction.menu_open = false;
                return SinglePlayerEffect::LoadWorld(index);
            }
            SinglePlayerEffect::Stay
        },
        SinglePlayerAction::OpenCreateWorld => {
            if !on_list {
                return SinglePlayerEffect::Stay;
            }
            ui_state.page = SinglePlayerPage::CreateWorld;
            ui_state.pending_delete_index = None;
            clear_create_world_inputs(create_inputs);
            SinglePlayerEffect::Stay
        },
        SinglePlayerAction::PlayWorld => {
            if !on_list {
                return SinglePlayerEffect::Stay;
            }
            match ui_state.selected_index {
                Some(index) => {
                    if index < ui_state.worlds.len() {
                        ui_state.closing_for_world_load = true;
                        ui_interaction.menu_open = false;
                        return SinglePlayerEffect::LoadWorld(index);
                    }
                    SinglePlayerEffect::Stay
                },
                None => SinglePlayerEffect::Stay,
            }
        },
        SinglePlayerAction::DeleteWorld => {
            if !on_list {
                return SinglePlayerEffect::Stay;
            }
            match ui_state.selected_index {
                Some(index) => {
                    if index < ui_state.worlds.len() {
                        ui_state.pending_delete_index = Some(index);
                    }
                },
                None => {},
            }
            SinglePlayerEffect::Stay
        },
        SinglePlayerAction::ConfirmDelete => {
            if !on_list {
                return SinglePlayerEffect::Stay;
            }
            let index = match ui_state.pending_delete_index {
                Some(i) => i,
                None => {
                    return SinglePlayerEffect::Stay;
                },
            };
            ui_state.pending_delete_index = None;
            if index >= ui_state.worlds.len() {
                return SinglePlayerEffect::Stay;
            }
            ui_state.selected_index = None;
            ui_state.last_card_click = None;
            SinglePlayerEffect::DeleteWorld(index)
        },
        SinglePlayerAction::CancelDelete => {
            ui_state.pending_delete_index = None;
            SinglePlayerEffect::Stay
        },
        SinglePlayerAction::CreateWorldSubmit => {
            if ui_state.page != SinglePlayerPage::CreateWorld {
                return SinglePlayerEffect::Stay;
            }
            match read_create_world_inputs(create_inputs) {
                Some((name, seed)) => SinglePlayerEffect::CreateWorld(name, seed),
                None => SinglePlayerEffect::Stay,
            }
        },
        SinglePlayerAction::CreateWorldAbort => {
            if ui_state.page == SinglePlayerPage::CreateWorld {
                ui_state.page = SinglePlayerPage::List;
            }
            SinglePlayerEffect::Stay
        },
        SinglePlayerAction::BackToMenu => SinglePlayerEffect::Stay,
    }
}

/// After a new world was created: the screen closes for its load.
pub fn begin_world_load(ui_state: &mut SinglePlayerUiState, ui_interaction: &mut UiInteractionState)
    ensures
        final(ui_state).closing_for_world_load,
        !final(ui_interaction).menu_open,
        final(ui_state).page == old(ui_state).page,
        final(ui_state).worlds == old(ui_state).worlds,
        final(ui_state).selected_index == old(ui_state).selected_index,
        final(ui_state).pending_delete_index == old(ui_state).pending_delete_index,
{
    ui_state.closing_for_world_load = true;
    ui_interaction.menu_open = false;
}

/// Index of the first world at or after `i` with folder name `name`.
pub open spec fn first_world_named(w: Seq<SavedWorldEntry>, name: Seq<char>, i: int) -> Option<int>
    decreases w.len() - i,
{
    if i < 0 || i >= w.len() {
        None
    } else if w[i].folder_name@ == name {
        Some(i)
    } else {
        first_world_named(w, name, i + 1)
    }
}

fn find_world(worlds: &Vec<SavedWorldEntry>, name: &str) -> (r: Option<usize>)
    ensures
        match first_world_named(worlds@, name@, 0) {
            Some(j) => r == Some(j as usize),
            None => r is None,
        },
{
    let mut j: usize = 0;
    while j < worlds.len()
        invariant
            j <= worlds@.len(),
            first_world_named(worlds@, name@, 0) == first_world_named(worlds@, name@, j as int),
        decreases worlds.len() - j,
    {
        if text_equals(worlds[j].folder_name.as_str(), name) {
            return Some(j);
        }
        j = j + 1;
    }
    None
}

/// The list replaced by `worlds` (read from the saves folder): the selection
/// follows its world by name, and a pending deletion past the end is dropped.
pub fn refresh_single_player_content(ui_state: &mut SinglePlayerUiState, worlds: Vec<SavedWorldEntry>)
    ensures
        final(ui_state).worlds == worlds,
        final(ui_state).selected_index == match old(ui_state).selected_index {
            Some(i) if i < old(ui_state).worlds@.len() => match first_world_named(
                worlds@,
                old(ui_state).worlds@[i as int].folder_name@,
                0,
            ) {
                Some(j) => Some(j as usize),
                None => None,
            },
            _ => None,
        },
        final(ui_state).pending_delete_index == match old(ui_state).pending_delete_index {
            Some(i) if i < worlds@.len() => Some(i),
            _ => None,
        },
        final(ui_state).page == old(ui_state).page,
        final(ui_state).last_card_click == old(ui_state).last_card_click,
        final(ui_state).closing_for_world_load == old(ui_state).closing_for_world_load,
{
    let selected_name = match ui_state.selected_index {
        Some(i) => if i < ui_state.worlds.len() {
            Some(ui_state.worlds[i].folder_name.clone())
        } else {
            None
        },
        None => None,
    };
    let selected = match selected_name {
        Some(name) => find_world(&worlds, name.as_str()),
        None => None,
    };
    let pending = match ui_state.pending_delete_index {
        Some(i) => if i < worlds.len() {
            Some(i)
        } else {
            None
        },
        None => None,
    };
    ui_state.worlds = worlds;
    ui_state.selected_index = selected;
    ui_state.pending_delete_index = pending;
}

/// What the back key does on the single-player screen.
#[derive(Clone, Copy, PartialEq, Eq, Debug, Structural)]
pub enum SinglePlayerBack {
    Stay,
    ClosedDialog,
    ToList,
    ToMenu,
}

/// The back key: closes the delete prompt, else leaves the create-world page,
/// else returns to the main menu.
pub fn handle_single_player_back_navigation(ui_state: &mut SinglePlayerUiState, close_pressed: bool) -> (r:
    SinglePlayerBack)
    ensures
        !close_pressed ==> r == SinglePlayerBack::Stay && same_sp(*old(ui_state), *final(ui_state)),
        close_pressed && old(ui_state).pending_delete_index is Some ==> r == SinglePlayerBack::ClosedDialog
            && final(ui_state).pending_delete_index is None && final(ui_state).page == old(ui_state).page,
        close_pressed && old(ui_state).pending_delete_index is None && old(ui_state).page
            == SinglePlayerPage::CreateWorld ==> r == SinglePlayerBack::ToList && final(ui_state).page
            == SinglePlayerPage::List && final(ui_state).pending_delete_index is None,
        close_pressed && old(ui_state).pending_delete_index is None && old(ui_state).page
            == SinglePlayerPage::List ==> r == SinglePlayerBack::ToMenu && same_sp(
            *old(ui_state),
            *final(ui_state),
        ),
        final(ui_state).worlds == old(ui_state).worlds,
        final(ui_state).selected_index == old(ui_state).selected_index,
        final(ui_state).last_card_click == old(ui_state).last_card_click,
        final(ui_state).closing_for_world_load == old(ui_state).closing_for_world_load,
{
    if !close_pressed {
        return SinglePlayerBack::Stay;
    }
    if ui_state.pending_delete_index.is_some() {
        ui_state.pending_delete_index = None;
        return SinglePlayerBack::ClosedDialog;
    }
    match ui_state.page {
        SinglePlayerPage::CreateWorld => {
            ui_state.page = SinglePlayerPage::List;
            SinglePlayerBack::ToList
        },
        SinglePlayerPage::List => SinglePlayerBack::ToMenu,
    }
}

/// Which parts of the screen show: the world list, the create-world page,
/// the delete prompt. Nothing shows while the screen closes for a load
/// (the prompt then keeps its visibility: `None`).
pub fn sync_single_player_visibility(ui_state: &SinglePlayerUiState) -> (r: (bool, bool, Option<bool>))
    ensures
        ui_state.closing_for_world_load ==> r == (false, false, None::<bool>),
        !ui_state.closing_for_world_load ==> r == (
            ui_state.page == SinglePlayerPage::List,
            ui_state.page == SinglePlayerPage::CreateWorld,
            Some(ui_state.page == SinglePlayerPage::List && ui_state.pending_delete_index is Some),
        ),
{
    if ui_state.closing_for_world_load {
        return (false, false, None);
    }
    let on_list = ui_state.page == SinglePlayerPage::List;
    (on_list, !on_list, Some(on_list && ui_state.pending_delete_index.is_some()))
}

/// The question of the delete prompt.
pub fn single_player_delete_prompt(ui_state: &SinglePlayerUiState) -> (r: String)
    ensures
        r@ == "Delete world `"@ + match ui_state.pending_delete_index {
            Some(i) if i < ui_state.worlds@.len() => ui_state.worlds@[i as int].folder_name@,
            _ => Seq::empty(),
        } + "`?"@,
{
    let mut out = to_owned_string("Delete world `");
    match ui_state.pending_delete_index {
        Some(i) => {
            if i < ui_state.worlds.len() {
                out.append(ui_state.worlds[i].folder_name.as_str());
            }
        },
        None => {},
    }
    out.append("`?");
    out
}

/// The text of a world card.
pub fn single_player_card_text(world: &SavedWorldEntry) -> (r: String)
    ensures
        r@ == "WeltName: "@ + world.folder_name@ + "\nSeed: "@ + signed_decimal(world.seed as int),
{
    let mut out = to_owned_string("WeltName: ");
    out.append(world.folder_name.as_str());
    out.append("\nSeed: ");
    push_i32(&mut out, world.seed);
    out
}

/// Entering the single-player screen with the worlds read from the saves
/// folder: the list page, no pending deletion, no card click remembered
/// (the caller keeps the time), not closing; the form emptied.
pub fn enter_single_player_screen(
    ui_state: &mut SinglePlayerUiState,
    worlds: Vec<SavedWorldEntry>,
    create_inputs: &mut Vec<FormInputField>,
)
    ensures
        final(ui_state).page == SinglePlayerPage::List,
        final(ui_state).pending_delete_index is None,
        final(ui_state).last_card_click == Some(usize::MAX),
        !final(ui_state).closing_for_world_load,
        final(ui_state).worlds == worlds,
        final(ui_state).selected_index == match old(ui_state).selected_index {
            Some(i) if i < old(ui_state).worlds@.len() => match first_world_named(
                worlds@,
                old(ui_state).worlds@[i as int].folder_name@,
                0,
            ) {
                Some(j) => Some(j as usize),
                None => None,
            },
            _ => None,
        },
        final(create_inputs)@.len() == old(create_inputs)@.len(),
{
    ui_state.page = SinglePlayerPage::List;
    ui_state.pending_delete_index = None;
    ui_state.last_card_click = Some(usize::MAX);
    ui_state.closing_for_world_load = false;
    refresh_single_player_content(ui_state, worlds);
    clear_create_world_inputs(create_inputs);
}

/// Leaving the single-player screen.
pub fn exit_single_player_screen(ui_state: &mut SinglePlayerUiState, ui_interaction: &mut UiInteractionState)
    ensures
        !final(ui_interaction).menu_open,
        final(ui_state).page == SinglePlayerPage::List,
        final(ui_state).pending_delete_index is None,
        final(ui_state).last_card_click is None,
        !final(ui_state).closing_for_world_load,
        final(ui_state).worlds == old(ui_state).worlds,
        final(ui_state).selected_index == old(ui_state).selected_index,
{
    ui_interaction.menu_open = false;
    ui_state.page = SinglePlayerPage::List;
    ui_state.pending_delete_index = None;
    ui_state.last_card_click = None;
    ui_state.closing_for_world_load = false;
}

/// While the single-player screen is up the menu counts as open and the
/// cursor is free, unless the screen is closing for a world load.
pub fn set_single_player_interaction(
    ui_state: &SinglePlayerUiState,
    ui_interaction: &mut UiInteractionState,
    cursor: &mut crate::ui_state::CursorOptions,
)
    ensures
        ui_state.closing_for_world_load ==> !final(ui_interaction).menu_open && *final(cursor) == *old(
            cursor,
        ),
        !ui_state.closing_for_world_load ==> final(ui_interaction).menu_open && final(cursor).grab_mode
            == crate::ui_state::CursorGrabMode::Free && final(cursor).visible,
        final(ui_interaction).chat_open == old(ui_interaction).chat_open,
        final(ui_interaction).inventory_open == old(ui_interaction).inventory_open,
{
    if ui_state.closing_for_world_load {
        ui_interaction.menu_open = false;
        return;
    }
    ui_interaction.menu_open = true;
    cursor.grab_mode = crate::ui_state::CursorGrabMode::Free;
    cursor.visible = true;
}

/// A child of a UI node: its entity and its name, if it has one.
pub struct NamedChild {
    pub entity: u64,
    pub name: Option<String>,
}

/// The name prefix of the node inside a scrolling container that holds its content.
pub const SCROLL_CONTENT_PREFIX: &'static str = "Div-ScrollContent-";

pub open spec fn first_scroll_content_from(children: Seq<NamedChild>, i: int) -> Option<u64>
    decreases children.len() - i,
{
    if i < 0 || i >= children.len() {
        None
    } else if children[i].name matches Some(n) && crate::text::is_prefix(SCROLL_CONTENT_PREFIX@, n@) {
        Some(children[i].entity)
    } else {
        first_scroll_content_from(children, i + 1)
    }
}

/// The first child whose name begins with `Div-ScrollContent-`: the node
/// cards are inserted into so that the scroll container can measure them.
pub fn find_scroll_content_child(children: &Vec<NamedChild>) -> (r: Option<u64>)
    ensures
        r == first_scroll_content_from(children@, 0),
{
    let mut i: usize = 0;
    while i < children.len()
        invariant
            i <= children@.len(),
            first_scroll_content_from(children@, 0) == first_scroll_content_from(children@, i as int),
        decreases children.len() - i,
    {
        match &children[i].name {
            Some(n) => {
                if crate::text::starts_with(n.as_str(), SCROLL_CONTENT_PREFIX) {
                    return Some(children[i].entity);
                }
            },
            None => {},
        }
        i = i + 1;
    }
    None
}

} // verus!
