//! The in-game pause menu: opening and closing it, its buttons, keeping its
//! page on the stack of active UI pages, and when game time stops.
use vstd::prelude::*;
use crate::css_ids::WidgetState;
use crate::text::{text_equals, starts_with, is_prefix, to_owned_string};
use crate::ui_state::{
    UiInteractionState, CursorOptions, CursorGrabMode, Visibility, unchecked_upto,
};

verus! {

pub const PAUSE_MENU_UI_KEY: &'static str = "pause-menu";
pub const PAUSE_MENU_MULTIPLAYER_UI_KEY: &'static str = "pause-menu-multiplayer";
pub const PAUSE_MENU_UI_PATH: &'static str = "ui/html/pause_menu.html";
pub const PAUSE_MENU_MULTIPLAYER_UI_PATH: &'static str = "ui/html/pause_menu_disconnect.html";
pub const PAUSE_PLAY_ID: &'static str = "pause-menu-play";
pub const PAUSE_CONNECT_ID: &'static str = "pause-menu-connect";
pub const PAUSE_SETTINGS_ID: &'static str = "pause-menu-settings";
pub const PAUSE_CLOSE_ID: &'static str = "pause-menu-close";

/// Whether the pause menu is open.
pub struct PauseMenuState {
    pub open: bool,
}

#[derive(Clone, Copy, PartialEq, Eq, Debug, Structural)]
pub enum PauseMenuAction {
    BackToGame,
    OpenToLan,
    Settings,
    ExitToMenu,
}

/// The stack of active UI pages (by key), as the UI registry keeps it, and
/// whether the UI must be rebuilt.
pub struct UiStack {
    pub current: Option<Vec<String>>,
    pub ui_update: bool,
}

pub open spec fn names(v: Seq<String>) -> Seq<Seq<char>> {
    Seq::new(v.len(), |i: int| v[i]@)
}

/// The names other than `key`, in order.
pub open spec fn without(s: Seq<Seq<char>>, key: Seq<char>) -> Seq<Seq<char>>
    decreases s.len(),
{
    if s.len() == 0 {
        s
    } else {
        let t = without(s.drop_last(), key);
        if s.last() == key {
            t
        } else {
            t.push(s.last())
        }
    }
}

/// The page key of the pause menu: the multiplayer variant while connected.
pub open spec fn pause_key(connected: bool) -> Seq<char> {
    if connected {
        PAUSE_MENU_MULTIPLAYER_UI_KEY@
    } else {
        PAUSE_MENU_UI_KEY@
    }
}

pub fn pause_menu_ui_key(multiplayer_connected: bool) -> (r: &'static str)
    ensures
        r@ == pause_key(multiplayer_connected),
{
    if multiplayer_connected {
        PAUSE_MENU_MULTIPLAYER_UI_KEY
    } else {
        PAUSE_MENU_UI_KEY
    }
}

/// The page file of the pause menu: the disconnect variant while connected.
pub fn pause_menu_ui_path(multiplayer_connected: bool) -> (r: &'static str)
    ensures
        multiplayer_connected ==> r@ == PAUSE_MENU_MULTIPLAYER_UI_PATH@,
        !multiplayer_connected ==> r@ == PAUSE_MENU_UI_PATH@,
{
    if multiplayer_connected {
        PAUSE_MENU_MULTIPLAYER_UI_PATH
    } else {
        PAUSE_MENU_UI_PATH
    }
}

pub(crate) fn retain_without(v: &Vec<String>, key: &str) -> (r: Vec<String>)
    ensures
        names(r@) == without(names(v@), key@),
{
    let mut out: Vec<String> = Vec::new();
    let mut i: usize = 0;
    while i < v.len()
        invariant
            i <= v@.len(),
            names(out@) == without(names(v@.subrange(0, i as int)), key@),
        decreases v.len() - i,
    {
        assert(names(v@.subrange(0, i + 1)).drop_last() =~= names(v@.subrange(0, i as int)));
        assert(names(v@.subrange(0, i + 1)).last() == v@[i as int]@);
        if !text_equals(v[i].as_str(), key) {
            out.push(v[i].clone());
            assert(names(out@) =~= without(names(v@.subrange(0, i as int)), key@).push(v@[i as int]@));
        }
        i = i + 1;
    }
    assert(v@.subrange(0, i as int) =~= v@);
    out
}

pub(crate) fn contains_name(v: &Vec<String>, key: &str) -> (r: bool)
    ensures
        r == names(v@).contains(key@),
{
    let mut i: usize = 0;
    while i < v.len()
        invariant
            i <= v@.len(),
            forall|k: int| 0 <= k < i ==> names(v@)[k] != key@,
        decreases v.len() - i,
    {
        if text_equals(v[i].as_str(), key) {
            assert(names(v@)[i as int] == key@);
            return true;
        }
        i = i + 1;
    }
    false
}

/// The stack after the pause page `key` is made active: both pause pages
/// leave the stack and `key` goes on top (a stack that was empty becomes
/// `[key]`); the UI rebuilds when anything changed.
pub open spec fn activated(current: Option<Seq<Seq<char>>>, update: bool, key: Seq<char>) -> (Option<
    Seq<Seq<char>>,
>, bool) {
    match current {
        None => (Some(seq![key]), true),
        Some(c) => {
            let kept = without(without(c, PAUSE_MENU_UI_KEY@), PAUSE_MENU_MULTIPLAYER_UI_KEY@);
            let removed = kept.len() != c.len();
            if kept.contains(key) {
                (Some(kept), update || removed)
            } else {
                (Some(kept.push(key)), true)
            }
        },
    }
}

pub open spec fn stack_view(s: UiStack) -> Option<Seq<Seq<char>>> {
    match s.current {
        Some(c) => Some(names(c@)),
        None => None,
    }
}

proof fn lemma_without(s: Seq<Seq<char>>, key: Seq<char>, x: Seq<char>)
    ensures
        !without(s, key).contains(key),
        without(s, key).contains(x) ==> s.contains(x),
    decreases s.len(),
{
    if s.len() > 0 {
        let t = without(s.drop_last(), key);
        lemma_without(s.drop_last(), key, x);
        if without(s, key).contains(x) && s.last() != key && x != s.last() {
            let k = choose|k: int| 0 <= k < without(s, key).len() && without(s, key)[k] == x;
            assert(t[k] == x);
            let j = choose|j: int| 0 <= j < s.drop_last().len() && s.drop_last()[j] == x;
            assert(s[j] == x);
        }
        if without(s, key).contains(x) && s.last() == key {
            let j = choose|j: int| 0 <= j < s.drop_last().len() && s.drop_last()[j] == x;
            assert(s[j] == x);
        }
        if without(s, key).contains(x) && x == s.last() {
            assert(s[s.len() - 1] == x);
        }
        if s.last() != key {
            if t.push(s.last()).contains(key) {
                let k = choose|k: int| 0 <= k < t.push(s.last()).len() && t.push(s.last())[k] == key;
                assert(k < t.len());
                assert(t[k] == key);
            }
        }
    }
}

/// Showing the pause menu puts its page on the stack; hiding it takes both
/// pause pages off (a stack left empty becomes none).
pub proof fn lemma_pause_page_show_hide(
    current: Option<Seq<Seq<char>>>,
    update: bool,
    connected: bool,
)
    ensures
        activated(current, update, pause_key(connected)).0 matches Some(s) && s.contains(
            pause_key(connected),
        ),
        ({
            let r1 = removed(current, update, PAUSE_MENU_UI_KEY@);
            let r2 = removed(r1.0, r1.1, PAUSE_MENU_MULTIPLAYER_UI_KEY@);
            r2.0 matches Some(s) ==> !s.contains(PAUSE_MENU_UI_KEY@) && !s.contains(
                PAUSE_MENU_MULTIPLAYER_UI_KEY@,
            )
        }),
{
    let key = pause_key(connected);
    match current {
        None => {
            assert(seq![key][0] == key);
        },
        Some(c) => {
            let kept = without(without(c, PAUSE_MENU_UI_KEY@), PAUSE_MENU_MULTIPLAYER_UI_KEY@);
            if !kept.contains(key) {
                assert(kept.push(key)[kept.len() as int] == key);
            }
            let k1 = without(c, PAUSE_MENU_UI_KEY@);
            lemma_without(c, PAUSE_MENU_UI_KEY@, PAUSE_MENU_UI_KEY@);
            if k1.len() > 0 {
                lemma_without(k1, PAUSE_MENU_MULTIPLAYER_UI_KEY@, PAUSE_MENU_UI_KEY@);
            }
        },
    }
}

/// Makes the pause page `key` the active one (see `activated`); a page that
/// is not registered changes nothing.
pub fn activate_pause_menu_ui(stack: &mut UiStack, registered: bool, key: &str)
    ensures
        !registered ==> stack_view(*final(stack)) == stack_view(*old(stack)) && final(stack).ui_update
            == old(stack).ui_update,
        registered ==> (stack_view(*final(stack)), final(stack).ui_update) == activated(
            stack_view(*old(stack)),
            old(stack).ui_update,
            key@,
        ),
{
    if !registered {
        return;
    }
    match &stack.current {
        Some(current) => {
            let first = retain_without(current, PAUSE_MENU_UI_KEY);
            let mut kept = retain_without(&first, PAUSE_MENU_MULTIPLAYER_UI_KEY);
            let removed = kept.len() != current.len();
            let mut changed = removed;
            if !contains_name(&kept, key) {
                let ghost before = names(kept@);
                kept.push(to_owned_string(key));
                assert(names(kept@) =~= before.push(key@));
                changed = true;
            }
            stack.current = Some(kept);
            if changed {
                stack.ui_update = true;
            }
        },
        None => {
            let mut v: Vec<String> = Vec::new();
            v.push(to_owned_string(key));
            assert(names(v@) =~= seq![key@]);
            stack.current = Some(v);
            stack.ui_update = true;
        },
    }
}

/// The stack after page `key` leaves it: a stack left empty becomes none;
/// the UI rebuilds when the page was there.
pub open spec fn removed(current: Option<Seq<Seq<char>>>, update: bool, key: Seq<char>) -> (Option<
    Seq<Seq<char>>,
>, bool) {
    match current {
        None => (None, update),
        Some(c) => {
            let kept = without(c, key);
            let upd = update || kept.len() != c.len();
            if kept.len() == 0 {
                (None, upd)
            } else {
                (Some(kept), upd)
            }
        },
    }
}

/// Takes page `key` off the stack (see `removed`).
pub fn remove_pause_menu_ui(stack: &mut UiStack, key: &str)
    ensures
        (stack_view(*final(stack)), final(stack).ui_update) == removed(
            stack_view(*old(stack)),
            old(stack).ui_update,
            key@,
        ),
{
    match &stack.current {
        Some(current) => {
            let kept = retain_without(current, key);
            if kept.len() != current.len() {
                stack.ui_update = true;
            }
            if kept.len() == 0 {
                stack.current = None;
            } else {
                stack.current = Some(kept);
            }
        },
        None => {},
    }
}

/// Takes both pause pages off the stack.
pub fn hide_pause_menu_ui(stack: &mut UiStack)
    ensures
        (stack_view(*final(stack)), final(stack).ui_update) == ({
            let r1 = removed(stack_view(*old(stack)), old(stack).ui_update, PAUSE_MENU_UI_KEY@);
            removed(r1.0, r1.1, PAUSE_MENU_MULTIPLAYER_UI_KEY@)
        }),
{
    remove_pause_menu_ui(stack, PAUSE_MENU_UI_KEY);
    remove_pause_menu_ui(stack, PAUSE_MENU_MULTIPLAYER_UI_KEY);
}

/// Makes the pause page for the connection state active (the caller has
/// registered it).
pub fn show_pause_menu_ui(stack: &mut UiStack, multiplayer_connected: bool)
    ensures
        (stack_view(*final(stack)), final(stack).ui_update) == activated(
            stack_view(*old(stack)),
            old(stack).ui_update,
            pause_key(multiplayer_connected),
        ),
{
    let key = pause_menu_ui_key(multiplayer_connected);
    activate_pause_menu_ui(stack, true, key);
}

/// Whether the pause page for the connection state is on the stack.
pub fn pause_menu_ui_in_stack(stack: &UiStack, multiplayer_connected: bool) -> (r: bool)
    ensures
        r == (stack_view(*stack) matches Some(c) && c.contains(pause_key(multiplayer_connected))),
{
    let key = pause_menu_ui_key(multiplayer_connected);
    match &stack.current {
        Some(current) => contains_name(current, key),
        None => false,
    }
}

/// A free, visible cursor while the menu is open; a locked, hidden one otherwise.
pub fn set_pause_menu_cursor(menu_open: bool, cursor: &mut CursorOptions)
    ensures
        menu_open ==> final(cursor).grab_mode == CursorGrabMode::Free && final(cursor).visible,
        !menu_open ==> final(cursor).grab_mode == CursorGrabMode::Locked && !final(cursor).visible,
{
    if menu_open {
        cursor.grab_mode = CursorGrabMode::Free;
        cursor.visible = true;
    } else {
        cursor.grab_mode = CursorGrabMode::Locked;
        cursor.visible = false;
    }
}

/// The menu key (or Enter) toggles the pause menu; the close key closes it.
/// Returns whether either was pressed; then the menu flag, the cursor and
/// the page stack follow the new state.
pub fn toggle_pause_menu(
    toggle_requested: bool,
    close_key_pressed: bool,
    multiplayer_connected: bool,
    ui_interaction: &mut UiInteractionState,
    pause_menu: &mut PauseMenuState,
    stack: &mut UiStack,
    cursor: &mut CursorOptions,
) -> (r: bool)
    ensures
        ({
            let close_requested = old(pause_menu).open && close_key_pressed;
            let now_open = if close_requested {
                false
            } else {
                !old(pause_menu).open
            };
            &&& r == (toggle_requested || close_requested)
            &&& !r ==> final(pause_menu).open == old(pause_menu).open && *final(ui_interaction)
                == *old(ui_interaction) && *final(cursor) == *old(cursor) && stack_view(*final(stack))
                == stack_view(*old(stack)) && final(stack).ui_update == old(stack).ui_update
            &&& r ==> final(pause_menu).open == now_open
            &&& r ==> *final(ui_interaction) == (UiInteractionState {
                menu_open: now_open,
                ..*old(ui_interaction)
            })
            &&& r && now_open ==> final(cursor).grab_mode == CursorGrabMode::Free && final(cursor).visible
            &&& r && !now_open ==> final(cursor).grab_mode == CursorGrabMode::Locked && !final(cursor).visible
            &&& r && now_open ==> (stack_view(*final(stack)), final(stack).ui_update) == activated(
                stack_view(*old(stack)),
                old(stack).ui_update,
                pause_key(multiplayer_connected),
            )
            &&& r && !now_open ==> (stack_view(*final(stack)), final(stack).ui_update) == ({
                let r1 = removed(stack_view(*old(stack)), old(stack).ui_update, PAUSE_MENU_UI_KEY@);
                removed(r1.0, r1.1, PAUSE_MENU_MULTIPLAYER_UI_KEY@)
            })
        }),
{
    let close_requested = pause_menu.open && close_key_pressed;
    if !toggle_requested && !close_requested {
        return false;
    }
    if close_requested {
        pause_menu.open = false;
    } else {
        pause_menu.open = !pause_menu.open;
    }
    ui_interaction.menu_open = pause_menu.open;
    set_pause_menu_cursor(pause_menu.open, cursor);
    if pause_menu.open {
        show_pause_menu_ui(stack, multiplayer_connected);
    } else {
        hide_pause_menu_ui(stack);
    }
    true
}

/// While the pause menu is open: the menu flag stays set, its page is put
/// back on the stack if it went missing, and the cursor stays free.
pub fn enforce_pause_menu_visibility(
    multiplayer_connected: bool,
    pause_menu: &PauseMenuState,
    ui_interaction: &mut UiInteractionState,
    stack: &mut UiStack,
    cursor: &mut CursorOptions,
)
    ensures
        !pause_menu.open ==> *final(ui_interaction) == *old(ui_interaction) && *final(cursor) == *old(cursor) && stack_view(*final(stack)) == stack_view(*old(stack)) && final(stack).ui_update == old(stack).ui_update,
        pause_menu.open ==> *final(ui_interaction) == (UiInteractionState {
            menu_open: true,
            ..*old(ui_interaction)
        }) && final(cursor).grab_mode == CursorGrabMode::Free && final(cursor).visible,
        pause_menu.open && (stack_view(*old(stack)) matches Some(c) && c.contains(
            pause_key(multiplayer_connected),
        )) ==> stack_view(*final(stack)) == stack_view(*old(stack)) && final(stack).ui_update == old(stack).ui_update,
        pause_menu.open && !(stack_view(*old(stack)) matches Some(c) && c.contains(
            pause_key(multiplayer_connected),
        )) ==> (stack_view(*final(stack)), final(stack).ui_update) == activated(
            stack_view(*old(stack)),
            old(stack).ui_update,
            pause_key(multiplayer_connected),
        ),
{
    if !pause_menu.open {
        return;
    }
    ui_interaction.menu_open = true;
    if !pause_menu_ui_in_stack(stack, multiplayer_connected) {
        show_pause_menu_ui(stack, multiplayer_connected);
    }
    set_pause_menu_cursor(true, cursor);
}

pub open spec fn pause_action_of(id: Seq<char>) -> Option<PauseMenuAction> {
    if id == PAUSE_PLAY_ID@ {
        Some(PauseMenuAction::BackToGame)
    } else if id == PAUSE_CONNECT_ID@ {
        Some(PauseMenuAction::OpenToLan)
    } else if id == PAUSE_SETTINGS_ID@ {
        Some(PauseMenuAction::Settings)
    } else if id == PAUSE_CLOSE_ID@ {
        Some(PauseMenuAction::ExitToMenu)
    } else {
        None
    }
}

/// Index of the first widget at or after `i` that is checked and names a
/// pause-menu action.
pub open spec fn first_pause_action_from(w: Seq<WidgetState>, i: int) -> Option<int>
    decreases w.len() - i,
{
    if i < 0 || i >= w.len() {
        None
    } else if w[i].checked && pause_action_of(w[i].css_id@) is Some {
        Some(i)
    } else {
        first_pause_action_from(w, i + 1)
    }
}

pub open spec fn clicked_pause_action(w: Seq<WidgetState>) -> Option<PauseMenuAction> {
    match first_pause_action_from(w, 0) {
        Some(k) => pause_action_of(w[k].css_id@),
        None => None,
    }
}

/// The widgets after a click was consumed: every checked widget up to and
/// including the one that named the action (all of them if none did) is
/// unchecked.
pub open spec fn consumed_pause_menu(w: Seq<WidgetState>) -> Seq<WidgetState> {
    match first_pause_action_from(w, 0) {
        Some(k) => unchecked_upto(w, k + 1),
        None => unchecked_upto(w, w.len() as int),
    }
}

fn pause_action_for(id: &str) -> (r: Option<PauseMenuAction>)
    ensures
        r == pause_action_of(id@),
{
    if text_equals(id, PAUSE_PLAY_ID) {
        Some(PauseMenuAction::BackToGame)
    } else if text_equals(id, PAUSE_CONNECT_ID) {
        Some(PauseMenuAction::OpenToLan)
    } else if text_equals(id, PAUSE_SETTINGS_ID) {
        Some(PauseMenuAction::Settings)
    } else if text_equals(id, PAUSE_CLOSE_ID) {
        Some(PauseMenuAction::ExitToMenu)
    } else {
        None
    }
}

/// Whether the button with this CSS id is one of the pause menu's four
/// buttons, whose labels take the pause menu's text style.
pub fn is_pause_menu_button(css_id: &str) -> (r: bool)
    ensures
        r == pause_action_of(css_id@) is Some,
{
    pause_action_for(css_id).is_some()
}

/// The first checked pause-menu button that names an action; every checked
/// button visited on the way, and that one, is unchecked.
pub fn consume_pause_menu_action(widgets: &mut Vec<WidgetState>) -> (r: Option<PauseMenuAction>)
    ensures
        r == clicked_pause_action(old(widgets)@),
        final(widgets)@ == consumed_pause_menu(old(widgets)@),
{
    let ghost w0 = widgets@;
    let mut i: usize = 0;
    while i < widgets.len()
        invariant
            w0 == old(widgets)@,
            widgets@.len() == w0.len(),
            i <= w0.len(),
            widgets@ =~= unchecked_upto(w0, i as int),
            first_pause_action_from(w0, 0) == first_pause_action_from(w0, i as int),
        decreases widgets.len() - i,
    {
        if widgets[i].checked {
            let w = WidgetState {
                css_id: widgets[i].css_id.clone(),
                hovered: widgets[i].hovered,
                checked: false,
                focused: widgets[i].focused,
            };
            let action = pause_action_for(w.css_id.as_str());
            widgets.set(i, w);
            assert(widgets@ =~= unchecked_upto(w0, i + 1));
            if action.is_some() {
                return action;
            }
        } else {
            assert(unchecked_upto(w0, i as int) =~= unchecked_upto(w0, i + 1));
        }
        i = i + 1;
    }
    None
}

/// What a pause-menu button leaves to the caller.
#[derive(Clone, Copy, PartialEq, Eq, Debug, Structural)]
pub struct PauseMenuRequests {
    pub open_to_lan: bool,
    pub disconnect: bool,
    pub stop_lan_host: bool,
    /// Show the world-unload screen and go back to the main menu.
    pub exit_to_menu: bool,
}

/// The pause menu's buttons, while it is open: back to the game and open to
/// LAN close the menu (the latter asking to open the world to the LAN);
/// settings keeps the menu's page shown; exit closes the menu, asks to
/// disconnect (when connected) and to stop hosting, and leaves for the main
/// menu with a free cursor.
pub fn handle_pause_menu_buttons(
    multiplayer_connected: bool,
    ui_interaction: &mut UiInteractionState,
    pause_menu: &mut PauseMenuState,
    widgets: &mut Vec<WidgetState>,
    stack: &mut UiStack,
    cursor: &mut CursorOptions,
) -> (r: Option<PauseMenuAction>)
    ensures
        !old(pause_menu).open ==> r is None && final(widgets)@ == old(widgets)@ && final(pause_menu).open
            == old(pause_menu).open && *final(ui_interaction) == *old(ui_interaction) && *final(cursor)
            == *old(cursor) && stack_view(*final(stack)) == stack_view(*old(stack)),
        old(pause_menu).open ==> r == clicked_pause_action(old(widgets)@) && final(widgets)@
            == consumed_pause_menu(old(widgets)@),
        r is None ==> final(pause_menu).open == old(pause_menu).open && *final(ui_interaction) == *old(ui_interaction) && *final(cursor) == *old(cursor) && stack_view(*final(stack)) == stack_view(*old(stack))
            && final(stack).ui_update == old(stack).ui_update,
        r matches Some(a) && a != PauseMenuAction::Settings ==> !final(pause_menu).open
            && *final(ui_interaction) == (UiInteractionState {
            menu_open: false,
            ..*old(ui_interaction)
        }) && (stack_view(*final(stack)), final(stack).ui_update) == ({
            let r1 = removed(stack_view(*old(stack)), old(stack).ui_update, PAUSE_MENU_UI_KEY@);
            removed(r1.0, r1.1, PAUSE_MENU_MULTIPLAYER_UI_KEY@)
        }),
        r == Some(PauseMenuAction::Settings) ==> final(pause_menu).open == old(pause_menu).open
            && *final(ui_interaction) == *old(ui_interaction) && *final(cursor) == *old(cursor) && (
        stack_view(*final(stack)), final(stack).ui_update) == activated(
            stack_view(*old(stack)),
            old(stack).ui_update,
            pause_key(multiplayer_connected),
        ),
        r == Some(PauseMenuAction::BackToGame) || r == Some(PauseMenuAction::OpenToLan)
            ==> final(cursor).grab_mode == CursorGrabMode::Locked && !final(cursor).visible,
        r == Some(PauseMenuAction::ExitToMenu) ==> final(cursor).grab_mode == CursorGrabMode::Free
            && final(cursor).visible,
{
    if !pause_menu.open {
        return None;
    }
    let action = consume_pause_menu_action(widgets);
    match action {
        None => {},
        Some(PauseMenuAction::Settings) => {
            show_pause_menu_ui(stack, multiplayer_connected);
        },
        Some(PauseMenuAction::ExitToMenu) => {
            pause_menu.open = false;
            ui_interaction.menu_open = false;
            hide_pause_menu_ui(stack);
            set_pause_menu_cursor(true, cursor);
        },
        Some(_) => {
            pause_menu.open = false;
            ui_interaction.menu_open = false;
            hide_pause_menu_ui(stack);
            set_pause_menu_cursor(false, cursor);
        },
    }
    action
}

/// What the caller sends for a pause-menu action.
pub fn pause_menu_requests(action: PauseMenuAction, multiplayer_connected: bool) -> (r: PauseMenuRequests)
    ensures
        r.open_to_lan == (action == PauseMenuAction::OpenToLan),
        r.disconnect == (action == PauseMenuAction::ExitToMenu && multiplayer_connected),
        r.stop_lan_host == (action == PauseMenuAction::ExitToMenu),
        r.exit_to_menu == (action == PauseMenuAction::ExitToMenu),
{
    match action {
        PauseMenuAction::OpenToLan => PauseMenuRequests {
            open_to_lan: true,
            disconnect: false,
            stop_lan_host: false,
            exit_to_menu: false,
        },
        PauseMenuAction::ExitToMenu => PauseMenuRequests {
            open_to_lan: false,
            disconnect: multiplayer_connected,
            stop_lan_host: true,
            exit_to_menu: true,
        },
        _ => PauseMenuRequests {
            open_to_lan: false,
            disconnect: false,
            stop_lan_host: false,
            exit_to_menu: false,
        },
    }
}

/// A UI node of the pause menu's page with its visibility.
pub struct WidgetVisibility {
    pub css_id: String,
    pub visibility: Visibility,
}

/// Whether some widget of the pause menu (id starting with `pause-menu`) is
/// not hidden.
pub fn pause_menu_widgets_visible(widgets: &Vec<WidgetVisibility>) -> (r: bool)
    ensures
        r == exists|k: int|
            0 <= k < widgets@.len() && is_prefix(PAUSE_MENU_UI_KEY@, #[trigger] widgets@[k].css_id@)
                && widgets@[k].visibility != Visibility::Hidden,
{
    let mut i: usize = 0;
    while i < widgets.len()
        invariant
            i <= widgets@.len(),
            forall|k: int|
                0 <= k < i ==> !(is_prefix(PAUSE_MENU_UI_KEY@, #[trigger] widgets@[k].css_id@)
                    && widgets@[k].visibility != Visibility::Hidden),
        decreases widgets.len() - i,
    {
        let hidden = match widgets[i].visibility {
            Visibility::Hidden => true,
            _ => false,
        };
        if starts_with(widgets[i].css_id.as_str(), PAUSE_MENU_UI_KEY) && !hidden {
            return true;
        }
        i = i + 1;
    }
    false
}

/// What happens to game time this frame.
#[derive(Clone, Copy, PartialEq, Eq, Debug, Structural)]
pub enum PauseTime {
    Pause,
    Unpause,
    Keep,
}

/// Game time stops while the pause menu is open and shown in a local game,
/// and runs otherwise.
pub fn sync_pause_time(
    pause_open: bool,
    multiplayer_connected: bool,
    widgets_visible: bool,
    is_paused: bool,
) -> (r: PauseTime)
    ensures
        ({
            let should_pause = pause_open && !multiplayer_connected && widgets_visible;
            r == if should_pause && !is_paused {
                PauseTime::Pause
            } else if !should_pause && is_paused {
                PauseTime::Unpause
            } else {
                PauseTime::Keep
            }
        }),
{
    let should_pause = pause_open && !multiplayer_connected && widgets_visible;
    if should_pause && !is_paused {
        PauseTime::Pause
    } else if !should_pause && is_paused {
        PauseTime::Unpause
    } else {
        PauseTime::Keep
    }
}

/// Leaving the game: an open pause menu closes, its pages leave the stack
/// and the cursor is locked again.
pub fn close_pause_menu(
    ui_interaction: &mut UiInteractionState,
    pause_menu: &mut PauseMenuState,
    stack: &mut UiStack,
    cursor: &mut CursorOptions,
) -> (r: bool)
    ensures
        r == old(pause_menu).open,
        !r ==> *final(ui_interaction) == *old(ui_interaction) && *final(cursor) == *old(cursor)
            && stack_view(*final(stack)) == stack_view(*old(stack)) && final(stack).ui_update == old(stack).ui_update && !final(pause_menu).open,
        r ==> !final(pause_menu).open && *final(ui_interaction) == (UiInteractionState {
            menu_open: false,
            ..*old(ui_interaction)
        }) && final(cursor).grab_mode == CursorGrabMode::Locked && !final(cursor).visible && (
        stack_view(*final(stack)), final(stack).ui_update) == ({
            let r1 = removed(stack_view(*old(stack)), old(stack).ui_update, PAUSE_MENU_UI_KEY@);
            removed(r1.0, r1.1, PAUSE_MENU_MULTIPLAYER_UI_KEY@)
        }),
{
    if !pause_menu.open {
        return false;
    }
    pause_menu.open = false;
    ui_interaction.menu_open = false;
    hide_pause_menu_ui(stack);
    set_pause_menu_cursor(false, cursor);
    true
}

} // verus!
