//! The multiplayer screen: its buttons, the add/edit server form, the saved
//! and discovered servers it lists, and what a click does to them.
use vstd::prelude::*;
use crate::css_ids::{WidgetState, prefixed_number, parse_card_index, MULTIPLAYER_CARD_PREFIX};
use crate::text::{text_equals, trim, trim_seq, to_owned_string, push_char};
use crate::servers::{
    server_key_of, display_address_of, server_address_of, opt_host_port, session_address_of,
    parse_server_address, display_server_address, server_key, session_url_to_key, parse_session_url,
};
use vstd::utf8::encode_utf8;

verus! {

pub const MULTIPLAYER_JOIN_ID: &'static str = "multi-player-join-server";
pub const MULTIPLAYER_REFRESH_ID: &'static str = "multi-player-refresh-server-list";
pub const MULTIPLAYER_ADD_ID: &'static str = "multi-player-add-server";
pub const MULTIPLAYER_EDIT_ID: &'static str = "multi-player-edit-server";
pub const MULTIPLAYER_DELETE_ID: &'static str = "multi-player-delete-server";
pub const MULTIPLAYER_BACK_ID: &'static str = "multi-player-back";
pub const MULTIPLAYER_FORM_NAME_INPUT_ID: &'static str = "multi-player-form-name-input";
pub const MULTIPLAYER_FORM_ADDRESS_INPUT_ID: &'static str = "multi-player-form-address-input";
pub const MULTIPLAYER_FORM_ADD_ID: &'static str = "multi-player-form-add";
pub const MULTIPLAYER_FORM_EDIT_ID: &'static str = "multi-player-form-edit";
pub const MULTIPLAYER_FORM_ABORT_ID: &'static str = "multi-player-form-abort";
pub const MULTIPLAYER_DELETE_CONFIRM_ID: &'static str = "multi-player-delete-confirm";
pub const MULTIPLAYER_DELETE_ABORT_ID: &'static str = "multi-player-delete-abort";

/// What a click on the multiplayer screen asks for.
#[derive(Clone, Copy, PartialEq, Eq, Debug, Structural)]
pub enum MultiplayerAction {
    SelectServer(usize),
    JoinServer,
    RefreshServers,
    OpenAddServer,
    OpenEditServer,
    OpenDeleteServer,
    ConfirmDelete,
    AbortDelete,
    SubmitAdd,
    SubmitEdit,
    AbortForm,
}

/// The action a button id stands for; a server card stands for selecting it.
pub open spec fn multiplayer_action_of(id: Seq<char>) -> Option<MultiplayerAction> {
    if id == MULTIPLAYER_JOIN_ID@ {
        Some(MultiplayerAction::JoinServer)
    } else if id == MULTIPLAYER_REFRESH_ID@ {
        Some(MultiplayerAction::RefreshServers)
    } else if id == MULTIPLAYER_ADD_ID@ {
        Some(MultiplayerAction::OpenAddServer)
    } else if id == MULTIPLAYER_EDIT_ID@ {
        Some(MultiplayerAction::OpenEditServer)
    } else if id == MULTIPLAYER_DELETE_ID@ {
        Some(MultiplayerAction::OpenDeleteServer)
    } else if id == MULTIPLAYER_DELETE_CONFIRM_ID@ {
        Some(MultiplayerAction::ConfirmDelete)
    } else if id == MULTIPLAYER_DELETE_ABORT_ID@ {
        Some(MultiplayerAction::AbortDelete)
    } else if id == MULTIPLAYER_FORM_ADD_ID@ {
        Some(MultiplayerAction::SubmitAdd)
    } else if id == MULTIPLAYER_FORM_EDIT_ID@ {
        Some(MultiplayerAction::SubmitEdit)
    } else if id == MULTIPLAYER_FORM_ABORT_ID@ {
        Some(MultiplayerAction::AbortForm)
    } else {
        match prefixed_number(id, MULTIPLAYER_CARD_PREFIX@) {
            Some(n) => Some(MultiplayerAction::SelectServer(n as usize)),
            None => None,
        }
    }
}

/// The action of a multiplayer button id.
pub fn parse_multiplayer_action(id: &str) -> (r: Option<MultiplayerAction>)
    ensures
        r == multiplayer_action_of(id@),
{
    if text_equals(id, MULTIPLAYER_JOIN_ID) {
        Some(MultiplayerAction::JoinServer)
    } else if text_equals(id, MULTIPLAYER_REFRESH_ID) {
        Some(MultiplayerAction::RefreshServers)
    } else if text_equals(id, MULTIPLAYER_ADD_ID) {
        Some(MultiplayerAction::OpenAddServer)
    } else if text_equals(id, MULTIPLAYER_EDIT_ID) {
        Some(MultiplayerAction::OpenEditServer)
    } else if text_equals(id, MULTIPLAYER_DELETE_ID) {
        Some(MultiplayerAction::OpenDeleteServer)
    } else if text_equals(id, MULTIPLAYER_DELETE_CONFIRM_ID) {
        Some(MultiplayerAction::ConfirmDelete)
    } else if text_equals(id, MULTIPLAYER_DELETE_ABORT_ID) {
        Some(MultiplayerAction::AbortDelete)
    } else if text_equals(id, MULTIPLAYER_FORM_ADD_ID) {
        Some(MultiplayerAction::SubmitAdd)
    } else if text_equals(id, MULTIPLAYER_FORM_EDIT_ID) {
        Some(MultiplayerAction::SubmitEdit)
    } else if text_equals(id, MULTIPLAYER_FORM_ABORT_ID) {
        Some(MultiplayerAction::AbortForm)
    } else {
        match parse_card_index(id, MULTIPLAYER_CARD_PREFIX) {
            Some(n) => Some(MultiplayerAction::SelectServer(n)),
            None => None,
        }
    }
}

/// One button's contribution to a frame's clicks: a server card that is
/// checked or focused selects it and is reset; another checked button is
/// unchecked and yields its action, if it has one.
pub open spec fn button_step(w: WidgetState) -> (WidgetState, Option<MultiplayerAction>) {
    match prefixed_number(w.css_id@, MULTIPLAYER_CARD_PREFIX@) {
        Some(n) => if w.checked || w.focused {
            (
                WidgetState { checked: false, focused: false, ..w },
                Some(MultiplayerAction::SelectServer(n as usize)),
            )
        } else {
            (w, None)
        },
        None => if !w.checked {
            (w, None)
        } else {
            (WidgetState { checked: false, ..w }, multiplayer_action_of(w.css_id@))
        },
    }
}

/// The actions of the buttons, in order.
pub open spec fn button_actions(w: Seq<WidgetState>) -> Seq<MultiplayerAction>
    decreases w.len(),
{
    if w.len() == 0 {
        Seq::empty()
    } else {
        let prev = button_actions(w.drop_last());
        match button_step(w.last()).1 {
            Some(a) => prev.push(a),
            None => prev,
        }
    }
}

/// The clicks of this frame on the multiplayer screen, in button order; the
/// buttons that produced them are reset.
pub fn collect_multiplayer_actions(widgets: &mut Vec<WidgetState>) -> (r: Vec<MultiplayerAction>)
    ensures
        r@ == button_actions(old(widgets)@),
        final(widgets)@.len() == old(widgets)@.len(),
        forall|k: int|
            0 <= k < old(widgets)@.len() ==> #[trigger] final(widgets)@[k] == button_step(
                old(widgets)@[k],
            ).0,
{
    let ghost w0 = widgets@;
    let mut actions: Vec<MultiplayerAction> = Vec::new();
    let mut i: usize = 0;
    while i < widgets.len()
        invariant
            w0 == old(widgets)@,
            widgets@.len() == w0.len(),
            i <= w0.len(),
            actions@ == button_actions(w0.subrange(0, i as int)),
            forall|k: int| 0 <= k < i ==> #[trigger] widgets@[k] == button_step(w0[k]).0,
            forall|k: int| i <= k < w0.len() ==> #[trigger] widgets@[k] == w0[k],
        decreases widgets.len() - i,
    {
        proof {
            let p = w0.subrange(0, i + 1);
            assert(p.drop_last() =~= w0.subrange(0, i as int));
            assert(p.last() == w0[i as int]);
        }
        let w = WidgetState {
            css_id: widgets[i].css_id.clone(),
            hovered: widgets[i].hovered,
            checked: widgets[i].checked,
            focused: widgets[i].focused,
        };
        assert(w == w0[i as int]);
        match parse_card_index(w.css_id.as_str(), MULTIPLAYER_CARD_PREFIX) {
            Some(index) => {
                if w.checked || w.focused {
                    let reset = WidgetState {
                        css_id: w.css_id,
                        hovered: w.hovered,
                        checked: false,
                        focused: false,
                    };
                    widgets.set(i, reset);
                    actions.push(MultiplayerAction::SelectServer(index));
                }
            },
            None => {
                if w.checked {
                    let action = parse_multiplayer_action(w.css_id.as_str());
                    let reset = WidgetState {
                        css_id: w.css_id,
                        hovered: w.hovered,
                        checked: false,
                        focused: w.focused,
                    };
                    widgets.set(i, reset);
                    match action {
                        Some(a) => {
                            actions.push(a);
                        },
                        None => {},
                    }
                }
            },
        }
        i = i + 1;
    }
    assert(w0.subrange(0, w0.len() as int) =~= w0);
    actions
}

// ---------------------------------------------------------------------------
// The add/edit server form
// ---------------------------------------------------------------------------

/// One text input of a form.
pub struct FormInputField {
    pub css_id: String,
    pub text: String,
    /// Cursor position in bytes.
    pub cursor_position: usize,
    /// The value the input reports.
    pub value: String,
}

/// The text of the last field with id `id`, or the empty text.
pub open spec fn field_text(f: Seq<FormInputField>, id: Seq<char>) -> Seq<char>
    decreases f.len(),
{
    if f.len() == 0 {
        Seq::empty()
    } else if f.last().css_id@ == id {
        f.last().text@
    } else {
        field_text(f.drop_last(), id)
    }
}

/// A field after its text was set to `t`: the cursor at the end, the value equal.
pub open spec fn field_set(old_f: FormInputField, new_f: FormInputField, t: Seq<char>) -> bool {
    &&& new_f.css_id@ == old_f.css_id@
    &&& new_f.text@ == t
    &&& new_f.value@ == t
    &&& new_f.cursor_position == encode_utf8(t).len() as usize
}

pub(crate) fn last_field_text(form: &Vec<FormInputField>, id: &str) -> (r: String)
    ensures
        r@ == field_text(form@, id@),
{
    let mut out = String::new();
    let mut i: usize = 0;
    while i < form.len()
        invariant
            i <= form@.len(),
            out@ == field_text(form@.subrange(0, i as int), id@),
        decreases form.len() - i,
    {
        proof {
            let p = form@.subrange(0, i + 1);
            assert(p.drop_last() =~= form@.subrange(0, i as int));
            assert(p.last() == form@[i as int]);
        }
        if text_equals(form[i].css_id.as_str(), id) {
            out = form[i].text.clone();
        }
        i = i + 1;
    }
    assert(form@.subrange(0, form@.len() as int) =~= form@);
    out
}

fn set_fields(form: &mut Vec<FormInputField>, id: &str, text: &str)
    ensures
        final(form)@.len() == old(form)@.len(),
        forall|k: int|
            0 <= k < old(form)@.len() ==> if old(form)@[k].css_id@ == id@ {
                field_set(#[trigger] old(form)@[k], final(form)@[k], text@)
            } else {
                final(form)@[k] == old(form)@[k]
            },
{
    let ghost f0 = form@;
    let mut i: usize = 0;
    while i < form.len()
        invariant
            f0 == old(form)@,
            form@.len() == f0.len(),
            i <= f0.len(),
            forall|k: int|
                0 <= k < i ==> if f0[k].css_id@ == id@ {
                    field_set(#[trigger] f0[k], form@[k], text@)
                } else {
                    form@[k] == f0[k]
                },
            forall|k: int| i <= k < f0.len() ==> #[trigger] form@[k] == f0[k],
        decreases form.len() - i,
    {
        if text_equals(form[i].css_id.as_str(), id) {
            let t = to_owned_string(text);
            let v = to_owned_string(text);
            let cursor = t.as_str().len();
            let field = FormInputField {
                css_id: form[i].css_id.clone(),
                text: t,
                cursor_position: cursor,
                value: v,
            };
            form.set(i, field);
        }
        i = i + 1;
    }
}

/// The name and address typed into the server form: the trimmed name must
/// not be empty and the address must parse; then the address field shows the
/// address in its normal form. Fields are read from the last input of each id.
pub open spec fn server_form_of(form: Seq<FormInputField>) -> Option<(Seq<char>, Seq<char>, u16)> {
    let name = trim_seq(field_text(form, MULTIPLAYER_FORM_NAME_INPUT_ID@));
    if name.len() == 0 {
        None
    } else {
        match server_address_of(field_text(form, MULTIPLAYER_FORM_ADDRESS_INPUT_ID@)) {
            None => None,
            Some((host, port)) => Some((name, host, port)),
        }
    }
}

/// Reads the server form: the server's name, host and port, or `None` where
/// the name is blank or the address invalid. On success the address field is
/// rewritten as `http://host:port`.
pub fn read_server_form_inputs(form_inputs: &mut Vec<FormInputField>) -> (r: Option<(String, String, u16)>)
    ensures
        match server_form_of(old(form_inputs)@) {
            None => r is None && final(form_inputs)@ == old(form_inputs)@,
            Some((name, host, port)) => r matches Some((n, h, p)) && n@ == name && h@ == host && p
                == port && final(form_inputs)@.len() == old(form_inputs)@.len() && forall|k: int|
                0 <= k < old(form_inputs)@.len() ==> if old(form_inputs)@[k].css_id@
                    == MULTIPLAYER_FORM_ADDRESS_INPUT_ID@ {
                    field_set(
                        #[trigger] old(form_inputs)@[k],
                        final(form_inputs)@[k],
                        display_address_of(host, port),
                    )
                } else {
                    final(form_inputs)@[k] == old(form_inputs)@[k]
                },
        },
{
    let name_text = last_field_text(form_inputs, MULTIPLAYER_FORM_NAME_INPUT_ID);
    let address_text = last_field_text(form_inputs, MULTIPLAYER_FORM_ADDRESS_INPUT_ID);
    let server_name = to_owned_string(trim(name_text.as_str()));
    if server_name.as_str().unicode_len() == 0 {
        return None;
    }
    let (host, port) = match parse_server_address(address_text.as_str()) {
        Some(x) => x,
        None => {
            return None;
        },
    };
    let normalized = display_server_address(host.as_str(), port);
    set_fields(form_inputs, MULTIPLAYER_FORM_ADDRESS_INPUT_ID, normalized.as_str());
    Some((server_name, host, port))
}

/// Fills the server form with a server's name and address.
pub fn populate_server_form_inputs(
    form_inputs: &mut Vec<FormInputField>,
    server_name: &str,
    host: &str,
    port: u16,
)
    ensures
        final(form_inputs)@.len() == old(form_inputs)@.len(),
        forall|k: int|
            0 <= k < old(form_inputs)@.len() ==> if old(form_inputs)@[k].css_id@
                == MULTIPLAYER_FORM_NAME_INPUT_ID@ {
                field_set(#[trigger] old(form_inputs)@[k], final(form_inputs)@[k], server_name@)
            } else if old(form_inputs)@[k].css_id@ == MULTIPLAYER_FORM_ADDRESS_INPUT_ID@ {
                field_set(old(form_inputs)@[k], final(form_inputs)@[k], display_address_of(host@, port))
            } else {
                final(form_inputs)@[k] == old(form_inputs)@[k]
            },
{
    proof {
        reveal_strlit("multi-player-form-name-input");
        reveal_strlit("multi-player-form-address-input");
        assert(MULTIPLAYER_FORM_NAME_INPUT_ID@ != MULTIPLAYER_FORM_ADDRESS_INPUT_ID@) by {
            assert(MULTIPLAYER_FORM_NAME_INPUT_ID@[18] != MULTIPLAYER_FORM_ADDRESS_INPUT_ID@[18]);
        }
    }
    set_fields(form_inputs, MULTIPLAYER_FORM_NAME_INPUT_ID, server_name);
    let address = display_server_address(host, port);
    set_fields(form_inputs, MULTIPLAYER_FORM_ADDRESS_INPUT_ID, address.as_str());
}

/// Empties the name and address inputs of the server form.
pub fn clear_server_form_inputs(form_inputs: &mut Vec<FormInputField>)
    ensures
        final(form_inputs)@.len() == old(form_inputs)@.len(),
        forall|k: int|
            0 <= k < old(form_inputs)@.len() ==> if old(form_inputs)@[k].css_id@
                == MULTIPLAYER_FORM_NAME_INPUT_ID@ || old(form_inputs)@[k].css_id@
                == MULTIPLAYER_FORM_ADDRESS_INPUT_ID@ {
                field_set(#[trigger] old(form_inputs)@[k], final(form_inputs)@[k], Seq::empty())
            } else {
                final(form_inputs)@[k] == old(form_inputs)@[k]
            },
{
    let ghost f0 = form_inputs@;
    let mut i: usize = 0;
    while i < form_inputs.len()
        invariant
            f0 == old(form_inputs)@,
            form_inputs@.len() == f0.len(),
            i <= f0.len(),
            forall|k: int|
                0 <= k < i ==> if f0[k].css_id@ == MULTIPLAYER_FORM_NAME_INPUT_ID@ || f0[k].css_id@
                    == MULTIPLAYER_FORM_ADDRESS_INPUT_ID@ {
                    field_set(#[trigger] f0[k], form_inputs@[k], Seq::empty())
                } else {
                    form_inputs@[k] == f0[k]
                },
            forall|k: int| i <= k < f0.len() ==> #[trigger] form_inputs@[k] == f0[k],
        decreases form_inputs.len() - i,
    {
        if text_equals(form_inputs[i].css_id.as_str(), MULTIPLAYER_FORM_NAME_INPUT_ID) || text_equals(
            form_inputs[i].css_id.as_str(),
            MULTIPLAYER_FORM_ADDRESS_INPUT_ID,
        ) {
            let t = String::new();
            let field = FormInputField {
                css_id: form_inputs[i].css_id.clone(),
                text: t,
                cursor_position: 0,
                value: String::new(),
            };
            proof {
                assert(encode_utf8(Seq::<char>::empty()) =~= Seq::<u8>::empty()) by {
                    reveal_with_fuel(encode_utf8, 2);
                }
            }
            form_inputs.set(i, field);
        }
        i = i + 1;
    }
}

// ---------------------------------------------------------------------------
// Saved, discovered and displayed servers
// ---------------------------------------------------------------------------

/// A server the player saved.
pub struct SavedServerEntry {
    pub server_name: String,
    pub host: String,
    pub port: u16,
}

impl SavedServerEntry {
    /// The server's key, `<host>:<port>` normalized.
    pub fn key(&self) -> (r: String)
        ensures
            r@ == server_key_of(self.host@, self.port),
    {
        server_key(self.host.as_str(), self.port)
    }

    /// The URL of the server's session, `http://<host>:<port>`.
    pub fn session_url(&self) -> (r: String)
        ensures
            r@ == display_address_of(self.host@, self.port),
    {
        display_server_address(self.host.as_str(), self.port)
    }
}

/// The last answer of a server to a discovery query; `online` tells whether
/// that answer is recent.
pub struct ProbedServerStatus {
    pub session_url: String,
    pub observed_host: Option<String>,
    pub matched_saved_key: Option<String>,
    pub server_name: String,
    pub motd: String,
    pub ping_ms: Option<u32>,
    pub online: bool,
}

/// A server as the list shows it.
pub struct DisplayServerEntry {
    pub key: String,
    pub saved_index: Option<usize>,
    pub server_name: String,
    pub host: String,
    pub port: u16,
    pub motd: String,
    pub ping_ms: Option<u32>,
    pub online: bool,
    pub session_url: String,
}

/// A displayed server as plain values.
pub struct DisplayView {
    pub key: Seq<char>,
    pub saved_index: Option<usize>,
    pub server_name: Seq<char>,
    pub host: Seq<char>,
    pub port: u16,
    pub motd: Seq<char>,
    pub ping_ms: Option<u32>,
    pub online: bool,
    pub session_url: Seq<char>,
}

pub open spec fn opt_str(o: Option<String>) -> Option<Seq<char>> {
    match o {
        Some(s) => Some(s@),
        None => None,
    }
}

impl View for DisplayServerEntry {
    type V = DisplayView;

    open spec fn view(&self) -> DisplayView {
        DisplayView {
            key: self.key@,
            saved_index: self.saved_index,
            server_name: self.server_name@,
            host: self.host@,
            port: self.port,
            motd: self.motd@,
            ping_ms: self.ping_ms,
            online: self.online,
            session_url: self.session_url@,
        }
    }
}

pub open spec fn display_views(d: Seq<DisplayServerEntry>) -> Seq<DisplayView> {
    Seq::new(d.len(), |i: int| d[i]@)
}

pub open spec fn key_views(d: Seq<String>) -> Seq<Seq<char>> {
    Seq::new(d.len(), |i: int| d[i]@)
}

/// The list entry of saved server `i`, before any discovery answer.
pub open spec fn saved_entry_view(s: SavedServerEntry, i: int) -> DisplayView {
    DisplayView {
        key: server_key_of(s.host@, s.port),
        saved_index: Some(i as usize),
        server_name: s.server_name@,
        host: s.host@,
        port: s.port,
        motd: crate::servers::offline_message_of(s.port),
        ping_ms: None,
        online: false,
        session_url: display_address_of(s.host@, s.port),
    }
}

pub open spec fn saved_entries(saved: Seq<SavedServerEntry>) -> Seq<DisplayView> {
    Seq::new(saved.len(), |i: int| saved_entry_view(saved[i], i))
}

/// Index of the first entry at or after `i` with key `k`.
pub open spec fn first_with_key(d: Seq<DisplayView>, k: Seq<char>, i: int) -> Option<int>
    decreases d.len() - i,
{
    if i < 0 || i >= d.len() {
        None
    } else if d[i].key == k {
        Some(i)
    } else {
        first_with_key(d, k, i + 1)
    }
}

pub open spec fn has_key(d: Seq<DisplayView>, k: Seq<char>) -> bool {
    first_with_key(d, k, 0) is Some
}

pub open spec fn port_of(url: Seq<char>) -> Option<u16> {
    match session_address_of(url) {
        Some((_h, p)) => Some(p),
        None => None,
    }
}

/// The entry an answer updates: the saved server it was matched to; else the
/// server its URL names, or the one at the address it came from, if listed;
/// else the server its URL names, or the one at its address.
pub open spec fn target_key(st: ProbedServerStatus, d: Seq<DisplayView>) -> Option<Seq<char>> {
    let response = match session_address_of(st.session_url@) {
        Some((h, p)) => Some(server_key_of(h, p)),
        None => None,
    };
    let observed = match st.observed_host {
        Some(h) => match port_of(st.session_url@) {
            Some(p) => Some(server_key_of(h@, p)),
            None => None,
        },
        None => None,
    };
    match st.matched_saved_key {
        Some(k) => Some(k@),
        None => if response is Some && has_key(d, response->0) {
            response
        } else if observed is Some && has_key(d, observed->0) {
            observed
        } else if response is Some {
            response
        } else {
            observed
        },
    }
}

/// A listed entry updated from an answer.
pub open spec fn updated_entry(e: DisplayView, st: ProbedServerStatus) -> DisplayView {
    DisplayView {
        server_name: st.server_name@,
        motd: if st.online {
            st.motd@
        } else {
            crate::servers::offline_message_of(e.port)
        },
        ping_ms: if st.online {
            st.ping_ms
        } else {
            None
        },
        online: st.online,
        session_url: st.session_url@,
        host: match session_address_of(st.session_url@) {
            Some((h, _p)) => if e.saved_index is None {
                match st.observed_host {
                    Some(o) => o@,
                    None => h,
                }
            } else {
                e.host
            },
            None => e.host,
        },
        port: match session_address_of(st.session_url@) {
            Some((_h, p)) => p,
            None => e.port,
        },
        ..e
    }
}

/// A new entry for a server known only from an answer.
pub open spec fn discovered_entry(t: Seq<char>, st: ProbedServerStatus, h: Seq<char>, p: u16) -> DisplayView {
    DisplayView {
        key: t,
        saved_index: None,
        server_name: st.server_name@,
        host: match st.observed_host {
            Some(o) => o@,
            None => h,
        },
        port: p,
        motd: if st.online {
            st.motd@
        } else {
            crate::servers::offline_message_of(p)
        },
        ping_ms: if st.online {
            st.ping_ms
        } else {
            None
        },
        online: st.online,
        session_url: st.session_url@,
    }
}

/// The list after one answer: a dismissed server that is not listed stays
/// away; a listed one is updated; another is added if its URL names an address.
pub open spec fn apply_status(d: Seq<DisplayView>, st: ProbedServerStatus, dismissed: Seq<Seq<char>>) -> Seq<DisplayView> {
    match target_key(st, d) {
        None => d,
        Some(t) => if dismissed.contains(t) && !has_key(d, t) {
            d
        } else {
            match first_with_key(d, t, 0) {
                Some(i) => d.update(i, updated_entry(d[i], st)),
                None => match session_address_of(st.session_url@) {
                    Some((h, p)) => d.push(discovered_entry(t, st, h, p)),
                    None => d,
                },
            }
        },
    }
}

pub open spec fn apply_statuses(
    d: Seq<DisplayView>,
    probed: Seq<(String, ProbedServerStatus)>,
    dismissed: Seq<Seq<char>>,
    n: int,
) -> Seq<DisplayView>
    decreases n,
{
    if n <= 0 || n > probed.len() {
        d
    } else {
        apply_status(apply_statuses(d, probed, dismissed, n - 1), probed[n - 1].1, dismissed)
    }
}

/// The list order: saved servers first, then by key.
pub open spec fn display_lt(a: DisplayView, b: DisplayView) -> bool {
    ||| a.saved_index is Some && b.saved_index is None
    ||| (a.saved_index is Some) == (b.saved_index is Some) && crate::chat::seq_lt(a.key, b.key)
}

pub open spec fn insert_display(s: Seq<DisplayView>, x: DisplayView) -> Seq<DisplayView>
    decreases s.len(),
{
    if s.len() == 0 || !display_lt(x, s.last()) {
        s.push(x)
    } else {
        insert_display(s.drop_last(), x).push(s.last())
    }
}

/// The entries in list order; entries that compare equal keep their order.
pub open spec fn sort_display(s: Seq<DisplayView>) -> Seq<DisplayView>
    decreases s.len(),
{
    if s.len() == 0 {
        s
    } else {
        insert_display(sort_display(s.drop_last()), s.last())
    }
}

/// Whether entry `a` may stand before entry `b` in the server list: saved
/// servers before discovered ones, and within each of the two groups keys
/// in ascending order.
pub open spec fn listed_before_or_with(a: DisplayView, b: DisplayView) -> bool {
    ||| a.saved_index is Some && b.saved_index is None
    ||| (a.saved_index is Some) == (b.saved_index is Some) && !crate::chat::seq_lt(b.key, a.key)
}

/// The list's order: every entry may stand before each later one.
pub open spec fn in_list_order(d: Seq<DisplayView>) -> bool {
    forall|i: int, j: int| 0 <= i < j < d.len() ==> listed_before_or_with(#[trigger] d[i], #[trigger] d[j])
}

proof fn lemma_listed_order_facts(a: DisplayView, b: DisplayView, c: DisplayView)
    ensures
        !display_lt(b, a) <==> listed_before_or_with(a, b),
        display_lt(a, b) ==> listed_before_or_with(a, b),
        listed_before_or_with(a, b) && listed_before_or_with(b, c) ==> listed_before_or_with(a, c),
{
    crate::chat::lemma_seq_lt_irreflexive(a.key);
    if crate::chat::seq_lt(a.key, b.key) && crate::chat::seq_lt(b.key, a.key) {
        crate::chat::lemma_seq_lt_transitive(a.key, b.key, a.key);
    }
    if listed_before_or_with(a, b) && listed_before_or_with(b, c) && (a.saved_index is Some) == (
    c.saved_index is Some) && (a.saved_index is Some) == (b.saved_index is Some) {
        // Within one group: `b.key <= ... ` chains by totality and transitivity.
        crate::chat::lemma_seq_lt_total(a.key, b.key);
        crate::chat::lemma_seq_lt_total(b.key, c.key);
        crate::chat::lemma_seq_lt_irreflexive(c.key);
        if crate::chat::seq_lt(c.key, a.key) {
            if crate::chat::seq_lt(a.key, b.key) {
                crate::chat::lemma_seq_lt_transitive(c.key, a.key, b.key);
                if crate::chat::seq_lt(b.key, c.key) {
                    crate::chat::lemma_seq_lt_transitive(c.key, b.key, c.key);
                }
            }
        }
    }
}

proof fn lemma_insert_display_order(s: Seq<DisplayView>, x: DisplayView)
    requires
        in_list_order(s),
    ensures
        in_list_order(insert_display(s, x)),
        insert_display(s, x).len() == s.len() + 1,
        forall|i: int|
            0 <= i < insert_display(s, x).len() ==> #[trigger] insert_display(s, x)[i] == x || s.contains(
                insert_display(s, x)[i],
            ),
    decreases s.len(),
{
    let r = insert_display(s, x);
    if s.len() == 0 || !display_lt(x, s.last()) {
        assert forall|i: int, j: int| 0 <= i < j < r.len() implies listed_before_or_with(
            #[trigger] r[i],
            #[trigger] r[j],
        ) by {
            if j == s.len() {
                let last = s.last();
                lemma_listed_order_facts(last, x, x);
                if i < s.len() - 1 {
                    assert(listed_before_or_with(s[i], s[s.len() - 1]));
                    lemma_listed_order_facts(s[i], last, x);
                }
            } else {
                assert(r[i] == s[i] && r[j] == s[j]);
            }
        }
        assert forall|i: int| 0 <= i < r.len() implies #[trigger] r[i] == x || s.contains(r[i]) by {
            if i < s.len() {
                assert(r[i] == s[i]);
            }
        }
    } else {
        let rest = s.drop_last();
        let last = s.last();
        assert forall|i: int, j: int| 0 <= i < j < rest.len() implies listed_before_or_with(
            #[trigger] rest[i],
            #[trigger] rest[j],
        ) by {
            assert(rest[i] == s[i] && rest[j] == s[j]);
        }
        lemma_insert_display_order(rest, x);
        let m = insert_display(rest, x);
        assert(r == m.push(last));
        assert forall|i: int, j: int| 0 <= i < j < r.len() implies listed_before_or_with(
            #[trigger] r[i],
            #[trigger] r[j],
        ) by {
            if j == m.len() {
                assert(r[i] == m[i]);
                assert(r[j] == last);
                if m[i] == x {
                    lemma_listed_order_facts(x, last, last);
                } else {
                    assert(rest.contains(m[i]));
                    let k = choose|k: int| 0 <= k < rest.len() && rest[k] == m[i];
                    assert(s[k] == rest[k]);
                    assert(listed_before_or_with(s[k], s[s.len() - 1]));
                }
            } else {
                assert(r[i] == m[i] && r[j] == m[j]);
            }
        }
        assert forall|i: int| 0 <= i < r.len() implies #[trigger] r[i] == x || s.contains(r[i]) by {
            if i < m.len() {
                assert(r[i] == m[i]);
                if m[i] != x {
                    assert(rest.contains(m[i]));
                    let k = choose|k: int| 0 <= k < rest.len() && rest[k] == m[i];
                    assert(s[k] == rest[k]);
                }
            } else {
                assert(r[i] == s[s.len() - 1]);
            }
        }
    }
}

proof fn lemma_sort_display_order(s: Seq<DisplayView>)
    ensures
        in_list_order(sort_display(s)),
        sort_display(s).len() == s.len(),
    decreases s.len(),
{
    if s.len() > 0 {
        lemma_sort_display_order(s.drop_last());
        lemma_insert_display_order(sort_display(s.drop_last()), s.last());
    }
}

/// The rebuilt server list (what `rebuild_display_servers` shows) lists every
/// saved server before every discovered one, and within each of the two
/// groups the keys ascend.
pub proof fn lemma_rebuilt_list_order(st: MultiplayerUiState)
    ensures
        forall|i: int, j: int|
            0 <= i < j < rebuilt_display(st).len() ==> {
                let a = #[trigger] rebuilt_display(st)[i];
                let b = #[trigger] rebuilt_display(st)[j];
                &&& (b.saved_index is Some ==> a.saved_index is Some)
                &&& ((a.saved_index is Some) == (b.saved_index is Some) ==> !crate::chat::seq_lt(b.key, a.key))
            },
{
    let d = apply_statuses(
        saved_entries(st.saved_servers@),
        st.probed_servers@,
        key_views(st.dismissed_server_keys@),
        st.probed_servers@.len() as int,
    );
    lemma_sort_display_order(d);
}

/// The state of the multiplayer screen.
pub struct MultiplayerUiState {
    pub saved_servers: Vec<SavedServerEntry>,
    /// Discovery answers by server key, each key once.
    pub probed_servers: Vec<(String, ProbedServerStatus)>,
    /// Keys of discovered servers the player removed from the list, each once.
    pub dismissed_server_keys: Vec<String>,
    pub display_servers: Vec<DisplayServerEntry>,
    /// The keys of the cards on screen.
    pub rendered_keys: Vec<String>,
    pub selected_key: Option<String>,
    pub form_dialog: Option<ServerFormDialogState>,
    pub pending_delete_key: Option<String>,
    pub joining_key: Option<String>,
}

/// The keys under which the discovery answers are stored.
pub open spec fn probed_keys(p: Seq<(String, ProbedServerStatus)>) -> Seq<Seq<char>> {
    Seq::new(p.len(), |i: int| p[i].0@)
}

impl MultiplayerUiState {
    /// The answers and the dismissed keys are sets: no key occurs twice.
    pub open spec fn wf(&self) -> bool {
        &&& probed_keys(self.probed_servers@).no_duplicates()
        &&& key_views(self.dismissed_server_keys@).no_duplicates()
    }
}

/// Dismissing a key keeps the dismissed keys free of repeats.
proof fn lemma_keys_with_distinct(d: Seq<Seq<char>>, k: Seq<char>)
    requires
        d.no_duplicates(),
    ensures
        keys_with(d, k).no_duplicates(),
{
    if !d.contains(k) {
        let e = d.push(k);
        assert forall|i: int, j: int| 0 <= i < e.len() && 0 <= j < e.len() && i != j implies e[i] != e[j] by {
            if i == d.len() as int {
                assert(e[j] == d[j]);
            } else if j == d.len() as int {
                assert(e[i] == d[i]);
            }
        }
    }
}

/// Taking a key out keeps the dismissed keys free of repeats, and keeps
/// only keys that were there.
proof fn lemma_keys_without_distinct(d: Seq<Seq<char>>, k: Seq<char>)
    requires
        d.no_duplicates(),
    ensures
        keys_without(d, k).no_duplicates(),
        forall|x: Seq<char>| keys_without(d, k).contains(x) ==> d.contains(x),
    decreases d.len(),
{
    reveal(Seq::filter);
    if d.len() > 0 {
        let rest = d.drop_last();
        assert(rest.no_duplicates());
        lemma_keys_without_distinct(rest, k);
        let f = keys_without(rest, k);
        let last = d.last();
        assert forall|x: Seq<char>| rest.contains(x) implies d.contains(x) by {
            let j = choose|j: int| 0 <= j < rest.len() && rest[j] == x;
            assert(d[j] == x);
        }
        if last != k {
            if f.contains(last) {
                assert(rest.contains(last));
                let j = choose|j: int| 0 <= j < rest.len() && rest[j] == last;
                assert(rest[j] == d[j]);
                assert(d[j] == d[d.len() - 1]);
                assert(false);
            }
            assert(!f.contains(last));
            let e = f.push(last);
            assert(keys_without(d, k) == e);
            assert forall|i: int, j: int| 0 <= i < e.len() && 0 <= j < e.len() && i != j implies e[i]
                != e[j] by {
                if i == f.len() as int {
                    assert(e[j] == f[j]);
                    assert(f.contains(f[j]));
                } else if j == f.len() as int {
                    assert(e[i] == f[i]);
                    assert(f.contains(f[i]));
                } else {
                    assert(e[i] == f[i] && e[j] == f[j]);
                }
            }
            assert forall|x: Seq<char>| e.contains(x) implies d.contains(x) by {
                let j = choose|j: int| 0 <= j < e.len() && e[j] == x;
                if j == f.len() as int {
                    assert(d[d.len() - 1] == x);
                } else {
                    assert(f.contains(x));
                }
            }
        } else {
            assert(keys_without(d, k) == f);
        }
    }
}

/// Removing an answer keeps the stored keys free of repeats.
proof fn lemma_probed_without_distinct(p: Seq<(String, ProbedServerStatus)>, k: Seq<char>)
    requires
        probed_keys(p).no_duplicates(),
    ensures
        probed_keys(probed_without(p, k)).no_duplicates(),
{
    match first_probed_with_key(p, k, 0) {
        Some(i) => {
            lemma_first_probed_bounds(p, k, 0);
            let q = p.remove(i);
            let qk = probed_keys(q);
            assert forall|a: int, b: int| 0 <= a < qk.len() && 0 <= b < qk.len() && a != b implies qk[a]
                != qk[b] by {
                let a2 = if a < i { a } else { a + 1 };
                let b2 = if b < i { b } else { b + 1 };
                assert(qk[a] == probed_keys(p)[a2]);
                assert(qk[b] == probed_keys(p)[b2]);
            }
        },
        None => {},
    }
}

proof fn lemma_first_probed_bounds(p: Seq<(String, ProbedServerStatus)>, k: Seq<char>, i: int)
    requires
        0 <= i,
    ensures
        first_probed_with_key(p, k, i) matches Some(j) ==> i <= j < p.len() && p[j].0@ == k,
        first_probed_with_key(p, k, i) is None ==> forall|j: int| i <= j < p.len() ==> p[j].0@ != k,
    decreases p.len() - i,
{
    if i < p.len() {
        lemma_first_probed_bounds(p, k, i + 1);
    }
}

#[derive(Clone, Copy, PartialEq, Eq, Debug, Structural)]
pub enum ServerFormMode {
    Add,
    Edit,
}

#[derive(Clone, Copy, PartialEq, Eq, Debug, Structural)]
pub struct ServerFormDialogState {
    pub mode: ServerFormMode,
    pub editing_saved_index: Option<usize>,
}

/// The list the screen shows for the saved servers and the answers.
pub open spec fn rebuilt_display_of(
    saved: Seq<SavedServerEntry>,
    probed: Seq<(String, ProbedServerStatus)>,
    dismissed: Seq<Seq<char>>,
) -> Seq<DisplayView> {
    sort_display(apply_statuses(saved_entries(saved), probed, dismissed, probed.len() as int))
}

pub open spec fn rebuilt_display(st: MultiplayerUiState) -> Seq<DisplayView> {
    rebuilt_display_of(st.saved_servers@, st.probed_servers@, key_views(st.dismissed_server_keys@))
}

pub open spec fn list_keys(d: Seq<DisplayView>) -> Seq<Seq<char>> {
    Seq::new(d.len(), |i: int| d[i].key)
}

fn copy_display(e: &DisplayServerEntry) -> (r: DisplayServerEntry)
    ensures
        r@ == e@,
{
    DisplayServerEntry {
        key: e.key.clone(),
        saved_index: e.saved_index,
        server_name: e.server_name.clone(),
        host: e.host.clone(),
        port: e.port,
        motd: e.motd.clone(),
        ping_ms: e.ping_ms,
        online: e.online,
        session_url: e.session_url.clone(),
    }
}

fn find_key(d: &Vec<DisplayServerEntry>, k: &str) -> (r: Option<usize>)
    ensures
        match first_with_key(display_views(d@), k@, 0) {
            Some(i) => r == Some(i as usize),
            None => r is None,
        },
        r matches Some(i) ==> i < d@.len() && first_with_key(display_views(d@), k@, 0) == Some(i as int),
{
    let ghost v = display_views(d@);
    let mut i: usize = 0;
    while i < d.len()
        invariant
            v == display_views(d@),
            i <= d@.len(),
            first_with_key(v, k@, 0) == first_with_key(v, k@, i as int),
        decreases d.len() - i,
    {
        if text_equals(d[i].key.as_str(), k) {
            return Some(i);
        }
        i = i + 1;
    }
    None
}

fn contains_key(keys: &Vec<String>, k: &str) -> (r: bool)
    ensures
        r == key_views(keys@).contains(k@),
{
    let mut i: usize = 0;
    while i < keys.len()
        invariant
            i <= keys@.len(),
            forall|j: int| 0 <= j < i ==> keys@[j]@ != k@,
        decreases keys.len() - i,
    {
        if text_equals(keys[i].as_str(), k) {
            assert(key_views(keys@)[i as int] == k@);
            return true;
        }
        i = i + 1;
    }
    assert(!key_views(keys@).contains(k@)) by {
        if key_views(keys@).contains(k@) {
            let j = choose|j: int| 0 <= j < key_views(keys@).len() && key_views(keys@)[j] == k@;
            assert(keys@[j]@ == k@);
        }
    }
    false
}

fn server_key_for_port(host: &str, session_url: &str) -> (r: Option<String>)
    ensures
        match port_of(session_url@) {
            Some(p) => r matches Some(k) && k@ == server_key_of(host@, p),
            None => r is None,
        },
{
    match crate::servers::parse_session_url(session_url) {
        Some((_h, port)) => Some(server_key(host, port)),
        None => None,
    }
}

fn target_key_exec(st: &ProbedServerStatus, d: &Vec<DisplayServerEntry>) -> (r: Option<String>)
    ensures
        opt_str(r) == target_key(*st, display_views(d@)),
{
    let response = session_url_to_key(st.session_url.as_str());
    let observed = match &st.observed_host {
        Some(h) => server_key_for_port(h.as_str(), st.session_url.as_str()),
        None => None,
    };
    match &st.matched_saved_key {
        Some(k) => Some(k.clone()),
        None => {
            if let Some(rk) = &response {
                if find_key(d, rk.as_str()).is_some() {
                    return response;
                }
            }
            if let Some(ok) = &observed {
                if find_key(d, ok.as_str()).is_some() {
                    return observed;
                }
            }
            if response.is_some() {
                response
            } else {
                observed
            }
        },
    }
}

fn updated_entry_exec(e: &DisplayServerEntry, st: &ProbedServerStatus) -> (r: DisplayServerEntry)
    ensures
        r@ == updated_entry(e@, *st),
{
    let motd = if st.online {
        st.motd.clone()
    } else {
        crate::servers::offline_status_message(e.port)
    };
    let (host, port) = match crate::servers::parse_session_url(st.session_url.as_str()) {
        Some((h, p)) => {
            let host = if e.saved_index.is_none() {
                match &st.observed_host {
                    Some(o) => o.clone(),
                    None => h,
                }
            } else {
                e.host.clone()
            };
            (host, p)
        },
        None => (e.host.clone(), e.port),
    };
    DisplayServerEntry {
        key: e.key.clone(),
        saved_index: e.saved_index,
        server_name: st.server_name.clone(),
        host,
        port,
        motd,
        ping_ms: if st.online {
            st.ping_ms
        } else {
            None
        },
        online: st.online,
        session_url: st.session_url.clone(),
    }
}

fn apply_status_exec(d: &mut Vec<DisplayServerEntry>, st: &ProbedServerStatus, dismissed: &Vec<String>)
    ensures
        display_views(final(d)@) == apply_status(display_views(old(d)@), *st, key_views(dismissed@)),
{
    let ghost d0 = display_views(d@);
    let target = match target_key_exec(st, d) {
        Some(t) => t,
        None => {
            return;
        },
    };
    let existing = find_key(d, target.as_str());
    assert(target_key(*st, d0) == Some(target@));
    if contains_key(dismissed, target.as_str()) && existing.is_none() {
        return;
    }
    match existing {
        Some(i) => {
            let updated = updated_entry_exec(&d[i], st);
            d.set(i, updated);
            assert(display_views(d@) =~= d0.update(i as int, updated_entry(d0[i as int], *st)));
            assert(first_with_key(d0, target@, 0) == Some(i as int));
            assert(display_views(d@) == apply_status(d0, *st, key_views(dismissed@)));
        },
        None => {
            match crate::servers::parse_session_url(st.session_url.as_str()) {
                Some((h, p)) => {
                    let host = match &st.observed_host {
                        Some(o) => o.clone(),
                        None => h,
                    };
                    let entry = DisplayServerEntry {
                        key: target,
                        saved_index: None,
                        server_name: st.server_name.clone(),
                        host,
                        port: p,
                        motd: if st.online {
                            st.motd.clone()
                        } else {
                            crate::servers::offline_status_message(p)
                        },
                        ping_ms: if st.online {
                            st.ping_ms
                        } else {
                            None
                        },
                        online: st.online,
                        session_url: st.session_url.clone(),
                    };
                    proof {
                        let (hs, ps) = session_address_of(st.session_url@)->0;
                        assert(h@ == hs && p == ps);
                        assert(entry@ == discovered_entry(target@, *st, hs, ps));
                    }
                    d.push(entry);
                    assert(display_views(d@) =~= d0.push(d@[d@.len() - 1]@));
                    assert(display_views(d@) == apply_status(d0, *st, key_views(dismissed@)));
                },
                None => {
                    assert(display_views(d@) == apply_status(d0, *st, key_views(dismissed@)));
                },
            }
        },
    }
}

fn display_lt_exec(a: &DisplayServerEntry, b: &DisplayServerEntry) -> (r: bool)
    ensures
        r == display_lt(a@, b@),
{
    if a.saved_index.is_some() && b.saved_index.is_none() {
        return true;
    }
    if a.saved_index.is_some() != b.saved_index.is_some() {
        return false;
    }
    crate::chat::chars_lt(a.key.as_str(), b.key.as_str())
}

proof fn lemma_insert_display_at(s: Seq<DisplayView>, x: DisplayView, j: int)
    requires
        0 <= j <= s.len(),
        j == 0 || !display_lt(x, s[j - 1]),
        forall|k: int| j <= k < s.len() ==> display_lt(x, #[trigger] s[k]),
    ensures
        insert_display(s, x) == s.insert(j, x),
    decreases s.len() - j,
{
    if j == s.len() {
        assert(s.insert(j, x) =~= s.push(x));
    } else {
        lemma_insert_display_at(s.drop_last(), x, j);
        assert(s.insert(j, x) =~= s.drop_last().insert(j, x).push(s.last()));
    }
}

fn sort_display_exec(v: Vec<DisplayServerEntry>) -> (r: Vec<DisplayServerEntry>)
    ensures
        display_views(r@) == sort_display(display_views(v@)),
{
    let ghost vv = display_views(v@);
    let mut out: Vec<DisplayServerEntry> = Vec::new();
    let mut i: usize = 0;
    while i < v.len()
        invariant
            vv == display_views(v@),
            i <= v@.len(),
            display_views(out@) == sort_display(vv.subrange(0, i as int)),
        decreases v.len() - i,
    {
        let x = copy_display(&v[i]);
        let mut j: usize = out.len();
        while j > 0 && display_lt_exec(&x, &out[j - 1])
            invariant
                j <= out@.len(),
                forall|k: int| j <= k < out@.len() ==> display_lt(x@, #[trigger] out@[k]@),
            decreases j,
        {
            j = j - 1;
        }
        proof {
            let o = display_views(out@);
            assert forall|k: int| j <= k < o.len() implies display_lt(x@, #[trigger] o[k]) by {
                assert(o[k] == out@[k]@);
            }
            if j > 0 {
                assert(o[j - 1] == out@[j - 1]@);
            }
            lemma_insert_display_at(o, x@, j as int);
            let p = vv.subrange(0, i + 1);
            assert(p.drop_last() =~= vv.subrange(0, i as int));
            assert(p.last() == vv[i as int]);
        }
        let ghost before = display_views(out@);
        out.insert(j, x);
        assert(display_views(out@) =~= before.insert(j as int, vv[i as int]));
        i = i + 1;
    }
    assert(vv.subrange(0, vv.len() as int) =~= vv);
    out
}

/// Rebuilds the list: the saved servers, updated or joined by the answers,
/// in list order. A selection that is no longer listed is dropped. Returns
/// whether the list's keys differ from the cards on screen.
pub fn rebuild_display_servers(ui_state: &mut MultiplayerUiState) -> (r: bool)
    ensures
        display_views(final(ui_state).display_servers@) == rebuilt_display(*old(ui_state)),
        final(ui_state).selected_key == if old(ui_state).selected_key matches Some(k) && !has_key(
            rebuilt_display(*old(ui_state)),
            k@,
        ) {
            None
        } else {
            old(ui_state).selected_key
        },
        r == (list_keys(rebuilt_display(*old(ui_state))) != key_views(old(ui_state).rendered_keys@)),
        final(ui_state).saved_servers == old(ui_state).saved_servers,
        final(ui_state).probed_servers == old(ui_state).probed_servers,
        final(ui_state).dismissed_server_keys == old(ui_state).dismissed_server_keys,
        final(ui_state).rendered_keys == old(ui_state).rendered_keys,
        final(ui_state).form_dialog == old(ui_state).form_dialog,
        final(ui_state).pending_delete_key == old(ui_state).pending_delete_key,
        final(ui_state).joining_key == old(ui_state).joining_key,
{
    let ghost s0 = *ui_state;
    let mut display: Vec<DisplayServerEntry> = Vec::new();
    let mut i: usize = 0;
    while i < ui_state.saved_servers.len()
        invariant
            i <= ui_state.saved_servers@.len(),
            display_views(display@) == saved_entries(ui_state.saved_servers@).subrange(0, i as int),
        decreases ui_state.saved_servers.len() - i,
    {
        let s = &ui_state.saved_servers[i];
        let entry = DisplayServerEntry {
            key: s.key(),
            saved_index: Some(i),
            server_name: s.server_name.clone(),
            host: s.host.clone(),
            port: s.port,
            motd: crate::servers::offline_status_message(s.port),
            ping_ms: None,
            online: false,
            session_url: s.session_url(),
        };
        let ghost before = display_views(display@);
        assert(entry@ == saved_entry_view(ui_state.saved_servers@[i as int], i as int));
        display.push(entry);
        assert(display_views(display@) =~= before.push(saved_entry_view(ui_state.saved_servers@[i as int], i as int)));
        assert(saved_entries(ui_state.saved_servers@).subrange(0, i + 1) =~= saved_entries(
            ui_state.saved_servers@,
        ).subrange(0, i as int).push(saved_entry_view(ui_state.saved_servers@[i as int], i as int)));
        i = i + 1;
    }
    assert(saved_entries(ui_state.saved_servers@).subrange(0, i as int) =~= saved_entries(
        ui_state.saved_servers@,
    ));
    let mut j: usize = 0;
    while j < ui_state.probed_servers.len()
        invariant
            j <= ui_state.probed_servers@.len(),
            display_views(display@) == apply_statuses(
                saved_entries(ui_state.saved_servers@),
                ui_state.probed_servers@,
                key_views(ui_state.dismissed_server_keys@),
                j as int,
            ),
        decreases ui_state.probed_servers.len() - j,
    {
        apply_status_exec(
            &mut display,
            &ui_state.probed_servers[j].1,
            &ui_state.dismissed_server_keys,
        );
        j = j + 1;
    }
    let sorted = sort_display_exec(display);
    let clear_selection = match &ui_state.selected_key {
        Some(k) => find_key(&sorted, k.as_str()).is_none(),
        None => false,
    };
    if clear_selection {
        ui_state.selected_key = None;
    }
    let mut changed = sorted.len() != ui_state.rendered_keys.len();
    proof {
        if changed {
            assert(list_keys(display_views(sorted@)).len() == sorted@.len());
            assert(key_views(ui_state.rendered_keys@).len() == ui_state.rendered_keys@.len());
        }
    }
    let mut k: usize = 0;
    while !changed && k < sorted.len()
        invariant
            !changed ==> sorted@.len() == ui_state.rendered_keys@.len(),
            changed ==> list_keys(display_views(sorted@)) != key_views(ui_state.rendered_keys@),
            !changed ==> forall|m: int| 0 <= m < k ==> sorted@[m].key@ == ui_state.rendered_keys@[m]@,
            k <= sorted@.len(),
        decreases sorted.len() - k,
    {
        if !text_equals(sorted[k].key.as_str(), ui_state.rendered_keys[k].as_str()) {
            assert(list_keys(display_views(sorted@))[k as int] != key_views(ui_state.rendered_keys@)[k as int]);
            changed = true;
        }
        k = k + 1;
    }
    proof {
        if !changed {
            assert(list_keys(display_views(sorted@)) =~= key_views(ui_state.rendered_keys@));
        } else if sorted@.len() != ui_state.rendered_keys@.len() {
            assert(list_keys(display_views(sorted@)).len() != key_views(ui_state.rendered_keys@).len());
        }
    }
    ui_state.display_servers = sorted;
    changed
}

// ---------------------------------------------------------------------------
// Clicks on the multiplayer screen
// ---------------------------------------------------------------------------

/// Index of the selected server in the list.
pub open spec fn selected_index(st: MultiplayerUiState) -> Option<int> {
    match st.selected_key {
        Some(k) => first_with_key(display_views(st.display_servers@), k@, 0),
        None => None,
    }
}

impl MultiplayerUiState {
    /// The selected server, if it is listed.
    pub fn selected_server(&self) -> (r: Option<&DisplayServerEntry>)
        ensures
            match selected_index(*self) {
                Some(k) => r == Some(&self.display_servers@[k]),
                None => r is None,
            },
    {
        match &self.selected_key {
            Some(k) => match find_key(&self.display_servers, k.as_str()) {
                Some(i) => Some(&self.display_servers[i]),
                None => None,
            },
            None => None,
        }
    }
}

/// Index of the first saved server at or after `i` whose key is `k`.
pub open spec fn first_saved_with_key(saved: Seq<SavedServerEntry>, k: Seq<char>, i: int) -> Option<int>
    decreases saved.len() - i,
{
    if i < 0 || i >= saved.len() {
        None
    } else if server_key_of(saved[i].host@, saved[i].port) == k {
        Some(i)
    } else {
        first_saved_with_key(saved, k, i + 1)
    }
}

fn find_saved(saved: &Vec<SavedServerEntry>, k: &str) -> (r: Option<usize>)
    ensures
        match first_saved_with_key(saved@, k@, 0) {
            Some(i) => r == Some(i as usize),
            None => r is None,
        },
        r matches Some(i) ==> i < saved@.len() && first_saved_with_key(saved@, k@, 0) == Some(i as int),
{
    let mut i: usize = 0;
    while i < saved.len()
        invariant
            i <= saved@.len(),
            first_saved_with_key(saved@, k@, 0) == first_saved_with_key(saved@, k@, i as int),
        decreases saved.len() - i,
    {
        let key = saved[i].key();
        if text_equals(key.as_str(), k) {
            return Some(i);
        }
        i = i + 1;
    }
    None
}

/// Index of the first answer at or after `i` stored under key `k`.
pub open spec fn first_probed_with_key(p: Seq<(String, ProbedServerStatus)>, k: Seq<char>, i: int) -> Option<int>
    decreases p.len() - i,
{
    if i < 0 || i >= p.len() {
        None
    } else if p[i].0@ == k {
        Some(i)
    } else {
        first_probed_with_key(p, k, i + 1)
    }
}

/// The answers without the one stored under `k`.
pub open spec fn probed_without(p: Seq<(String, ProbedServerStatus)>, k: Seq<char>) -> Seq<(String, ProbedServerStatus)> {
    match first_probed_with_key(p, k, 0) {
        Some(i) => p.remove(i),
        None => p,
    }
}

fn remove_probed(p: &mut Vec<(String, ProbedServerStatus)>, k: &str)
    ensures
        final(p)@ == probed_without(old(p)@, k@),
{
    let mut i: usize = 0;
    while i < p.len()
        invariant
            p@ == old(p)@,
            i <= p@.len(),
            first_probed_with_key(p@, k@, 0) == first_probed_with_key(p@, k@, i as int),
        decreases p.len() - i,
    {
        if text_equals(p[i].0.as_str(), k) {
            p.remove(i);
            return;
        }
        i = i + 1;
    }
}

/// The dismissed keys without `k`.
pub open spec fn keys_without(d: Seq<Seq<char>>, k: Seq<char>) -> Seq<Seq<char>> {
    d.filter(|x: Seq<char>| x != k)
}

/// The dismissed keys with `k` added, if it was not there.
pub open spec fn keys_with(d: Seq<Seq<char>>, k: Seq<char>) -> Seq<Seq<char>> {
    if d.contains(k) {
        d
    } else {
        d.push(k)
    }
}

fn remove_key(d: &mut Vec<String>, k: &str)
    ensures
        key_views(final(d)@) == keys_without(key_views(old(d)@), k@),
{
    let ghost d0 = key_views(d@);
    let mut out: Vec<String> = Vec::new();
    let mut i: usize = 0;
    while i < d.len()
        invariant
            d0 == key_views(d@),
            i <= d@.len(),
            key_views(out@) == keys_without(d0.subrange(0, i as int), k@),
        decreases d.len() - i,
    {
        proof {
            let pre = d0.subrange(0, i + 1);
            assert(pre.drop_last() =~= d0.subrange(0, i as int));
            assert(pre.last() == d@[i as int]@);
            assert(pre =~= d0.subrange(0, i as int).push(d@[i as int]@));
            reveal(Seq::filter);
        }
        if !text_equals(d[i].as_str(), k) {
            let ghost before = key_views(out@);
            out.push(d[i].clone());
            assert(key_views(out@) =~= before.push(d@[i as int]@));
        }
        i = i + 1;
    }
    assert(d0.subrange(0, d0.len() as int) =~= d0);
    *d = out;
}

fn insert_key(d: &mut Vec<String>, k: &str)
    ensures
        key_views(final(d)@) == keys_with(key_views(old(d)@), k@),
{
    if !contains_key(d, k) {
        let ghost before = key_views(d@);
        d.push(to_owned_string(k));
        assert(key_views(d@) =~= before.push(k@));
    }
}

/// What the screen asks of its surroundings after a click: to connect to a
/// server (its session URL and name), to query the servers, to save the
/// server list, to rebuild the cards.
pub struct MultiplayerEffects {
    pub connect: Option<(String, String)>,
    pub probe: bool,
    pub save: bool,
    pub rebuild_cards: bool,
}

/// Whether the saved server `e` holds the given name, host and port.
pub open spec fn saved_is(e: SavedServerEntry, name: Seq<char>, host: Seq<char>, port: u16) -> bool {
    e.server_name@ == name && e.host@ == host && e.port == port
}

/// The selection after the list was rebuilt into `d`.
pub open spec fn selection_after(sel: Option<Seq<char>>, d: Seq<DisplayView>) -> Option<Seq<char>> {
    match sel {
        Some(k) => if has_key(d, k) {
            Some(k)
        } else {
            None
        },
        None => None,
    }
}

/// Whether `new` is `old` with the list rebuilt from `new`'s servers and
/// answers, `sel` as the selection before the rebuild, and `changed` telling
/// whether the cards must be rebuilt.
pub open spec fn rebuilt_from(old: MultiplayerUiState, new: MultiplayerUiState, sel: Option<Seq<char>>, changed: bool) -> bool {
    &&& display_views(new.display_servers@) == rebuilt_display(new)
    &&& opt_str(new.selected_key) == selection_after(sel, rebuilt_display(new))
    &&& changed == (list_keys(rebuilt_display(new)) != key_views(old.rendered_keys@))
    &&& new.rendered_keys == old.rendered_keys
}

proof fn lemma_rebuild_selection(sel: Option<String>, d: Seq<DisplayView>)
    ensures
        opt_str(
            if sel matches Some(k) && !has_key(d, k@) {
                None
            } else {
                sel
            },
        ) == selection_after(opt_str(sel), d),
{
}

/// `b` is `a` with saved server `j` removed.
pub open spec fn saved_removed(a: Seq<SavedServerEntry>, b: Seq<SavedServerEntry>, j: int) -> bool {
    b.len() + 1 == a.len() && forall|i: int|
        0 <= i < b.len() ==> #[trigger] b[i] == if i < j {
            a[i]
        } else {
            a[i + 1]
        }
}

/// `b` is `a` with saved server `j` now holding the given name, host and port.
pub open spec fn saved_updated(a: Seq<SavedServerEntry>, b: Seq<SavedServerEntry>, j: int, name: Seq<char>, host: Seq<char>, port: u16) -> bool {
    &&& b.len() == a.len()
    &&& saved_is(b[j], name, host, port)
    &&& forall|i: int| 0 <= i < b.len() && i != j ==> #[trigger] b[i] == a[i]
}

/// `b` is `a` with a server of the given name, host and port appended.
pub open spec fn saved_pushed(a: Seq<SavedServerEntry>, b: Seq<SavedServerEntry>, name: Seq<char>, host: Seq<char>, port: u16) -> bool {
    &&& b.len() == a.len() + 1
    &&& saved_is(b[a.len() as int], name, host, port)
    &&& forall|i: int| 0 <= i < a.len() ==> #[trigger] b[i] == a[i]
}

/// Whether the form's name and address inputs were filled with a server.
pub open spec fn form_populated(fo: Seq<FormInputField>, fnew: Seq<FormInputField>, name: Seq<char>, host: Seq<char>, port: u16) -> bool {
    &&& fnew.len() == fo.len()
    &&& forall|k: int|
        0 <= k < fo.len() ==> if fo[k].css_id@ == MULTIPLAYER_FORM_NAME_INPUT_ID@ {
            field_set(#[trigger] fo[k], fnew[k], name)
        } else if fo[k].css_id@ == MULTIPLAYER_FORM_ADDRESS_INPUT_ID@ {
            field_set(fo[k], fnew[k], display_address_of(host, port))
        } else {
            fnew[k] == fo[k]
        }
}

/// Whether the form's name and address inputs were emptied.
pub open spec fn form_cleared(fo: Seq<FormInputField>, fnew: Seq<FormInputField>) -> bool {
    &&& fnew.len() == fo.len()
    &&& forall|k: int|
        0 <= k < fo.len() ==> if fo[k].css_id@ == MULTIPLAYER_FORM_NAME_INPUT_ID@ || fo[k].css_id@
            == MULTIPLAYER_FORM_ADDRESS_INPUT_ID@ {
            field_set(#[trigger] fo[k], fnew[k], Seq::empty())
        } else {
            fnew[k] == fo[k]
        }
}

/// Whether the address input was rewritten in its normal form.
pub open spec fn address_rewritten(fo: Seq<FormInputField>, fnew: Seq<FormInputField>, host: Seq<char>, port: u16) -> bool {
    &&& fnew.len() == fo.len()
    &&& forall|k: int|
        0 <= k < fo.len() ==> if fo[k].css_id@ == MULTIPLAYER_FORM_ADDRESS_INPUT_ID@ {
            field_set(#[trigger] fo[k], fnew[k], display_address_of(host, port))
        } else {
            fnew[k] == fo[k]
        }
}

pub open spec fn no_effects(e: MultiplayerEffects) -> bool {
    e.connect is None && !e.probe && !e.save && !e.rebuild_cards
}

pub open spec fn same_lists(o: MultiplayerUiState, n: MultiplayerUiState) -> bool {
    &&& n.saved_servers == o.saved_servers
    &&& n.probed_servers == o.probed_servers
    &&& n.dismissed_server_keys == o.dismissed_server_keys
    &&& n.display_servers == o.display_servers
    &&& n.rendered_keys == o.rendered_keys
}

pub open spec fn same_state(o: MultiplayerUiState, n: MultiplayerUiState) -> bool {
    &&& same_lists(o, n)
    &&& n.selected_key == o.selected_key
    &&& n.form_dialog == o.form_dialog
    &&& n.pending_delete_key == o.pending_delete_key
    &&& n.joining_key == o.joining_key
}

/// The form a click on "edit" opens for a listed server: editing it when it
/// is saved, adding it otherwise.
pub open spec fn edit_form_for(e: DisplayServerEntry) -> ServerFormDialogState {
    ServerFormDialogState {
        mode: if e.saved_index is Some {
            ServerFormMode::Edit
        } else {
            ServerFormMode::Add
        },
        editing_saved_index: e.saved_index,
    }
}

/// A confirmed deletion of the server with key `key`: a saved server with it
/// is removed (and the list saved); otherwise the key is dismissed and its
/// answer forgotten. The list is rebuilt; a selection of that server is dropped.
pub open spec fn delete_done(o: MultiplayerUiState, n: MultiplayerUiState, key: Seq<char>, e: MultiplayerEffects) -> bool {
    &&& n.pending_delete_key is None
    &&& n.form_dialog == o.form_dialog
    &&& n.joining_key == o.joining_key
    &&& match first_saved_with_key(o.saved_servers@, key, 0) {
        Some(j) => saved_removed(o.saved_servers@, n.saved_servers@, j) && e.save && n.probed_servers
            == o.probed_servers && n.dismissed_server_keys == o.dismissed_server_keys,
        None => !e.save && n.saved_servers == o.saved_servers && n.probed_servers@ == probed_without(
            o.probed_servers@,
            key,
        ) && key_views(n.dismissed_server_keys@) == keys_with(key_views(o.dismissed_server_keys@), key),
    }
    &&& rebuilt_from(
        o,
        n,
        if opt_str(o.selected_key) == Some(key) {
            None
        } else {
            opt_str(o.selected_key)
        },
        e.rebuild_cards,
    )
}

/// A submitted form with a valid name, host and port: an added server
/// replaces the saved server with its key or is appended, and is selected;
/// an edited server replaces the saved server being edited, if there still
/// is one, and is selected. Its key is no longer dismissed, the form closes,
/// the list is saved and rebuilt.
pub open spec fn submit_done(
    o: MultiplayerUiState,
    n: MultiplayerUiState,
    fd: ServerFormDialogState,
    name: Seq<char>,
    host: Seq<char>,
    port: u16,
    e: MultiplayerEffects,
) -> bool {
    let key = server_key_of(host, port);
    &&& n.form_dialog is None
    &&& e.save
    &&& n.pending_delete_key == o.pending_delete_key
    &&& n.joining_key == o.joining_key
    &&& n.probed_servers == o.probed_servers
    &&& key_views(n.dismissed_server_keys@) == keys_without(key_views(o.dismissed_server_keys@), key)
    &&& match fd.mode {
        ServerFormMode::Add => rebuilt_from(o, n, Some(key), e.rebuild_cards) && match first_saved_with_key(
            o.saved_servers@,
            key,
            0,
        ) {
            Some(j) => saved_updated(o.saved_servers@, n.saved_servers@, j, name, host, port),
            None => saved_pushed(o.saved_servers@, n.saved_servers@, name, host, port),
        },
        ServerFormMode::Edit => match fd.editing_saved_index {
            Some(i) => if i < o.saved_servers@.len() {
                saved_updated(o.saved_servers@, n.saved_servers@, i as int, name, host, port)
                    && rebuilt_from(o, n, Some(key), e.rebuild_cards)
            } else {
                n.saved_servers == o.saved_servers && rebuilt_from(o, n, opt_str(o.selected_key), e.rebuild_cards)
            },
            None => n.saved_servers == o.saved_servers && rebuilt_from(
                o,
                n,
                opt_str(o.selected_key),
                e.rebuild_cards,
            ),
        },
    }
}

/// What one click does on the multiplayer screen.
pub open spec fn multiplayer_step(
    o: MultiplayerUiState,
    n: MultiplayerUiState,
    fo: Seq<FormInputField>,
    fnew: Seq<FormInputField>,
    action: MultiplayerAction,
    e: MultiplayerEffects,
) -> bool {
    match action {
        MultiplayerAction::SelectServer(i) => no_effects(e) && fnew == fo && if i < o.display_servers@.len() {
            &&& opt_str(n.selected_key) == Some(o.display_servers@[i as int].key@)
            &&& n.pending_delete_key is None
            &&& same_lists(o, n)
            &&& n.form_dialog == o.form_dialog
            &&& n.joining_key == o.joining_key
        } else {
            same_state(o, n)
        },
        MultiplayerAction::JoinServer => fnew == fo && !e.probe && !e.save && !e.rebuild_cards
            && match selected_index(o) {
            Some(k) => {
                let server = o.display_servers@[k];
                &&& opt_str(n.joining_key) == Some(server.key@)
                &&& e.connect matches Some((url, name)) && url@ == server.session_url@ && name@
                    == server.server_name@
                &&& same_lists(o, n)
                &&& n.selected_key == o.selected_key
                &&& n.form_dialog == o.form_dialog
                &&& n.pending_delete_key == o.pending_delete_key
            },
            None => same_state(o, n) && e.connect is None,
        },
        MultiplayerAction::RefreshServers => same_state(o, n) && fnew == fo && e.probe && e.connect is None
            && !e.save && !e.rebuild_cards,
        MultiplayerAction::OpenAddServer => {
            &&& no_effects(e)
            &&& n.form_dialog == Some(
                ServerFormDialogState { mode: ServerFormMode::Add, editing_saved_index: None },
            )
            &&& same_lists(o, n)
            &&& n.selected_key == o.selected_key
            &&& n.pending_delete_key == o.pending_delete_key
            &&& n.joining_key == o.joining_key
            &&& match selected_index(o) {
                Some(k) => form_populated(
                    fo,
                    fnew,
                    o.display_servers@[k].server_name@,
                    o.display_servers@[k].host@,
                    o.display_servers@[k].port,
                ),
                None => form_cleared(fo, fnew),
            }
        },
        MultiplayerAction::OpenEditServer => no_effects(e) && match selected_index(o) {
            Some(k) => {
                &&& n.form_dialog == Some(edit_form_for(o.display_servers@[k]))
                &&& form_populated(
                    fo,
                    fnew,
                    o.display_servers@[k].server_name@,
                    o.display_servers@[k].host@,
                    o.display_servers@[k].port,
                )
                &&& same_lists(o, n)
                &&& n.selected_key == o.selected_key
                &&& n.pending_delete_key == o.pending_delete_key
                &&& n.joining_key == o.joining_key
            },
            None => same_state(o, n) && fnew == fo,
        },
        MultiplayerAction::OpenDeleteServer => no_effects(e) && fnew == fo && match selected_index(o) {
            Some(k) => {
                &&& opt_str(n.pending_delete_key) == Some(o.display_servers@[k].key@)
                &&& same_lists(o, n)
                &&& n.selected_key == o.selected_key
                &&& n.form_dialog == o.form_dialog
                &&& n.joining_key == o.joining_key
            },
            None => same_state(o, n),
        },
        MultiplayerAction::ConfirmDelete => fnew == fo && e.connect is None && !e.probe && match o.pending_delete_key {
            None => same_state(o, n) && !e.save && !e.rebuild_cards,
            Some(key) => delete_done(o, n, key@, e),
        },
        MultiplayerAction::AbortDelete => {
            &&& no_effects(e)
            &&& fnew == fo
            &&& n.pending_delete_key is None
            &&& same_lists(o, n)
            &&& n.selected_key == o.selected_key
            &&& n.form_dialog == o.form_dialog
            &&& n.joining_key == o.joining_key
        },
        MultiplayerAction::SubmitAdd | MultiplayerAction::SubmitEdit => e.connect is None && !e.probe
            && match server_form_of(fo) {
            None => same_state(o, n) && fnew == fo && !e.save && !e.rebuild_cards,
            Some((name, host, port)) => address_rewritten(fo, fnew, host, port) && match o.form_dialog {
                None => same_state(o, n) && !e.save && !e.rebuild_cards,
                Some(fd) => submit_done(o, n, fd, name, host, port, e),
            },
        },
        MultiplayerAction::AbortForm => {
            &&& no_effects(e)
            &&& fnew == fo
            &&& n.form_dialog is None
            &&& same_lists(o, n)
            &&& n.selected_key == o.selected_key
            &&& n.pending_delete_key == o.pending_delete_key
            &&& n.joining_key == o.joining_key
        },
    }
}

fn no_effect() -> (e: MultiplayerEffects)
    ensures
        no_effects(e),
{
    MultiplayerEffects { connect: None, probe: false, save: false, rebuild_cards: false }
}

/// No click of the multiplayer screen makes a key occur twice among the
/// stored answers or the dismissed keys.
proof fn lemma_step_keeps_wf(
    o: MultiplayerUiState,
    n: MultiplayerUiState,
    fo: Seq<FormInputField>,
    fnew: Seq<FormInputField>,
    action: MultiplayerAction,
    e: MultiplayerEffects,
)
    requires
        o.wf(),
        multiplayer_step(o, n, fo, fnew, action, e),
    ensures
        n.wf(),
{
    match action {
        MultiplayerAction::ConfirmDelete => {
            match o.pending_delete_key {
                Some(key) => {
                    if first_saved_with_key(o.saved_servers@, key@, 0) is None {
                        lemma_probed_without_distinct(o.probed_servers@, key@);
                        lemma_keys_with_distinct(key_views(o.dismissed_server_keys@), key@);
                    }
                },
                None => {},
            }
        },
        MultiplayerAction::SubmitAdd | MultiplayerAction::SubmitEdit => {
            match server_form_of(fo) {
                Some((name, host, port)) => {
                    lemma_keys_without_distinct(key_views(o.dismissed_server_keys@), server_key_of(host, port));
                },
                None => {},
            }
        },
        _ => {},
    }
}

/// Applies one click of the multiplayer screen to its state and form.
pub fn apply_multiplayer_action(
    ui_state: &mut MultiplayerUiState,
    form_inputs: &mut Vec<FormInputField>,
    action: MultiplayerAction,
) -> (e: MultiplayerEffects)
    ensures
        multiplayer_step(*old(ui_state), *final(ui_state), old(form_inputs)@, final(form_inputs)@, action, e),
        old(ui_state).wf() ==> final(ui_state).wf(),
{
    let ghost o = *ui_state;
    let ghost fo = form_inputs@;
    let e = apply_multiplayer_click(ui_state, form_inputs, action);
    proof {
        if o.wf() {
            lemma_step_keeps_wf(o, *ui_state, fo, form_inputs@, action, e);
        }
    }
    e
}

fn apply_multiplayer_click(
    ui_state: &mut MultiplayerUiState,
    form_inputs: &mut Vec<FormInputField>,
    action: MultiplayerAction,
) -> (e: MultiplayerEffects)
    ensures
        multiplayer_step(*old(ui_state), *final(ui_state), old(form_inputs)@, final(form_inputs)@, action, e),
{
    match action {
        MultiplayerAction::SelectServer(index) => {
            if index < ui_state.display_servers.len() {
                let key = ui_state.display_servers[index].key.clone();
                ui_state.selected_key = Some(key);
                ui_state.pending_delete_key = None;
            }
            no_effect()
        },
        MultiplayerAction::JoinServer => {
            let selected = match ui_state.selected_server() {
                Some(server) => Some(
                    (server.key.clone(), server.session_url.clone(), server.server_name.clone()),
                ),
                None => None,
            };
            match selected {
                Some((key, url, name)) => {
                    ui_state.joining_key = Some(key);
                    MultiplayerEffects {
                        connect: Some((url, name)),
                        probe: false,
                        save: false,
                        rebuild_cards: false,
                    }
                },
                None => no_effect(),
            }
        },
        MultiplayerAction::RefreshServers => {
            MultiplayerEffects { connect: None, probe: true, save: false, rebuild_cards: false }
        },
        MultiplayerAction::OpenAddServer => {
            ui_state.form_dialog = Some(
                ServerFormDialogState { mode: ServerFormMode::Add, editing_saved_index: None },
            );
            match ui_state.selected_server() {
                Some(server) => {
                    populate_server_form_inputs(
                        form_inputs,
                        server.server_name.as_str(),
                        server.host.as_str(),
                        server.port,
                    );
                },
                None => {
                    clear_server_form_inputs(form_inputs);
                },
            }
            no_effect()
        },
        MultiplayerAction::OpenEditServer => {
            let form = match ui_state.selected_server() {
                Some(server) => {
                    let mode = if server.saved_index.is_some() {
                        ServerFormMode::Edit
                    } else {
                        ServerFormMode::Add
                    };
                    populate_server_form_inputs(
                        form_inputs,
                        server.server_name.as_str(),
                        server.host.as_str(),
                        server.port,
                    );
                    Some(ServerFormDialogState { mode, editing_saved_index: server.saved_index })
                },
                None => None,
            };
            if form.is_some() {
                ui_state.form_dialog = form;
            }
            no_effect()
        },
        MultiplayerAction::OpenDeleteServer => {
            let key = match ui_state.selected_server() {
                Some(server) => Some(server.key.clone()),
                None => None,
            };
            if key.is_some() {
                ui_state.pending_delete_key = key;
            }
            no_effect()
        },
        MultiplayerAction::ConfirmDelete => {
            let key = match &ui_state.pending_delete_key {
                Some(k) => k.clone(),
                None => {
                    return no_effect();
                },
            };
            ui_state.pending_delete_key = None;
            let save = match find_saved(&ui_state.saved_servers, key.as_str()) {
                Some(index) => {
                    let ghost before = ui_state.saved_servers@;
                    ui_state.saved_servers.remove(index);
                    assert(saved_removed(before, ui_state.saved_servers@, index as int));
                    true
                },
                None => {
                    insert_key(&mut ui_state.dismissed_server_keys, key.as_str());
                    remove_probed(&mut ui_state.probed_servers, key.as_str());
                    false
                },
            };
            let same_selection = match &ui_state.selected_key {
                Some(k) => text_equals(k.as_str(), key.as_str()),
                None => false,
            };
            if same_selection {
                ui_state.selected_key = None;
            }
            let ghost sel = opt_str(ui_state.selected_key);
            proof {
                lemma_rebuild_selection(ui_state.selected_key, rebuilt_display(*ui_state));
            }
            let changed = rebuild_display_servers(ui_state);
            MultiplayerEffects { connect: None, probe: false, save, rebuild_cards: changed }
        },
        MultiplayerAction::AbortDelete => {
            ui_state.pending_delete_key = None;
            no_effect()
        },
        MultiplayerAction::SubmitAdd | MultiplayerAction::SubmitEdit => {
            let (server_name, host, port) = match read_server_form_inputs(form_inputs) {
                Some(x) => x,
                None => {
                    return no_effect();
                },
            };
            let form_state = match ui_state.form_dialog {
                Some(f) => f,
                None => {
                    return no_effect();
                },
            };
            let key = server_key(host.as_str(), port);
            match form_state.mode {
                ServerFormMode::Add => {
                    match find_saved(&ui_state.saved_servers, key.as_str()) {
                        Some(index) => {
                            let entry = SavedServerEntry {
                                server_name: server_name.clone(),
                                host: host.clone(),
                                port,
                            };
                            ui_state.saved_servers.set(index, entry);
                        },
                        None => {
                            let entry = SavedServerEntry {
                                server_name: server_name.clone(),
                                host: host.clone(),
                                port,
                            };
                            ui_state.saved_servers.push(entry);
                        },
                    }
                    ui_state.selected_key = Some(key.clone());
                },
                ServerFormMode::Edit => {
                    match form_state.editing_saved_index {
                        Some(index) => {
                            if index < ui_state.saved_servers.len() {
                                let entry = SavedServerEntry {
                                    server_name: server_name.clone(),
                                    host: host.clone(),
                                    port,
                                };
                                ui_state.saved_servers.set(index, entry);
                                ui_state.selected_key = Some(ui_state.saved_servers[index].key());
                            }
                        },
                        None => {},
                    }
                },
            }
            remove_key(&mut ui_state.dismissed_server_keys, key.as_str());
            ui_state.form_dialog = None;
            proof {
                lemma_rebuild_selection(ui_state.selected_key, rebuilt_display(*ui_state));
            }
            let changed = rebuild_display_servers(ui_state);
            MultiplayerEffects { connect: None, probe: false, save: true, rebuild_cards: changed }
        },
        MultiplayerAction::AbortForm => {
            ui_state.form_dialog = None;
            no_effect()
        },
    }
}

/// A server's answer to a discovery query.
pub struct LanServerInfo {
    pub session_url: String,
    pub observed_addr: Option<String>,
    pub server_name: String,
    pub motd: String,
}

/// The key an answer is stored under: the key its URL names, else the key
/// of the address it came from with the URL's port.
pub open spec fn storage_key_of(server: LanServerInfo) -> Option<Seq<char>> {
    match session_address_of(server.session_url@) {
        Some((h, p)) => Some(server_key_of(h, p)),
        None => match server.observed_addr {
            Some(a) => match port_of(server.session_url@) {
                Some(p) => Some(server_key_of(a@, p)),
                None => None,
            },
            None => None,
        },
    }
}

/// Whether `st` records the answer `server` as just seen.
pub open spec fn status_of(st: ProbedServerStatus, server: LanServerInfo, matched: Option<String>, ping_ms: Option<u32>) -> bool {
    &&& st.session_url@ == server.session_url@
    &&& opt_str(st.observed_host) == opt_str(server.observed_addr)
    &&& opt_str(st.matched_saved_key) == opt_str(matched)
    &&& st.server_name@ == server.server_name@
    &&& st.motd@ == server.motd@
    &&& st.ping_ms == ping_ms
    &&& st.online
}

/// The saved server an answer is matched to: the key its URL names when a
/// direct query to that key is pending; else the key of the address it came
/// from (with the URL's port) when a query to that one is pending.
pub open spec fn matched_probe_key(server: LanServerInfo, pending: Seq<Seq<char>>) -> Option<Seq<char>> {
    match session_address_of(server.session_url@) {
        Some((h, p)) => if pending.contains(server_key_of(h, p)) {
            Some(server_key_of(h, p))
        } else {
            match server.observed_addr {
                Some(a) => if pending.contains(server_key_of(a@, p)) {
                    Some(server_key_of(a@, p))
                } else {
                    None
                },
                None => None,
            }
        },
        None => None,
    }
}

/// The saved server a discovery answer is matched to, given the keys of the
/// direct queries still waiting for an answer.
pub fn match_probe_answer(server: &LanServerInfo, pending_keys: &Vec<String>) -> (r: Option<String>)
    ensures
        match matched_probe_key(*server, key_views(pending_keys@)) {
            Some(k) => r matches Some(x) && x@ == k,
            None => r is None,
        },
{
    match parse_session_url(server.session_url.as_str()) {
        Some((host, port)) => {
            let response_key = server_key(host.as_str(), port);
            if contains_key(pending_keys, response_key.as_str()) {
                return Some(response_key);
            }
            match &server.observed_addr {
                Some(a) => {
                    let observed_key = server_key(a.as_str(), port);
                    if contains_key(pending_keys, observed_key.as_str()) {
                        Some(observed_key)
                    } else {
                        None
                    }
                },
                None => None,
            }
        },
        None => None,
    }
}

/// Storing an answer under a key, in place of the answer stored under it or
/// after all answers where there was none, keeps the keys free of repeats.
proof fn lemma_probed_store_distinct(
    p0: Seq<(String, ProbedServerStatus)>,
    p1: Seq<(String, ProbedServerStatus)>,
    k: Seq<char>,
)
    requires
        probed_keys(p0).no_duplicates(),
        match first_probed_with_key(p0, k, 0) {
            Some(i) => p1.len() == p0.len() && p1[i].0@ == k && forall|j: int|
                0 <= j < p0.len() && j != i ==> #[trigger] p1[j] == p0[j],
            None => p1.len() == p0.len() + 1 && p1[p0.len() as int].0@ == k && forall|j: int|
                0 <= j < p0.len() ==> #[trigger] p1[j] == p0[j],
        },
    ensures
        probed_keys(p1).no_duplicates(),
{
    lemma_first_probed_bounds(p0, k, 0);
    let k0 = probed_keys(p0);
    let k1 = probed_keys(p1);
    assert forall|a: int, b: int| 0 <= a < k1.len() && 0 <= b < k1.len() && a != b implies k1[a] != k1[b] by {
        match first_probed_with_key(p0, k, 0) {
            Some(i) => {
                if a != i {
                    assert(p1[a] == p0[a]);
                }
                if b != i {
                    assert(p1[b] == p0[b]);
                }
                assert(k0[i] == k);
                if a != i && b != i {
                    assert(k0[a] != k0[b]);
                }
            },
            None => {
                if a < p0.len() {
                    assert(p1[a] == p0[a]);
                    assert(k0[a] != k);
                }
                if b < p0.len() {
                    assert(p1[b] == p0[b]);
                    assert(k0[b] != k);
                }
                if a < p0.len() && b < p0.len() {
                    assert(k0[a] != k0[b]);
                }
            },
        }
    }
}

/// Records a server's answer under its key, replacing an earlier answer
/// under the same key; returns whether the key is new. An answer without a
/// key is dropped.
pub fn update_probed_server(
    ui_state: &mut MultiplayerUiState,
    server: LanServerInfo,
    matched_saved_key: Option<String>,
    ping_ms: Option<u32>,
) -> (r: bool)
    ensures
        match storage_key_of(server) {
            None => !r && *final(ui_state) == *old(ui_state),
            Some(k) => {
                let p0 = old(ui_state).probed_servers@;
                let p1 = final(ui_state).probed_servers@;
                &&& r == (first_probed_with_key(p0, k, 0) is None)
                &&& match first_probed_with_key(p0, k, 0) {
                    Some(i) => p1.len() == p0.len() && p1[i].0@ == k && status_of(
                        p1[i].1,
                        server,
                        matched_saved_key,
                        ping_ms,
                    ) && forall|j: int| 0 <= j < p0.len() && j != i ==> #[trigger] p1[j] == p0[j],
                    None => p1.len() == p0.len() + 1 && p1[p0.len() as int].0@ == k && status_of(
                        p1[p0.len() as int].1,
                        server,
                        matched_saved_key,
                        ping_ms,
                    ) && forall|j: int| 0 <= j < p0.len() ==> #[trigger] p1[j] == p0[j],
                }
                &&& same_lists_but_probed(*old(ui_state), *final(ui_state))
            },
        },
        old(ui_state).wf() ==> final(ui_state).wf(),
{
    let ghost p0 = ui_state.probed_servers@;
    let r = store_probed_answer(ui_state, server, matched_saved_key, ping_ms);
    proof {
        if old(ui_state).wf() {
            if let Some(k) = storage_key_of(server) {
                lemma_first_probed_bounds(p0, k, 0);
                lemma_probed_store_distinct(p0, ui_state.probed_servers@, k);
            }
        }
    }
    r
}

fn store_probed_answer(
    ui_state: &mut MultiplayerUiState,
    server: LanServerInfo,
    matched_saved_key: Option<String>,
    ping_ms: Option<u32>,
) -> (r: bool)
    ensures
        match storage_key_of(server) {
            None => !r && *final(ui_state) == *old(ui_state),
            Some(k) => {
                let p0 = old(ui_state).probed_servers@;
                let p1 = final(ui_state).probed_servers@;
                &&& r == (first_probed_with_key(p0, k, 0) is None)
                &&& match first_probed_with_key(p0, k, 0) {
                    Some(i) => p1.len() == p0.len() && p1[i].0@ == k && status_of(
                        p1[i].1,
                        server,
                        matched_saved_key,
                        ping_ms,
                    ) && forall|j: int| 0 <= j < p0.len() && j != i ==> #[trigger] p1[j] == p0[j],
                    None => p1.len() == p0.len() + 1 && p1[p0.len() as int].0@ == k && status_of(
                        p1[p0.len() as int].1,
                        server,
                        matched_saved_key,
                        ping_ms,
                    ) && forall|j: int| 0 <= j < p0.len() ==> #[trigger] p1[j] == p0[j],
                }
                &&& same_lists_but_probed(*old(ui_state), *final(ui_state))
            },
        },
{
    let key = match session_url_to_key(server.session_url.as_str()) {
        Some(k) => k,
        None => match &server.observed_addr {
            Some(a) => match server_key_for_port(a.as_str(), server.session_url.as_str()) {
                Some(k) => k,
                None => {
                    return false;
                },
            },
            None => {
                return false;
            },
        },
    };
    assert(storage_key_of(server) == Some(key@));
    let status = ProbedServerStatus {
        session_url: server.session_url,
        observed_host: server.observed_addr,
        matched_saved_key,
        server_name: server.server_name,
        motd: server.motd,
        ping_ms,
        online: true,
    };
    assert(status_of(status, server, matched_saved_key, ping_ms));
    let mut i: usize = 0;
    while i < ui_state.probed_servers.len()
        invariant
            storage_key_of(server) == Some(key@),
            status_of(status, server, matched_saved_key, ping_ms),
            ui_state.probed_servers@ == old(ui_state).probed_servers@,
            *ui_state == *old(ui_state),
            i <= ui_state.probed_servers@.len(),
            first_probed_with_key(ui_state.probed_servers@, key@, 0) == first_probed_with_key(
                ui_state.probed_servers@,
                key@,
                i as int,
            ),
        decreases ui_state.probed_servers.len() - i,
    {
        if text_equals(ui_state.probed_servers[i].0.as_str(), key.as_str()) {
            assert(first_probed_with_key(ui_state.probed_servers@, key@, 0) == Some(i as int));
            ui_state.probed_servers.set(i, (key, status));
            return false;
        }
        i = i + 1;
    }
    ui_state.probed_servers.push((key, status));
    true
}

pub open spec fn same_lists_but_probed(o: MultiplayerUiState, n: MultiplayerUiState) -> bool {
    &&& n.saved_servers == o.saved_servers
    &&& n.dismissed_server_keys == o.dismissed_server_keys
    &&& n.display_servers == o.display_servers
    &&& n.rendered_keys == o.rendered_keys
    &&& n.selected_key == o.selected_key
    &&& n.form_dialog == o.form_dialog
    &&& n.pending_delete_key == o.pending_delete_key
    &&& n.joining_key == o.joining_key
}

/// What the back key does on the multiplayer screen.
#[derive(Clone, Copy, PartialEq, Eq, Debug, Structural)]
pub enum MultiplayerBack {
    /// Nothing to do.
    Stay,
    /// A join in progress was abandoned: disconnect.
    Disconnect,
    /// A dialog was closed.
    ClosedDialog,
    /// Back to the main menu.
    ToMenu,
}

/// The back key: abandons a join, else closes the form, else the delete
/// prompt, else returns to the main menu.
pub fn handle_multiplayer_back_navigation(ui_state: &mut MultiplayerUiState, close_pressed: bool) -> (r:
    MultiplayerBack)
    ensures
        !close_pressed ==> r == MultiplayerBack::Stay && same_state(*old(ui_state), *final(ui_state)),
        close_pressed && old(ui_state).joining_key is Some ==> r == MultiplayerBack::Disconnect
            && final(ui_state).joining_key is None && same_lists(*old(ui_state), *final(ui_state))
            && final(ui_state).form_dialog == old(ui_state).form_dialog
            && final(ui_state).pending_delete_key == old(ui_state).pending_delete_key
            && final(ui_state).selected_key == old(ui_state).selected_key,
        close_pressed && old(ui_state).joining_key is None && old(ui_state).form_dialog is Some ==> r
            == MultiplayerBack::ClosedDialog && final(ui_state).form_dialog is None && same_lists(
            *old(ui_state),
            *final(ui_state),
        ) && final(ui_state).joining_key == old(ui_state).joining_key
            && final(ui_state).pending_delete_key == old(ui_state).pending_delete_key
            && final(ui_state).selected_key == old(ui_state).selected_key,
        close_pressed && old(ui_state).joining_key is None && old(ui_state).form_dialog is None
            && old(ui_state).pending_delete_key is Some ==> r == MultiplayerBack::ClosedDialog
            && final(ui_state).pending_delete_key is None && same_lists(*old(ui_state), *final(ui_state))
            && final(ui_state).joining_key == old(ui_state).joining_key
            && final(ui_state).form_dialog == old(ui_state).form_dialog
            && final(ui_state).selected_key == old(ui_state).selected_key,
        close_pressed && old(ui_state).joining_key is None && old(ui_state).form_dialog is None
            && old(ui_state).pending_delete_key is None ==> r == MultiplayerBack::ToMenu && same_state(
            *old(ui_state),
            *final(ui_state),
        ),
{
    if !close_pressed {
        return MultiplayerBack::Stay;
    }
    if ui_state.joining_key.is_some() {
        ui_state.joining_key = None;
        return MultiplayerBack::Disconnect;
    }
    if ui_state.form_dialog.is_some() {
        ui_state.form_dialog = None;
        return MultiplayerBack::ClosedDialog;
    }
    if ui_state.pending_delete_key.is_some() {
        ui_state.pending_delete_key = None;
        return MultiplayerBack::ClosedDialog;
    }
    MultiplayerBack::ToMenu
}

/// Whether the listed server is the one the game is connected to: connected,
/// with an active session whose key is the server's key or the key of its
/// host and port.
pub open spec fn active_connected(server: DisplayServerEntry, connected: bool, active_session_url: Option<Seq<char>>) -> bool {
    connected && match active_session_url {
        None => false,
        Some(url) => match session_address_of(url) {
            None => false,
            Some((h, p)) => server_key_of(h, p) == server.key@ || server_key_of(h, p) == server_key_of(
                server.host@,
                server.port,
            ),
        },
    }
}

pub fn is_active_connected_server(
    server: &DisplayServerEntry,
    connected: bool,
    active_session_url: Option<&str>,
) -> (r: bool)
    ensures
        r == active_connected(
            *server,
            connected,
            match active_session_url {
                Some(u) => Some(u@),
                None => None,
            },
        ),
{
    if !connected {
        return false;
    }
    let url = match active_session_url {
        Some(u) => u,
        None => {
            return false;
        },
    };
    let expected = server_key(server.host.as_str(), server.port);
    match session_url_to_key(url) {
        Some(k) => text_equals(k.as_str(), server.key.as_str()) || text_equals(
            k.as_str(),
            expected.as_str(),
        ),
        None => false,
    }
}

/// Which parts of the screen's dialogs show, and the form's title.
pub struct MultiplayerDialogs {
    pub form_visible: bool,
    pub add_button_visible: bool,
    pub edit_button_visible: bool,
    pub delete_visible: bool,
    pub connect_visible: bool,
    pub form_title: Option<&'static str>,
}

/// The dialogs for the current state: the form while it is open, with the
/// button and title of its mode; the delete prompt while a deletion waits;
/// the connect notice while joining or connecting.
pub fn sync_multiplayer_dialogs(ui_state: &MultiplayerUiState, connecting: bool) -> (r: MultiplayerDialogs)
    ensures
        r.form_visible == (ui_state.form_dialog is Some),
        r.add_button_visible == (ui_state.form_dialog matches Some(f) && f.mode == ServerFormMode::Add),
        r.edit_button_visible == (ui_state.form_dialog matches Some(f) && f.mode == ServerFormMode::Edit),
        r.delete_visible == (ui_state.pending_delete_key is Some),
        r.connect_visible == (ui_state.joining_key is Some || connecting),
        match ui_state.form_dialog {
            Some(f) => r.form_title matches Some(t) && t@ == if f.mode == ServerFormMode::Add {
                "Add Server"@
            } else {
                "Edit Server"@
            },
            None => r.form_title is None,
        },
{
    let (add, edit, title) = match ui_state.form_dialog {
        Some(f) => match f.mode {
            ServerFormMode::Add => (true, false, Some("Add Server")),
            ServerFormMode::Edit => (false, true, Some("Edit Server")),
        },
        None => (false, false, None),
    };
    MultiplayerDialogs {
        form_visible: ui_state.form_dialog.is_some(),
        add_button_visible: add,
        edit_button_visible: edit,
        delete_visible: ui_state.pending_delete_key.is_some(),
        connect_visible: ui_state.joining_key.is_some() || connecting,
        form_title: title,
    }
}

/// The status line of a card: a server connected to without discovery says
/// so; else its message of the day.
pub open spec fn card_motd(server: DisplayServerEntry, connected: bool) -> Seq<char> {
    if connected && !server.online {
        "Connected (Discovery unavailable)"@
    } else {
        server.motd@
    }
}

/// The ping shown on a card.
pub open spec fn card_ping(server: DisplayServerEntry, connected: bool) -> Seq<char> {
    match server.ping_ms {
        Some(p) if server.online => crate::text::decimal_chars(p as nat) + " ms"@,
        _ => if connected {
            "connected"@
        } else {
            "-"@
        },
    }
}

/// The text of a server card.
pub open spec fn card_text(server: DisplayServerEntry, connected: bool) -> Seq<char> {
    "Server Name: "@ + server.server_name@ + "\nMOTD: "@ + card_motd(server, connected)
        + "\nServer IP: "@ + server.host@ + "\nServer Port: "@ + crate::text::decimal_chars(
        server.port as nat,
    ) + "\nPing: "@ + card_ping(server, connected)
}

/// The text of a server card; `connected` tells whether the game is connected
/// to this server.
pub fn multiplayer_card_text(server: &DisplayServerEntry, connected: bool) -> (r: String)
    ensures
        r@ == card_text(*server, connected),
{
    let mut out = to_owned_string("Server Name: ");
    out.append(server.server_name.as_str());
    out.append("\nMOTD: ");
    if connected && !server.online {
        out.append("Connected (Discovery unavailable)");
    } else {
        out.append(server.motd.as_str());
    }
    out.append("\nServer IP: ");
    out.append(server.host.as_str());
    out.append("\nServer Port: ");
    crate::text::push_decimal(&mut out, server.port as u64);
    out.append("\nPing: ");
    match server.ping_ms {
        Some(p) => {
            if server.online {
                crate::text::push_decimal(&mut out, p as u64);
                out.append(" ms");
            } else if connected {
                out.append("connected");
            } else {
                out.append("-");
            }
        },
        None => {
            if connected {
                out.append("connected");
            } else {
                out.append("-");
            }
        },
    }
    out
}

/// The question of the delete prompt: the name of the server to delete, or
/// nothing if it is not listed.
pub fn multiplayer_delete_prompt(ui_state: &MultiplayerUiState) -> (r: String)
    ensures
        r@ == "Delete server `"@ + match ui_state.pending_delete_key {
            Some(k) => match first_with_key(display_views(ui_state.display_servers@), k@, 0) {
                Some(i) => ui_state.display_servers@[i].server_name@,
                None => Seq::empty(),
            },
            None => Seq::empty(),
        } + "`?"@,
{
    let mut out = to_owned_string("Delete server `");
    match &ui_state.pending_delete_key {
        Some(k) => match find_key(&ui_state.display_servers, k.as_str()) {
            Some(i) => {
                out.append(ui_state.display_servers[i].server_name.as_str());
            },
            None => {},
        },
        None => {},
    }
    out.append("`?");
    out
}

/// After the cards were rebuilt: the cards show the listed servers.
pub fn record_rendered_cards(ui_state: &mut MultiplayerUiState)
    ensures
        key_views(final(ui_state).rendered_keys@) == list_keys(display_views(old(ui_state).display_servers@)),
        final(ui_state).display_servers == old(ui_state).display_servers,
        final(ui_state).saved_servers == old(ui_state).saved_servers,
        final(ui_state).selected_key == old(ui_state).selected_key,
{
    let mut keys: Vec<String> = Vec::new();
    let mut i: usize = 0;
    while i < ui_state.display_servers.len()
        invariant
            i <= ui_state.display_servers@.len(),
            key_views(keys@) == list_keys(display_views(ui_state.display_servers@)).subrange(0, i as int),
        decreases ui_state.display_servers.len() - i,
    {
        let ghost before = key_views(keys@);
        keys.push(ui_state.display_servers[i].key.clone());
        assert(key_views(keys@) =~= before.push(ui_state.display_servers@[i as int].key@));
        assert(key_views(keys@) =~= list_keys(display_views(ui_state.display_servers@)).subrange(
            0,
            i + 1,
        ));
        i = i + 1;
    }
    assert(list_keys(display_views(ui_state.display_servers@)).subrange(
        0,
        ui_state.display_servers@.len() as int,
    ) =~= list_keys(display_views(ui_state.display_servers@)));
    ui_state.rendered_keys = keys;
}

/// Entering the multiplayer screen with the saved servers read from disk:
/// no dialog, no join, the list rebuilt, the form emptied. Returns whether the
/// cards must be rebuilt.
pub fn enter_multiplayer_screen(
    ui_state: &mut MultiplayerUiState,
    saved_servers: Vec<SavedServerEntry>,
    form_inputs: &mut Vec<FormInputField>,
) -> (r: bool)
    ensures
        final(ui_state).saved_servers == saved_servers,
        final(ui_state).form_dialog is None,
        final(ui_state).pending_delete_key is None,
        final(ui_state).joining_key is None,
        final(ui_state).probed_servers == old(ui_state).probed_servers,
        final(ui_state).dismissed_server_keys == old(ui_state).dismissed_server_keys,
        final(ui_state).rendered_keys == old(ui_state).rendered_keys,
        rebuilt_from(
            *old(ui_state),
            *final(ui_state),
            opt_str(old(ui_state).selected_key),
            r,
        ),
        form_cleared(old(form_inputs)@, final(form_inputs)@),
{
    ui_state.saved_servers = saved_servers;
    ui_state.form_dialog = None;
    ui_state.pending_delete_key = None;
    ui_state.joining_key = None;
    proof {
        lemma_rebuild_selection(ui_state.selected_key, rebuilt_display(*ui_state));
    }
    let changed = rebuild_display_servers(ui_state);
    clear_server_form_inputs(form_inputs);
    changed
}

/// Leaving the multiplayer screen: the menu no longer counts as open and no
/// dialog or join stays pending.
pub fn exit_multiplayer_screen(
    ui_interaction: &mut crate::ui_state::UiInteractionState,
    ui_state: &mut MultiplayerUiState,
)
    ensures
        !final(ui_interaction).menu_open,
        final(ui_interaction).chat_open == old(ui_interaction).chat_open,
        final(ui_interaction).inventory_open == old(ui_interaction).inventory_open,
        final(ui_state).form_dialog is None,
        final(ui_state).pending_delete_key is None,
        final(ui_state).joining_key is None,
        same_lists(*old(ui_state), *final(ui_state)),
        final(ui_state).selected_key == old(ui_state).selected_key,
{
    ui_interaction.menu_open = false;
    ui_state.form_dialog = None;
    ui_state.pending_delete_key = None;
    ui_state.joining_key = None;
}

/// The look of a server card: an accented border for a server that answers
/// or that the game is connected to; a highlighted background when selected.
pub fn multiplayer_card_style(
    server: &DisplayServerEntry,
    connected: bool,
    selected_key: Option<&str>,
) -> (r: (bool, bool))
    ensures
        r.0 == (server.online || connected),
        r.1 == (selected_key matches Some(k) && k@ == server.key@),
{
    let selected = match selected_key {
        Some(k) => text_equals(k, server.key.as_str()),
        None => false,
    };
    (server.online || connected, selected)
}

} // verus!
