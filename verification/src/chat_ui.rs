//! The chat panel's per-frame state machine: opening and closing it, Tab
//! completion, sending the typed line, and when the chat log fades.
//!
//! The caller keeps the fade timer and the panel's alpha (floating point)
//! and applies the `ChatFade` this returns; it also sends the submitted text.
use vstd::prelude::*;
use crate::text::{trim_seq, trim, to_owned_string};
use crate::chat::{resolve_chat_suggestion, autocomplete_answer, first_other_suggestion_from};
use crate::text::{is_prefix, trim_start_seq};
use crate::ui_state::{UiInteractionState, CursorOptions, CursorGrabMode};

verus! {

/// The chat panel's state.
pub struct ChatUiState {
    pub open: bool,
    pub input: String,
    pub last_seen_line_count: usize,
    pub focus_input_next_frame: bool,
    pub suggestion: Option<String>,
}

/// The keys that went down this frame.
#[derive(Clone, Copy)]
pub struct ChatKeys {
    pub open_chat: bool,
    pub close: bool,
    pub tab: bool,
    /// Enter or the keypad's Enter.
    pub enter: bool,
}

/// What the chat log's fade does this frame.
#[derive(Clone, Copy, PartialEq, Eq, Debug, Structural)]
pub enum ChatFade {
    /// Fully shown, idle timer at zero (the panel is open).
    Shown,
    /// Fully transparent (the log has no lines yet).
    Hidden,
    /// The idle timer runs on and the alpha follows it.
    Fading,
}

/// The outcome of one frame.
pub struct ChatStep {
    /// The text to send, if a non-empty line was submitted.
    pub submit: Option<String>,
    /// Whether the idle timer restarts (and the log shows fully) before the fade applies.
    pub restart_idle: bool,
    pub fade: ChatFade,
}

/// The chat opens this frame: it is closed, no menu or inventory is open,
/// and the open key went down.
pub open spec fn chat_opens(was_open: bool, ui: UiInteractionState, keys: ChatKeys) -> bool {
    let open1 = was_open && !(ui.menu_open || ui.inventory_open);
    !open1 && !ui.menu_open && !ui.inventory_open && keys.open_chat
}

/// The chat is open after the open, panel and close checks.
pub open spec fn open_before_input(was_open: bool, ui: UiInteractionState, keys: ChatKeys) -> bool {
    let open1 = was_open && !(ui.menu_open || ui.inventory_open);
    (open1 || chat_opens(was_open, ui, keys)) && !keys.close
}

/// The close key closed the open chat this frame.
pub open spec fn closed_by_key(was_open: bool, ui: UiInteractionState, keys: ChatKeys) -> bool {
    let open1 = was_open && !(ui.menu_open || ui.inventory_open);
    (open1 || chat_opens(was_open, ui, keys)) && keys.close
}

/// The input after Tab: the suggestion replaces it when there is one.
pub open spec fn input_after_tab(input: Seq<char>, suggestion: Option<String>, tab: bool) -> Seq<char> {
    if tab && suggestion is Some {
        suggestion->0@
    } else {
        input
    }
}

/// One frame of the chat panel. A menu or the inventory closes it; the open
/// key opens it when neither is open; the close key closes it. While open,
/// Tab takes the suggestion as the input and Enter submits the trimmed input
/// (when not empty), clears it and closes the panel. The log shows fully
/// while the panel is open, is hidden while it has never had a line, and
/// fades otherwise; new lines restart its idle timer. The suggestion is left
/// as it was (see `refresh_chat_suggestion`).
pub fn update_chat_ui_state(
    chat_ui: &mut ChatUiState,
    ui_interaction: &mut UiInteractionState,
    cursor: &mut CursorOptions,
    keys: ChatKeys,
    line_count: usize,
) -> (r: ChatStep)
    ensures
        ({
            let was_open = old(chat_ui).open;
            let ui = *old(ui_interaction);
            let open2 = open_before_input(was_open, ui, keys);
            let typed = input_after_tab(old(chat_ui).input@, old(chat_ui).suggestion, keys.tab);
            let submitted = open2 && keys.enter;
            &&& final(chat_ui).last_seen_line_count == line_count
            &&& final(chat_ui).open == (open2 && !keys.enter)
            &&& final(chat_ui).focus_input_next_frame == (chat_opens(was_open, ui, keys)
                || old(chat_ui).focus_input_next_frame)
            &&& final(chat_ui).input@ == if !open2 {
                old(chat_ui).input@
            } else if keys.enter {
                Seq::empty()
            } else {
                typed
            }
            &&& final(chat_ui).suggestion == old(chat_ui).suggestion
            &&& match r.submit {
                Some(t) => submitted && t@ == trim_seq(typed) && t@.len() > 0,
                None => !(submitted && trim_seq(typed).len() > 0),
            }
            &&& r.restart_idle == ((line_count != old(chat_ui).last_seen_line_count && line_count > 0)
                || chat_opens(was_open, ui, keys))
            &&& r.fade == if open2 {
                ChatFade::Shown
            } else if line_count == 0 {
                ChatFade::Hidden
            } else {
                ChatFade::Fading
            }
            &&& *final(ui_interaction) == (UiInteractionState {
                chat_open: final(chat_ui).open || submitted || closed_by_key(was_open, ui, keys),
                ..ui
            })
            &&& final(chat_ui).open ==> final(cursor).grab_mode == CursorGrabMode::Free
                && final(cursor).visible
            &&& !final(chat_ui).open ==> *final(cursor) == *old(cursor)
        }),
{
    let mut restart_idle = false;
    if line_count != chat_ui.last_seen_line_count {
        chat_ui.last_seen_line_count = line_count;
        if line_count > 0 {
            restart_idle = true;
        }
    }
    if ui_interaction.menu_open || ui_interaction.inventory_open {
        chat_ui.open = false;
    }
    if !chat_ui.open && !ui_interaction.menu_open && !ui_interaction.inventory_open && keys.open_chat {
        chat_ui.open = true;
        restart_idle = true;
        chat_ui.focus_input_next_frame = true;
    }
    let mut consumed_close = false;
    let mut consumed_enter = false;
    if chat_ui.open && keys.close {
        chat_ui.open = false;
        consumed_close = true;
    }
    let mut submit: Option<String> = None;
    let fade;
    if chat_ui.open {
        if keys.tab {
            match &chat_ui.suggestion {
                Some(suggestion) => {
                    chat_ui.input = suggestion.clone();
                },
                None => {},
            }
        }
        if keys.enter {
            let text = trim(chat_ui.input.as_str());
            if text.unicode_len() > 0 {
                submit = Some(to_owned_string(text));
            }
            chat_ui.input = String::new();
            chat_ui.open = false;
            consumed_enter = true;
        }
        fade = ChatFade::Shown;
    } else if chat_ui.last_seen_line_count == 0 {
        fade = ChatFade::Hidden;
    } else {
        fade = ChatFade::Fading;
    }
    ui_interaction.chat_open = chat_ui.open || consumed_enter || consumed_close;
    if chat_ui.open {
        cursor.grab_mode = CursorGrabMode::Free;
        cursor.visible = true;
    }
    ChatStep { submit, restart_idle, fade }
}

/// Sets the suggestion for the current input while the chat is open (see
/// `resolve_chat_suggestion`, given the command registry's completions of
/// the input), and clears it while it is closed.
pub fn refresh_chat_suggestion(
    chat_ui: &mut ChatUiState,
    known_player_names: &Vec<String>,
    command_suggestions: &Vec<String>,
)
    ensures
        final(chat_ui).open == old(chat_ui).open,
        final(chat_ui).input == old(chat_ui).input,
        final(chat_ui).last_seen_line_count == old(chat_ui).last_seen_line_count,
        final(chat_ui).focus_input_next_frame == old(chat_ui).focus_input_next_frame,
        !old(chat_ui).open ==> final(chat_ui).suggestion is None,
        old(chat_ui).open && !is_prefix(seq!['/'], trim_start_seq(old(chat_ui).input@))
            ==> autocomplete_answer(old(chat_ui).input@, known_player_names@, final(chat_ui).suggestion),
        old(chat_ui).open && is_prefix(seq!['/'], trim_start_seq(old(chat_ui).input@)) ==> match first_other_suggestion_from(
            command_suggestions@,
            trim_seq(old(chat_ui).input@),
            0,
        ) {
            Some(k) => final(chat_ui).suggestion matches Some(s) && s@ == command_suggestions@[k]@,
            None => final(chat_ui).suggestion is None,
        },
{
    if chat_ui.open {
        chat_ui.suggestion = resolve_chat_suggestion(
            chat_ui.input.as_str(),
            known_player_names,
            command_suggestions,
        );
    } else {
        chat_ui.suggestion = None;
    }
}

/// Leaving the game: the chat closes and forgets its input and suggestion.
pub fn close_chat_ui_on_exit(chat_ui: &mut ChatUiState, ui_interaction: &mut UiInteractionState)
    ensures
        !final(chat_ui).open,
        final(chat_ui).input@ == Seq::<char>::empty(),
        final(chat_ui).suggestion is None,
        !final(chat_ui).focus_input_next_frame,
        final(chat_ui).last_seen_line_count == old(chat_ui).last_seen_line_count,
        *final(ui_interaction) == (UiInteractionState { chat_open: false, ..*old(ui_interaction) }),
{
    chat_ui.open = false;
    chat_ui.input = String::new();
    chat_ui.suggestion = None;
    chat_ui.focus_input_next_frame = false;
    ui_interaction.chat_open = false;
}

} // verus!
