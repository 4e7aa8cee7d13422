//! The UI's colours, and which colours buttons, server and world cards and
//! hotbar slots take in each state.
use vstd::prelude::*;
use crate::single_player::SinglePlayerPage;
use crate::text::{is_prefix, starts_with};

verus! {

/// An opaque sRGB colour, 8 bits per channel.
#[derive(Clone, Copy, PartialEq, Eq, Debug, Structural)]
pub struct Rgb8 {
    pub r: u8,
    pub g: u8,
    pub b: u8,
}

pub fn color_background() -> (r: Rgb8)
    ensures
        r == (Rgb8 { r: 0x30, g: 0x34, b: 0x40 }),
{
    Rgb8 { r: 0x30, g: 0x34, b: 0x40 }
}

pub fn color_background_hover() -> (r: Rgb8)
    ensures
        r == (Rgb8 { r: 0x39, g: 0x3d, b: 0x4a }),
{
    Rgb8 { r: 0x39, g: 0x3d, b: 0x4a }
}

pub fn color_single_player_list_background() -> (r: Rgb8)
    ensures
        r == (Rgb8 { r: 0x26, g: 0x2a, b: 0x35 }),
{
    Rgb8 { r: 0x26, g: 0x2a, b: 0x35 }
}

pub fn color_accent() -> (r: Rgb8)
    ensures
        r == (Rgb8 { r: 0x40, g: 0xc2, b: 0x99 }),
{
    Rgb8 { r: 0x40, g: 0xc2, b: 0x99 }
}

pub fn color_accent_hover() -> (r: Rgb8)
    ensures
        r == (Rgb8 { r: 0x42, g: 0xd4, b: 0xa5 }),
{
    Rgb8 { r: 0x42, g: 0xd4, b: 0xa5 }
}

/// White.
pub fn color_text() -> (r: Rgb8)
    ensures
        r == (Rgb8 { r: 0xff, g: 0xff, b: 0xff }),
{
    Rgb8 { r: 0xff, g: 0xff, b: 0xff }
}

pub fn color_text_darker() -> (r: Rgb8)
    ensures
        r == (Rgb8 { r: 0x9f, g: 0xa1, b: 0xa0 }),
{
    Rgb8 { r: 0x9f, g: 0xa1, b: 0xa0 }
}

pub fn color_server_offline_border() -> (r: Rgb8)
    ensures
        r == (Rgb8 { r: 0xd4, g: 0x4c, b: 0x4c }),
{
    Rgb8 { r: 0xd4, g: 0x4c, b: 0x4c }
}

pub fn color_server_waiting_border() -> (r: Rgb8)
    ensures
        r == (Rgb8 { r: 0xe0, g: 0x98, b: 0x2d }),
{
    Rgb8 { r: 0xe0, g: 0x98, b: 0x2d }
}

/// The tone of a button: plain, or accented (such as a selected tab).
#[derive(Clone, Copy, PartialEq, Eq, Debug, Structural)]
pub enum UiButtonTone {
    Normal,
    Accent,
}

/// A button's background and border: a plain button is the background
/// colour, lighter when hovered; an accented one is the accent colour,
/// lighter when hovered; the border is the hover colour either way.
pub fn button_colors(tone: UiButtonTone, hovered: bool) -> (r: (Rgb8, Rgb8))
    ensures
        r.1 == (Rgb8 { r: 0x39, g: 0x3d, b: 0x4a }),
        tone == UiButtonTone::Normal && !hovered ==> r.0 == (Rgb8 { r: 0x30, g: 0x34, b: 0x40 }),
        tone == UiButtonTone::Normal && hovered ==> r.0 == (Rgb8 { r: 0x39, g: 0x3d, b: 0x4a }),
        tone == UiButtonTone::Accent && !hovered ==> r.0 == (Rgb8 { r: 0x40, g: 0xc2, b: 0x99 }),
        tone == UiButtonTone::Accent && hovered ==> r.0 == (Rgb8 { r: 0x42, g: 0xd4, b: 0xa5 }),
{
    let background = match tone {
        UiButtonTone::Normal => if hovered {
            color_background_hover()
        } else {
            color_background()
        },
        UiButtonTone::Accent => if hovered {
            color_accent_hover()
        } else {
            color_accent()
        },
    };
    (background, color_background_hover())
}

/// A server card's border and background: an accent border for a server
/// that answers or that the game is connected to; the hover colour as the
/// background of the selected card.
pub fn multiplayer_card_colors(accent_border: bool, selected: bool) -> (r: (Rgb8, Rgb8))
    ensures
        r.0 == if accent_border {
            Rgb8 { r: 0x40, g: 0xc2, b: 0x99 }
        } else {
            Rgb8 { r: 0x39, g: 0x3d, b: 0x4a }
        },
        r.1 == if selected {
            Rgb8 { r: 0x39, g: 0x3d, b: 0x4a }
        } else {
            Rgb8 { r: 0x30, g: 0x34, b: 0x40 }
        },
{
    let border = if accent_border {
        color_accent()
    } else {
        color_background_hover()
    };
    let background = if selected {
        color_background_hover()
    } else {
        color_background()
    };
    (border, background)
}

/// The background and border of world card `index` on the world list: the
/// selected card is highlighted with an accent border; other cards (and
/// every card off the list page) keep their button colours (`None`).
pub fn single_player_card_colors(page: SinglePlayerPage, selected_index: Option<usize>, index: usize) -> (r:
    Option<(Rgb8, Rgb8)>)
    ensures
        r == if page == SinglePlayerPage::List && selected_index == Some(index) {
            Some((Rgb8 { r: 0x39, g: 0x3d, b: 0x4a }, Rgb8 { r: 0x40, g: 0xc2, b: 0x99 }))
        } else {
            None::<(Rgb8, Rgb8)>
        },
{
    let on_list = match page {
        SinglePlayerPage::List => true,
        SinglePlayerPage::CreateWorld => false,
    };
    let selected = match selected_index {
        Some(i) => i == index,
        None => false,
    };
    if on_list && selected {
        Some((color_background_hover(), color_accent()))
    } else {
        None
    }
}

/// A hotbar slot's border and background: the selected slot has an accent
/// border on the hover colour; the others a hover-colour border on the
/// background colour.
pub fn hotbar_slot_colors(selected: bool) -> (r: (Rgb8, Rgb8))
    ensures
        selected ==> r == (Rgb8 { r: 0x40, g: 0xc2, b: 0x99 }, Rgb8 { r: 0x39, g: 0x3d, b: 0x4a }),
        !selected ==> r == (Rgb8 { r: 0x39, g: 0x3d, b: 0x4a }, Rgb8 { r: 0x30, g: 0x34, b: 0x40 }),
{
    if selected {
        (color_accent(), color_background_hover())
    } else {
        (color_background_hover(), color_background())
    }
}

/// Whether hotbar slot number `slot_number` (1-based; 0 also names the
/// first slot) is the selected one.
pub fn hotbar_slot_selected(slot_number: usize, selected_index: usize) -> (r: bool)
    ensures
        r == ((if slot_number == 0 {
            0
        } else {
            slot_number - 1
        }) == selected_index),
{
    let index = if slot_number == 0 {
        0
    } else {
        slot_number - 1
    };
    index == selected_index
}


/// An input field's border: the accent colour while it is focused or
/// hovered, the hover colour otherwise. Its background is always the
/// background colour.
pub fn input_border_color(focused: bool, hovered: bool) -> (r: Rgb8)
    ensures
        r == if focused || hovered {
            Rgb8 { r: 0x40, g: 0xc2, b: 0x99 }
        } else {
            Rgb8 { r: 0x39, g: 0x3d, b: 0x4a }
        },
{
    if focused || hovered {
        color_accent()
    } else {
        color_background_hover()
    }
}

/// The tone a text widget may carry.
#[derive(Clone, Copy, PartialEq, Eq, Debug, Structural)]
pub enum UiTextTone {
    Heading,
    Darker,
    CardName,
    CardPing,
    TooltipName,
    TooltipKey,
}

/// The colour of a text by its tone: the darker text colour for darker and
/// ping texts, the accent for a tooltip's item name, a light grey for a
/// tooltip's key, and white for every other text.
pub fn text_tone_color(tone: Option<UiTextTone>) -> (r: Rgb8)
    ensures
        r == match tone {
            Some(UiTextTone::Darker) | Some(UiTextTone::CardPing) => Rgb8 { r: 0x9f, g: 0xa1, b: 0xa0 },
            Some(UiTextTone::TooltipName) => Rgb8 { r: 0x40, g: 0xc2, b: 0x99 },
            Some(UiTextTone::TooltipKey) => Rgb8 { r: 0xc5, g: 0xc7, b: 0xcd },
            _ => Rgb8 { r: 0xff, g: 0xff, b: 0xff },
        },
{
    match tone {
        Some(UiTextTone::Darker) => color_text_darker(),
        Some(UiTextTone::CardPing) => color_text_darker(),
        Some(UiTextTone::TooltipName) => color_accent(),
        Some(UiTextTone::TooltipKey) => Rgb8 { r: 0xc5, g: 0xc7, b: 0xcd },
        _ => color_text(),
    }
}

pub const BUTTON_ICON_NAME_PREFIX: &'static str = "Button-Icon-";

/// Whether an image named `name` is a button's item icon, sized as one.
pub fn is_button_icon_name(name: &str) -> (r: bool)
    ensures
        r == is_prefix(BUTTON_ICON_NAME_PREFIX@, name@),
{
    starts_with(name, BUTTON_ICON_NAME_PREFIX)
}


/// Which part of a scroll container a node is, by its name.
#[derive(Clone, Copy, PartialEq, Eq, Debug, Structural)]
pub enum ScrollbarPart {
    /// A horizontal scrollbar (`Div-Scrollbar-H-..`): along the bottom.
    HorizontalBar,
    /// A vertical scrollbar (`Div-Scrollbar-..`): along the right edge.
    VerticalBar,
    /// Another scrollbar: only its border is styled.
    OtherBar,
    /// A scrollbar's track (`Scroll-Track-..`).
    Track,
    /// A scrollbar's thumb (`Scroll-Thumb-..`), in the accent colour.
    Thumb,
    /// Not a part of a scrollbar.
    Unstyled,
}

pub open spec fn scrollbar_part_of(name: Seq<char>, is_scrollbar: bool) -> ScrollbarPart {
    if is_scrollbar {
        if is_prefix("Div-Scrollbar-H-"@, name) {
            ScrollbarPart::HorizontalBar
        } else if is_prefix("Div-Scrollbar-"@, name) {
            ScrollbarPart::VerticalBar
        } else {
            ScrollbarPart::OtherBar
        }
    } else if is_prefix("Scroll-Track-"@, name) {
        ScrollbarPart::Track
    } else if is_prefix("Scroll-Thumb-"@, name) {
        ScrollbarPart::Thumb
    } else {
        ScrollbarPart::Unstyled
    }
}

/// Which part of a scroll container the node named `name` is; `is_scrollbar`
/// tells whether it carries the scrollbar component.
pub fn scrollbar_part(name: &str, is_scrollbar: bool) -> (r: ScrollbarPart)
    ensures
        r == scrollbar_part_of(name@, is_scrollbar),
{
    if is_scrollbar {
        if starts_with(name, "Div-Scrollbar-H-") {
            ScrollbarPart::HorizontalBar
        } else if starts_with(name, "Div-Scrollbar-") {
            ScrollbarPart::VerticalBar
        } else {
            ScrollbarPart::OtherBar
        }
    } else if starts_with(name, "Scroll-Track-") {
        ScrollbarPart::Track
    } else if starts_with(name, "Scroll-Thumb-") {
        ScrollbarPart::Thumb
    } else {
        ScrollbarPart::Unstyled
    }
}

/// How a node treats content beyond its edge, along one axis.
#[derive(Clone, Copy, PartialEq, Eq, Debug, Structural)]
pub enum OverflowAxis {
    Visible,
    Clip,
    Hidden,
    Scroll,
}

/// One frame of styling a world or server list.
#[derive(Clone, Copy, PartialEq, Eq, Debug, Structural)]
pub struct ScrollListStep {
    /// Whether the list's size, direction, gap and padding are set.
    pub apply_layout: bool,
    /// Whether the list is marked as settled.
    pub mark_ready: bool,
    /// The list's overflow along y.
    pub overflow_y: OverflowAxis,
    /// The list's overflow along x.
    pub overflow_x: OverflowAxis,
}

/// A list that is not settled yet gets its layout; once it holds its scroll
/// content it is settled and clips (its content scrolls), before that it
/// scrolls itself. A settled list only keeps clipping while it holds its
/// content; otherwise it is left alone.
pub fn scroll_list_step(ready: bool, has_scroll_content: bool, overflow: (OverflowAxis, OverflowAxis)) -> (r:
    ScrollListStep)
    ensures
        r.apply_layout == !ready,
        r.mark_ready == (!ready && has_scroll_content),
        (r.overflow_y, r.overflow_x) == if has_scroll_content {
            (OverflowAxis::Clip, OverflowAxis::Clip)
        } else if !ready {
            (OverflowAxis::Scroll, OverflowAxis::Clip)
        } else {
            overflow
        },
{
    if !ready {
        if has_scroll_content {
            ScrollListStep {
                apply_layout: true,
                mark_ready: true,
                overflow_y: OverflowAxis::Clip,
                overflow_x: OverflowAxis::Clip,
            }
        } else {
            ScrollListStep {
                apply_layout: true,
                mark_ready: false,
                overflow_y: OverflowAxis::Scroll,
                overflow_x: OverflowAxis::Clip,
            }
        }
    } else if has_scroll_content {
        ScrollListStep {
            apply_layout: false,
            mark_ready: false,
            overflow_y: OverflowAxis::Clip,
            overflow_x: OverflowAxis::Clip,
        }
    } else {
        ScrollListStep { apply_layout: false, mark_ready: false, overflow_y: overflow.0, overflow_x: overflow.1 }
    }
}

/// A list's background and border: the world list has its own background,
/// the server list the hover colour; both have a hover-colour border.
pub fn scroll_list_colors(world_list: bool) -> (r: (Rgb8, Rgb8))
    ensures
        r.0 == if world_list {
            Rgb8 { r: 0x26, g: 0x2a, b: 0x35 }
        } else {
            Rgb8 { r: 0x39, g: 0x3d, b: 0x4a }
        },
        r.1 == (Rgb8 { r: 0x39, g: 0x3d, b: 0x4a }),
{
    let background = if world_list {
        color_single_player_list_background()
    } else {
        color_background_hover()
    };
    (background, color_background_hover())
}


/// The colour of the card's mining-level line: green where the held tool
/// meets the block's requirement, red where it does not.
pub fn mining_level_color(meets_requirement: bool) -> (r: Rgb8)
    ensures
        r == if meets_requirement {
            Rgb8 { r: 0x77, g: 0xd8, b: 0x82 }
        } else {
            Rgb8 { r: 0xf2, g: 0x66, b: 0x66 }
        },
{
    if meets_requirement {
        Rgb8 { r: 0x77, g: 0xd8, b: 0x82 }
    } else {
        Rgb8 { r: 0xf2, g: 0x66, b: 0x66 }
    }
}

} // verus!
