use vstd::prelude::*;

verus! {

/// An opaque colour by its red, green and blue components.
#[derive(Clone, Copy, Debug, PartialEq, Eq, Structural)]
pub struct Rgb {
    pub r: u8,
    pub g: u8,
    pub b: u8,
}

/// The colour of anything that is switched on: filter icons, labels and borders.
pub open spec fn accent() -> Rgb {
    Rgb { r: 44, g: 229, b: 196 }
}

/// Icons and labels of a filter that is off.
pub open spec fn muted() -> Rgb {
    Rgb { r: 113, g: 128, b: 150 }
}

/// The mode label that names the current mode.
pub open spec fn mode_label_selected() -> Rgb {
    Rgb { r: 46, g: 53, b: 64 }
}

/// The mode label that names the other mode.
pub open spec fn mode_label_unselected() -> Rgb {
    Rgb { r: 138, g: 148, b: 166 }
}

/// Colours of the studio and the creative label, in that order.
pub open spec fn mode_label_colors_of(studio_mode: bool) -> (Rgb, Rgb) {
    if studio_mode {
        (mode_label_selected(), mode_label_unselected())
    } else {
        (mode_label_unselected(), mode_label_selected())
    }
}

/// Background of the mode switch.
pub open spec fn mode_switch_background_of(studio_mode: bool) -> Rgb {
    if studio_mode {
        Rgb { r: 142, g: 153, b: 252 }
    } else {
        Rgb { r: 203, g: 213, b: 224 }
    }
}

/// Distance of the switch handle from the switch's left edge, in pixels.
pub open spec fn mode_switch_handle_offset_of(studio_mode: bool) -> u32 {
    if studio_mode { 2 } else { 17 }
}

/// Colour of the auto gain lamp.
pub open spec fn auto_gain_lamp_of(on: bool) -> Rgb {
    if on {
        Rgb { r: 89, g: 243, b: 140 }
    } else {
        Rgb { r: 160, g: 174, b: 192 }
    }
}

/// Colour of a filter button's icon and label.
pub open spec fn filter_ink_of(active: bool) -> Rgb {
    if active { accent() } else { muted() }
}

/// Fill of a filter button: a pale tint when on, none (transparent) when off.
pub open spec fn filter_fill_of(active: bool) -> Option<Rgb> {
    if active { Some(Rgb { r: 235, g: 253, b: 250 }) } else { None }
}

/// Border of a filter button: the accent when on, none when off.
pub open spec fn filter_border_of(active: bool) -> Option<Rgb> {
    if active { Some(accent()) } else { None }
}

/// Colours of the studio and the creative label, in that order: the label
/// of the current mode is dark, the other one pale.
pub fn mode_label_colors(studio_mode: bool) -> (c: (Rgb, Rgb))
    ensures
        c == mode_label_colors_of(studio_mode),
        studio_mode ==> c.0 == (Rgb { r: 46, g: 53, b: 64 }) && c.1 == (Rgb { r: 138, g: 148, b: 166 }),
        !studio_mode ==> c.0 == (Rgb { r: 138, g: 148, b: 166 }) && c.1 == (Rgb { r: 46, g: 53, b: 64 }),
{
    let selected = Rgb { r: 46, g: 53, b: 64 };
    let unselected = Rgb { r: 138, g: 148, b: 166 };
    if studio_mode {
        (selected, unselected)
    } else {
        (unselected, selected)
    }
}

/// Background of the mode switch.
pub fn mode_switch_background(studio_mode: bool) -> (c: Rgb)
    ensures
        c == mode_switch_background_of(studio_mode),
        studio_mode ==> c == (Rgb { r: 142, g: 153, b: 252 }),
        !studio_mode ==> c == (Rgb { r: 203, g: 213, b: 224 }),
{
    if studio_mode {
        Rgb { r: 142, g: 153, b: 252 }
    } else {
        Rgb { r: 203, g: 213, b: 224 }
    }
}

/// Distance of the switch handle from the switch's left edge, in pixels:
/// left in studio mode, right in creative mode.
pub fn mode_switch_handle_offset(studio_mode: bool) -> (px: u32)
    ensures
        px == mode_switch_handle_offset_of(studio_mode),
        studio_mode ==> px == 2,
        !studio_mode ==> px == 17,
{
    if studio_mode { 2 } else { 17 }
}

/// Colour of the auto gain lamp: green when on, grey when off.
pub fn auto_gain_lamp(on: bool) -> (c: Rgb)
    ensures
        c == auto_gain_lamp_of(on),
        on ==> c == (Rgb { r: 89, g: 243, b: 140 }),
        !on ==> c == (Rgb { r: 160, g: 174, b: 192 }),
{
    if on {
        Rgb { r: 89, g: 243, b: 140 }
    } else {
        Rgb { r: 160, g: 174, b: 192 }
    }
}

/// Colour of a filter button's icon and label.
pub fn filter_ink(active: bool) -> (c: Rgb)
    ensures
        c == filter_ink_of(active),
        active ==> c == (Rgb { r: 44, g: 229, b: 196 }),
        !active ==> c == (Rgb { r: 113, g: 128, b: 150 }),
{
    if active {
        Rgb { r: 44, g: 229, b: 196 }
    } else {
        Rgb { r: 113, g: 128, b: 150 }
    }
}

/// Fill of a filter button, `None` for a transparent one.
pub fn filter_fill(active: bool) -> (c: Option<Rgb>)
    ensures
        c == filter_fill_of(active),
        active ==> c == Some(Rgb { r: 235, g: 253, b: 250 }),
        !active ==> c is None,
{
    if active {
        Some(Rgb { r: 235, g: 253, b: 250 })
    } else {
        None
    }
}

/// Border of a filter button, `None` for no border.
pub fn filter_border(active: bool) -> (c: Option<Rgb>)
    ensures
        c == filter_border_of(active),
        active ==> c == Some(Rgb { r: 44, g: 229, b: 196 }),
        !active ==> c is None,
{
    if active {
        Some(Rgb { r: 44, g: 229, b: 196 })
    } else {
        None
    }
}

/// Exactly one of the two mode labels is shown as selected, and flipping
/// the mode swaps their colours.
pub proof fn lemma_one_mode_label_selected(studio_mode: bool)
    ensures
        mode_label_colors_of(studio_mode).0 != mode_label_colors_of(studio_mode).1,
        mode_label_colors_of(studio_mode).0 == mode_label_selected() <==> studio_mode,
        mode_label_colors_of(studio_mode).1 == mode_label_selected() <==> !studio_mode,
        mode_label_colors_of(!studio_mode) == (
            mode_label_colors_of(studio_mode).1,
            mode_label_colors_of(studio_mode).0,
        ),
{
}

/// A filter button that is on shows the accent in its ink and its border
/// and has a fill; one that is off has neither border nor fill.
pub proof fn lemma_filter_style_follows_state(active: bool)
    ensures
        active ==> filter_ink_of(active) == accent() && filter_border_of(active) == Some(accent())
            && filter_fill_of(active) is Some,
        !active ==> filter_ink_of(active) != accent() && filter_border_of(active) is None
            && filter_fill_of(active) is None,
{
}

/// Number of shadow rings drawn around the panel.
pub const SHADOW_RINGS: u32 = 6;

/// Opacity of the black shadow ring `ring` steps out from the panel (the
/// first ring is 1): thirty divided by the ring's number.
pub fn shadow_alpha(ring: u32) -> (a: u8)
    requires
        ring >= 1,
    ensures
        a == 30int / (ring as int),
{
    (30 / ring) as u8
}

/// The shadow fades outwards: a ring further out is never more opaque.
pub proof fn lemma_shadow_fades(inner: u32, outer: u32)
    requires
        1 <= inner <= outer,
    ensures
        30int / (outer as int) <= 30int / (inner as int),
{
    vstd::arithmetic::div_mod::lemma_div_is_ordered_by_denominator(30, inner as int, outer as int);
}

} // verus!
