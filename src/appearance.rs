//! What a split looks like in one interaction state.

use vstd::prelude::*;

use iced_core::Background;
use iced_core::Color;

verus! {

/// The appearance of a split: its backgrounds, its border and its divider.
#[derive(Clone, Copy, Debug)]
pub struct Appearance {
    /// The optional background of the whole split.
    pub background: Option<Background>,
    /// The optional background of the first pane.
    pub first_background: Option<Background>,
    /// The optional background of the second pane.
    pub second_background: Option<Background>,
    /// The border width of the split, in logical pixels.
    pub border_width: u16,
    /// The border color of the split.
    pub border_color: Color,
    /// The background of the divider.
    pub divider_background: Background,
    /// The border width of the divider, in logical pixels.
    pub divider_border_width: u16,
    /// The border color of the divider.
    pub divider_border_color: Color,
}

/// The baseline appearance: one-pixel borders, the outer one in gray 0.6
/// (153 of 255) and the divider's in gray 0.8 (204 of 255), a white divider
/// and no backgrounds.
pub open spec fn default_appearance() -> Appearance {
    Appearance {
        background: None,
        first_background: None,
        second_background: None,
        border_width: 1,
        border_color: crate::toolkit::rgb8_color(153, 153, 153),
        divider_background: Background::Color(crate::toolkit::rgb8_color(255, 255, 255)),
        divider_border_width: 1,
        divider_border_color: crate::toolkit::rgb8_color(204, 204, 204),
    }
}

/// Two appearances agree on every field but the divider background.
pub open spec fn same_but_divider(a: Appearance, b: Appearance) -> bool {
    &&& a.background == b.background
    &&& a.first_background == b.first_background
    &&& a.second_background == b.second_background
    &&& a.border_width == b.border_width
    &&& a.border_color == b.border_color
    &&& a.divider_border_width == b.divider_border_width
    &&& a.divider_border_color == b.divider_border_color
}

impl Default for Appearance {
    fn default() -> (r: Self)
        ensures
            r == default_appearance(),
    {
        Appearance {
            background: None,
            first_background: None,
            second_background: None,
            border_width: 1,
            border_color: Color::from_rgb8(153, 153, 153),
            divider_background: Background::Color(Color::from_rgb8(255, 255, 255)),
            divider_border_width: 1,
            divider_border_color: Color::from_rgb8(204, 204, 204),
        }
    }
}

} // verus!
