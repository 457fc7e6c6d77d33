//! The parts of the `iced` toolkit that the styling rests on, and what is
//! assumed of them.

use vstd::prelude::*;

use iced_core::gradient::Gradient;
use iced_core::Background;
use iced_core::Color;
use iced_widget::style::theme::palette;
use iced_widget::style::Theme;

verus! {

/// An `iced` colour: four `f32` channels, opaque here.
#[verifier::external_type_specification]
#[verifier::external_body]
pub struct ExColor(Color);

/// An `iced` gradient, carried through without being looked into.
#[verifier::external_type_specification]
#[verifier::external_body]
pub struct ExGradient(Gradient);

/// An `iced` background: a solid colour or a gradient.
#[verifier::external_type_specification]
pub struct ExBackground(Background);

/// An `iced` theme, opaque here.
#[verifier::external_type_specification]
#[verifier::external_body]
pub struct ExTheme(Theme);

/// A background colour with the text colour that reads on it.
#[verifier::external_type_specification]
pub struct ExPair(palette::Pair);

/// The base, weak and strong background colours of a theme.
#[verifier::external_type_specification]
pub struct ExPaletteBackground(palette::Background);

/// The primary colours of a palette, opaque here.
#[verifier::external_type_specification]
#[verifier::external_body]
pub struct ExPrimary(palette::Primary);

/// The secondary colours of a palette, opaque here.
#[verifier::external_type_specification]
#[verifier::external_body]
pub struct ExSecondary(palette::Secondary);

/// The success colours of a palette, opaque here.
#[verifier::external_type_specification]
#[verifier::external_body]
pub struct ExSuccess(palette::Success);

/// The danger colours of a palette, opaque here.
#[verifier::external_type_specification]
#[verifier::external_body]
pub struct ExDanger(palette::Danger);

/// The extended palette of a theme; of it the styling reads the backgrounds.
#[verifier::external_type_specification]
pub struct ExExtended(palette::Extended);

/// The colour that `Color::from_rgb8` builds from three 8-bit channels.
pub uninterp spec fn rgb8_color(r: u8, g: u8, b: u8) -> Color;

/// Relies on `Color::from_rgb8`: each channel divided by 255, full opacity.
/// The result depends on the three channels alone.
pub assume_specification[ Color::from_rgb8 ](r: u8, g: u8, b: u8) -> (c: Color)
    ensures
        c == rgb8_color(r, g, b),
;

/// The extended palette that `Theme::extended_palette` gives for a theme.
pub uninterp spec fn extended_palette_of(t: Theme) -> palette::Extended;

/// Relies on `Theme::extended_palette`: a fixed palette for each built-in
/// theme, the stored one for a custom theme, so a function of the theme.
pub assume_specification[ Theme::extended_palette ](t: &Theme) -> (r: &palette::Extended)
    ensures
        *r == extended_palette_of(*t),
;

} // verus!
