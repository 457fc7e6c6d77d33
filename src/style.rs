//! The styling policy of a split, and the theme's built-in one.

use vstd::prelude::*;

use iced_core::Background;
use iced_widget::style::theme::palette;
use iced_widget::style::Theme;

use crate::appearance::{default_appearance, same_but_divider, Appearance};
use crate::toolkit::extended_palette_of;

verus! {

/// A styling policy: the appearance of a split in each interaction state,
/// for a style token chosen by the caller.
///
/// Each query is a function of the policy and the token: its result is what
/// the matching `*_spec` method names. In code built without verification
/// the `*_spec` methods are plain methods too, and an implementation gives
/// from each what the matching query returns.
pub trait StyleSheet<Style> {
    /// The appearance that the policy gives in the normal state.
    spec fn active_spec(&self, style: &Style) -> Appearance;

    /// The appearance that the policy gives while the split is hovered.
    spec fn hovered_spec(&self, style: &Style) -> Appearance;

    /// The appearance that the policy gives while the divider is dragged.
    spec fn dragged_spec(&self, style: &Style) -> Appearance;

    /// The normal appearance of a split.
    fn active(&self, style: &Style) -> (r: Appearance)
        ensures
            r == self.active_spec(style),
    ;

    /// The appearance when the split is hovered.
    fn hovered(&self, style: &Style) -> (r: Appearance)
        ensures
            r == self.hovered_spec(style),
    ;

    /// The appearance when the divider of the split is dragged.
    fn dragged(&self, style: &Style) -> (r: Appearance)
        ensures
            r == self.dragged_spec(style),
    ;
}

/// A boxed policy answers each query as the policy inside it does.
impl StyleSheet<Theme> for Box<dyn StyleSheet<Theme>> {
    open spec fn active_spec(&self, style: &Theme) -> Appearance {
        (**self).active_spec(style)
    }

    open spec fn hovered_spec(&self, style: &Theme) -> Appearance {
        (**self).hovered_spec(style)
    }

    open spec fn dragged_spec(&self, style: &Theme) -> Appearance {
        (**self).dragged_spec(style)
    }

    fn active(&self, style: &Theme) -> (r: Appearance) {
        (**self).active(style)
    }

    fn hovered(&self, style: &Theme) -> (r: Appearance) {
        (**self).hovered(style)
    }

    fn dragged(&self, style: &Theme) -> (r: Appearance) {
        (**self).dragged(style)
    }
}

/// Which styling a theme applies to a split: its built-in one, or a policy
/// supplied by the caller, which is handed the theme itself. The policy's
/// type defaults to a boxed policy of any type.
pub enum SplitStyles<P = Box<dyn StyleSheet<Theme>>> {
    /// The theme's built-in styling, derived from its extended palette.
    Default,
    /// A policy of the caller's, asked with the theme as its style token.
    Custom(P),
}

impl<P: StyleSheet<Theme>> SplitStyles<P> {
    /// Creates a custom `SplitStyles` style variant that holds the given
    /// policy unchanged.
    pub fn custom(style_sheet: P) -> (r: Self)
        ensures
            r == SplitStyles::Custom(style_sheet),
    {
        SplitStyles::Custom(style_sheet)
    }
}

impl<P> Default for SplitStyles<P> {
    /// The built-in styling.
    fn default() -> (r: Self)
        ensures
            r is Default,
    {
        SplitStyles::Default
    }
}

/// The built-in appearance in the normal state, for an extended palette: the
/// divider and the border take the base background colour, the divider's
/// border the weak one, and the rest is the baseline appearance.
pub open spec fn active_of(p: palette::Extended) -> Appearance {
    Appearance {
        divider_background: Background::Color(p.background.base.color),
        divider_border_color: p.background.weak.color,
        border_color: p.background.base.color,
        ..default_appearance()
    }
}

/// The built-in appearance while hovered: the normal one with the divider
/// in the strong background colour.
pub open spec fn hovered_of(p: palette::Extended) -> Appearance {
    Appearance { divider_background: Background::Color(p.background.strong.color), ..active_of(p) }
}

/// The built-in appearance while dragged: the normal one with the divider
/// in the weak background colour.
pub open spec fn dragged_of(p: palette::Extended) -> Appearance {
    Appearance { divider_background: Background::Color(p.background.weak.color), ..active_of(p) }
}

/// The built-in normal appearance for the given extended palette.
pub fn active_with_palette(palette: &palette::Extended) -> (r: Appearance)
    ensures
        r == active_of(*palette),
{
    Appearance {
        divider_background: Background::Color(palette.background.base.color),
        divider_border_color: palette.background.weak.color,
        border_color: palette.background.base.color,
        ..Appearance::default()
    }
}

/// The built-in hovered appearance for the given extended palette.
pub fn hovered_with_palette(palette: &palette::Extended) -> (r: Appearance)
    ensures
        r == hovered_of(*palette),
{
    let active = active_with_palette(palette);
    Appearance { divider_background: Background::Color(palette.background.strong.color), ..active }
}

/// The built-in dragged appearance for the given extended palette.
pub fn dragged_with_palette(palette: &palette::Extended) -> (r: Appearance)
    ensures
        r == dragged_of(*palette),
{
    let active = active_with_palette(palette);
    Appearance { divider_background: Background::Color(palette.background.weak.color), ..active }
}

/// A theme styles a split with its own palette, unless the selector holds a
/// custom policy, to which the query is handed unchanged.
impl<P: StyleSheet<Theme>> StyleSheet<SplitStyles<P>> for Theme {
    open spec fn active_spec(&self, style: &SplitStyles<P>) -> Appearance {
        match style {
            SplitStyles::Default => active_of(extended_palette_of(*self)),
            SplitStyles::Custom(custom) => custom.active_spec(self),
        }
    }

    open spec fn hovered_spec(&self, style: &SplitStyles<P>) -> Appearance {
        match style {
            SplitStyles::Default => hovered_of(extended_palette_of(*self)),
            SplitStyles::Custom(custom) => custom.hovered_spec(self),
        }
    }

    open spec fn dragged_spec(&self, style: &SplitStyles<P>) -> Appearance {
        match style {
            SplitStyles::Default => dragged_of(extended_palette_of(*self)),
            SplitStyles::Custom(custom) => custom.dragged_spec(self),
        }
    }

    fn active(&self, style: &SplitStyles<P>) -> (r: Appearance) {
        if let SplitStyles::Custom(custom) = style {
            return custom.active(self);
        }
        let palette = self.extended_palette();
        active_with_palette(palette)
    }

    fn hovered(&self, style: &SplitStyles<P>) -> (r: Appearance) {
        if let SplitStyles::Custom(custom) = style {
            return custom.hovered(self);
        }
        let palette = self.extended_palette();
        hovered_with_palette(palette)
    }

    fn dragged(&self, style: &SplitStyles<P>) -> (r: Appearance) {
        if let SplitStyles::Custom(custom) = style {
            return custom.dragged(self);
        }
        let palette = self.extended_palette();
        dragged_with_palette(palette)
    }
}

/// Under the built-in styling, the hovered and the dragged appearance of a
/// theme differ from its normal one in the divider background alone.
pub proof fn lemma_states_differ_only_in_divider<P: StyleSheet<Theme>>(t: Theme)
    ensures
        same_but_divider(t.hovered_spec(&SplitStyles::<P>::Default), t.active_spec(&SplitStyles::<P>::Default)),
        same_but_divider(t.dragged_spec(&SplitStyles::<P>::Default), t.active_spec(&SplitStyles::<P>::Default)),
{
}

/// Under the built-in styling, the normal appearance of a theme has its
/// divider bordered in the palette's weak background colour and its outer
/// border in the base background colour.
pub proof fn lemma_default_border_colors<P: StyleSheet<Theme>>(t: Theme)
    ensures
        t.active_spec(&SplitStyles::<P>::Default).divider_border_color
            == extended_palette_of(t).background.weak.color,
        t.active_spec(&SplitStyles::<P>::Default).border_color
            == extended_palette_of(t).background.base.color,
{
}

/// With a custom policy, each query gives exactly what the policy gives for
/// the theme: nothing is changed on the way.
pub proof fn lemma_custom_delegates<P: StyleSheet<Theme>>(t: Theme, policy: P)
    ensures
        t.active_spec(&SplitStyles::Custom(policy)) == policy.active_spec(&t),
        t.hovered_spec(&SplitStyles::Custom(policy)) == policy.hovered_spec(&t),
        t.dragged_spec(&SplitStyles::Custom(policy)) == policy.dragged_spec(&t),
{
}

/// The same query on the same theme and selector gives the same appearance.
pub proof fn lemma_queries_deterministic<P: StyleSheet<Theme>>(
    t1: Theme,
    t2: Theme,
    s1: SplitStyles<P>,
    s2: SplitStyles<P>,
)
    requires
        t1 == t2,
        s1 == s2,
    ensures
        t1.active_spec(&s1) == t2.active_spec(&s2),
        t1.hovered_spec(&s1) == t2.hovered_spec(&s2),
        t1.dragged_spec(&s1) == t2.dragged_spec(&s2),
{
}

} // verus!
