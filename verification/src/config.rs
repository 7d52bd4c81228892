//! The settings of the source picker.

use vstd::prelude::*;

verus! {

/// The look of the picker. `C` is a color and `R` a radius.
#[derive(Debug, Clone, Copy, PartialEq)]
pub struct ScreenCastPicker<C, R> {
    pub background_color: C,
    pub accent_color: C,
    pub text_color: C,
    pub accent_text_color: C,
    pub corner_radius: R,
}

/// A part of the configuration: what it sets of the look of the picker.
#[derive(Debug, Default, Clone, Copy, PartialEq)]
pub struct ScreenCastPickerPart<C, R> {
    pub background_color: Option<C>,
    pub accent_color: Option<C>,
    pub text_color: Option<C>,
    pub accent_text_color: Option<C>,
    pub corner_radius: Option<R>,
}

/// A setting after a part of the configuration that may set it.
pub open spec fn overridden<T>(value: T, part: Option<T>) -> T {
    match part {
        Some(part) => part,
        None => value,
    }
}

fn pick<T: Copy>(value: T, part: Option<T>) -> (r: T)
    ensures
        r == overridden(value, part),
{
    match part {
        Some(part) => part,
        None => value,
    }
}

impl<C: Copy, R: Copy> ScreenCastPicker<C, R> {
    /// The settings after a part of the configuration.
    pub open spec fn merged(self, part: ScreenCastPickerPart<C, R>) -> ScreenCastPicker<C, R> {
        ScreenCastPicker {
            background_color: overridden(self.background_color, part.background_color),
            accent_color: overridden(self.accent_color, part.accent_color),
            text_color: overridden(self.text_color, part.text_color),
            accent_text_color: overridden(self.accent_text_color, part.accent_text_color),
            corner_radius: overridden(self.corner_radius, part.corner_radius),
        }
    }

    /// Takes over what a part of the configuration sets.
    pub fn merge_with(&mut self, part: &ScreenCastPickerPart<C, R>)
        ensures
            *final(self) == old(self).merged(*part),
    {
        self.background_color = pick(self.background_color, part.background_color);
        self.accent_color = pick(self.accent_color, part.accent_color);
        self.text_color = pick(self.text_color, part.text_color);
        self.accent_text_color = pick(self.accent_text_color, part.accent_text_color);
        self.corner_radius = pick(self.corner_radius, part.corner_radius);
    }
}

/// Merging the same part again changes nothing.
pub proof fn merging_twice_is_merging_once<C: Copy, R: Copy>(
    settings: ScreenCastPicker<C, R>,
    part: ScreenCastPickerPart<C, R>,
)
    ensures
        settings.merged(part).merged(part) == settings.merged(part),
{
}

} // verus!
