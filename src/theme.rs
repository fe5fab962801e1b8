//! Which theme is active, and whether it is a dark one.
use vstd::prelude::*;

verus! {

/// The built-in light and dark presets, or colours that the user chose.
#[derive(Debug, PartialEq, Eq, Structural, Clone, Copy)]
pub enum AppTheme {
    Light,
    Dark,
    Custom,
}

impl AppTheme {
    pub open spec fn preset_spec(dark: bool) -> AppTheme {
        if dark {
            AppTheme::Dark
        } else {
            AppTheme::Light
        }
    }

    pub open spec fn from_saved_spec(colors_are_default: bool, dark: bool) -> AppTheme {
        if colors_are_default {
            AppTheme::preset_spec(dark)
        } else {
            AppTheme::Custom
        }
    }

    pub open spec fn is_dark_spec(self, custom_base_dark: bool) -> bool {
        match self {
            AppTheme::Dark => true,
            AppTheme::Light => false,
            AppTheme::Custom => custom_base_dark,
        }
    }

    /// The preset that the dark-mode switch selects.
    pub fn preset(dark: bool) -> (r: AppTheme)
        ensures
            r == AppTheme::preset_spec(dark),
    {
        if dark {
            AppTheme::Dark
        } else {
            AppTheme::Light
        }
    }

    /// The theme a saved colour scheme starts in: one of the presets when its
    /// colours are the default ones, else a custom theme.
    pub fn from_saved(colors_are_default: bool, dark: bool) -> (r: AppTheme)
        ensures
            r == AppTheme::from_saved_spec(colors_are_default, dark),
    {
        if colors_are_default {
            AppTheme::preset(dark)
        } else {
            AppTheme::Custom
        }
    }

    /// Whether the theme is dark: the presets say so themselves, a custom theme goes by
    /// its base visuals.
    pub fn is_dark(self, custom_base_dark: bool) -> (r: bool)
        ensures
            r == self.is_dark_spec(custom_base_dark),
    {
        match self {
            AppTheme::Dark => true,
            AppTheme::Light => false,
            AppTheme::Custom => custom_base_dark,
        }
    }
}

/// A preset that is saved with its default colours comes back as the same preset
/// when the scheme is loaded again, whatever the base visuals say.
pub proof fn lemma_preset_survives_restart(dark: bool, custom_base_dark: bool)
    ensures
        AppTheme::from_saved_spec(
            true,
            AppTheme::preset_spec(dark).is_dark_spec(custom_base_dark),
        ) == AppTheme::preset_spec(dark),
{
}

/// Custom colours always load as a custom theme, which is dark exactly when its base
/// visuals are.
pub proof fn lemma_custom_follows_base(dark: bool, custom_base_dark: bool)
    ensures
        AppTheme::from_saved_spec(false, dark) == AppTheme::Custom,
        AppTheme::from_saved_spec(false, dark).is_dark_spec(custom_base_dark) == custom_base_dark,
{
}

} // verus!
