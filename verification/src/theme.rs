//! The palette names the user cycles through. The palettes
//! themselves are terminal colors and live with the rendering shell;
//! the verified core only knows the cycle and the labels.
use vstd::prelude::*;

verus! {

#[derive(Debug, Clone, Copy, PartialEq, Eq, Structural)]
pub enum ThemeName {
    Bladerunner,
    CatppuccinMocha,
    Gruvbox,
    TokyoNight,
    RosePine,
    Monotropic,
}

/// The successor in the fixed cycle of palettes.
pub open spec fn spec_next_theme(t: ThemeName) -> ThemeName {
    match t {
        ThemeName::Bladerunner => ThemeName::CatppuccinMocha,
        ThemeName::CatppuccinMocha => ThemeName::Gruvbox,
        ThemeName::Gruvbox => ThemeName::TokyoNight,
        ThemeName::TokyoNight => ThemeName::RosePine,
        ThemeName::RosePine => ThemeName::Monotropic,
        ThemeName::Monotropic => ThemeName::Bladerunner,
    }
}

impl ThemeName {
    /// Step to the next palette, wrapping at the end of the cycle.
    pub fn next(self) -> (r: ThemeName)
        ensures
            r == spec_next_theme(self),
    {
        match self {
            ThemeName::Bladerunner => ThemeName::CatppuccinMocha,
            ThemeName::CatppuccinMocha => ThemeName::Gruvbox,
            ThemeName::Gruvbox => ThemeName::TokyoNight,
            ThemeName::TokyoNight => ThemeName::RosePine,
            ThemeName::RosePine => ThemeName::Monotropic,
            ThemeName::Monotropic => ThemeName::Bladerunner,
        }
    }

    /// The display label of the palette.
    pub fn label(self) -> (r: &'static str)
        ensures
            self is Bladerunner ==> r@ == "Blade Runner"@,
            self is CatppuccinMocha ==> r@ == "Catppuccin Mocha"@,
            self is Gruvbox ==> r@ == "Gruvbox"@,
            self is TokyoNight ==> r@ == "Tokyo Night"@,
            self is RosePine ==> r@ == "Rose Pine"@,
            self is Monotropic ==> r@ == "Monotropic"@,
    {
        match self {
            ThemeName::Bladerunner => "Blade Runner",
            ThemeName::CatppuccinMocha => "Catppuccin Mocha",
            ThemeName::Gruvbox => "Gruvbox",
            ThemeName::TokyoNight => "Tokyo Night",
            ThemeName::RosePine => "Rose Pine",
            ThemeName::Monotropic => "Monotropic",
        }
    }
}

impl Default for ThemeName {
    /// The palette a fresh configuration starts with.
    fn default() -> (r: ThemeName)
        ensures
            r is Bladerunner,
    {
        ThemeName::Bladerunner
    }
}

} // verus!
