use vstd::prelude::*;

verus! {

/// Which of the built-in application themes is in use (`Custom` for a
/// theme built from a palette).
#[derive(Debug, Clone, Copy, PartialEq, Eq, Structural)]
pub enum ThemeKind {
    Light,
    Dark,
    Dracula,
    Nord,
    SolarizedLight,
    SolarizedDark,
    GruvboxLight,
    GruvboxDark,
    CatppuccinLatte,
    CatppuccinFrappe,
    CatppuccinMacchiato,
    CatppuccinMocha,
    TokyoNight,
    TokyoNightStorm,
    TokyoNightLight,
    KanagawaWave,
    KanagawaDragon,
    KanagawaLotus,
    Moonfly,
    Nightfly,
    Oxocarbon,
    Ferra,
    Custom,
}

/// The SQL syntax-highlighting themes on offer.
#[derive(Debug, Clone, Copy, PartialEq, Eq, Structural)]
pub enum HighlighterTheme {
    SolarizedDark,
    Base16Mocha,
    Base16Ocean,
    Base16Eighties,
    InspiredGitHub,
}

/// The highlighting theme that goes with an application theme: the ones
/// with an obvious match get it, the others the one that fits their light
/// or dark mode.
pub open spec fn highlighter_for(theme: ThemeKind, is_dark: bool) -> HighlighterTheme {
    match theme {
        ThemeKind::SolarizedDark => HighlighterTheme::SolarizedDark,
        ThemeKind::CatppuccinMocha | ThemeKind::CatppuccinMacchiato
        | ThemeKind::CatppuccinFrappe => HighlighterTheme::Base16Mocha,
        ThemeKind::Nord | ThemeKind::TokyoNight | ThemeKind::TokyoNightStorm
        | ThemeKind::KanagawaWave | ThemeKind::KanagawaDragon
        | ThemeKind::KanagawaLotus => HighlighterTheme::Base16Ocean,
        ThemeKind::GruvboxDark | ThemeKind::Dracula | ThemeKind::Moonfly
        | ThemeKind::Nightfly => HighlighterTheme::Base16Eighties,
        _ => if is_dark {
            HighlighterTheme::Base16Mocha
        } else {
            HighlighterTheme::InspiredGitHub
        },
    }
}

/// Which highlighting theme each application theme gets: the named themes
/// always the same one, whether their palette is light or dark; the others
/// Base16 Mocha when dark and Inspired GitHub when light.
pub proof fn law_highlighter_table(is_dark: bool)
    ensures
        highlighter_for(ThemeKind::SolarizedDark, is_dark) == HighlighterTheme::SolarizedDark,
        highlighter_for(ThemeKind::CatppuccinMocha, is_dark) == HighlighterTheme::Base16Mocha,
        highlighter_for(ThemeKind::CatppuccinMacchiato, is_dark) == HighlighterTheme::Base16Mocha,
        highlighter_for(ThemeKind::CatppuccinFrappe, is_dark) == HighlighterTheme::Base16Mocha,
        highlighter_for(ThemeKind::Nord, is_dark) == HighlighterTheme::Base16Ocean,
        highlighter_for(ThemeKind::TokyoNight, is_dark) == HighlighterTheme::Base16Ocean,
        highlighter_for(ThemeKind::TokyoNightStorm, is_dark) == HighlighterTheme::Base16Ocean,
        highlighter_for(ThemeKind::KanagawaWave, is_dark) == HighlighterTheme::Base16Ocean,
        highlighter_for(ThemeKind::KanagawaDragon, is_dark) == HighlighterTheme::Base16Ocean,
        highlighter_for(ThemeKind::KanagawaLotus, is_dark) == HighlighterTheme::Base16Ocean,
        highlighter_for(ThemeKind::GruvboxDark, is_dark) == HighlighterTheme::Base16Eighties,
        highlighter_for(ThemeKind::Dracula, is_dark) == HighlighterTheme::Base16Eighties,
        highlighter_for(ThemeKind::Moonfly, is_dark) == HighlighterTheme::Base16Eighties,
        highlighter_for(ThemeKind::Nightfly, is_dark) == HighlighterTheme::Base16Eighties,
        forall|t: ThemeKind|
            #![trigger highlighter_for(t, is_dark)]
            t == ThemeKind::Light || t == ThemeKind::Dark || t == ThemeKind::SolarizedLight || t
                == ThemeKind::GruvboxLight || t == ThemeKind::CatppuccinLatte || t
                == ThemeKind::TokyoNightLight || t == ThemeKind::Oxocarbon || t == ThemeKind::Ferra
                || t == ThemeKind::Custom ==> highlighter_for(t, is_dark) == (if is_dark {
                HighlighterTheme::Base16Mocha
            } else {
                HighlighterTheme::InspiredGitHub
            }),
{
}

/// Picks the SQL syntax-highlighting theme that best matches the app
/// theme; `is_dark` tells whether the app theme's palette is dark.
pub fn highlighter_theme(theme: ThemeKind, is_dark: bool) -> (r: HighlighterTheme)
    ensures
        r == highlighter_for(theme, is_dark),
{
    match theme {
        ThemeKind::SolarizedDark => HighlighterTheme::SolarizedDark,
        ThemeKind::CatppuccinMocha | ThemeKind::CatppuccinMacchiato
        | ThemeKind::CatppuccinFrappe => HighlighterTheme::Base16Mocha,
        ThemeKind::Nord | ThemeKind::TokyoNight | ThemeKind::TokyoNightStorm
        | ThemeKind::KanagawaWave | ThemeKind::KanagawaDragon
        | ThemeKind::KanagawaLotus => HighlighterTheme::Base16Ocean,
        ThemeKind::GruvboxDark | ThemeKind::Dracula | ThemeKind::Moonfly
        | ThemeKind::Nightfly => HighlighterTheme::Base16Eighties,
        _ => if is_dark {
            HighlighterTheme::Base16Mocha
        } else {
            HighlighterTheme::InspiredGitHub
        },
    }
}

} // verus!
