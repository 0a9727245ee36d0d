//! The selectable color themes: their order in the selector, their display
//! names, and the parsing of a stored theme name.
use vstd::prelude::*;

use crate::text::{
    all_ascii, ascii_lower, ascii_lower_char, ascii_upper_char, chars_of, is_ascii_char, lowercase,
    str_eq, to_lowercase,
};

verus! {

/// Selectable color themes.
#[derive(Debug, Clone, Copy, PartialEq, Eq, Structural)]
pub enum Theme {
    Dark,
    Light,
    Nord,
    Dracula,
    SolarizedDark,
    SolarizedLight,
    GruvboxDark,
    GruvboxLight,
    CatppuccinMocha,
    CatppuccinLatte,
    CatppuccinFrappe,
    CatppuccinMacchiato,
    TokyoNight,
    TokyoNightStorm,
    TokyoNightLight,
    OneDark,
    OneLight,
    Monokai,
    MonokaiPro,
    GithubDark,
    GithubLight,
    AyuDark,
    AyuLight,
    AyuMirage,
    RosePine,
    RosePineMoon,
    RosePineDawn,
    EverforestDark,
    EverforestLight,
    MaterialOcean,
    MaterialPalenight,
    Kanagawa,
    NightOwl,
    Zenburn,
    SynthwaveEighties,
    Cobalt2,
    HorizonDark,
}

/// All themes, in selector order.
pub open spec fn all_spec() -> Seq<Theme> {
    seq![
            Theme::Dark,
            Theme::Light,
            Theme::Nord,
            Theme::Dracula,
            Theme::SolarizedDark,
            Theme::SolarizedLight,
            Theme::GruvboxDark,
            Theme::GruvboxLight,
            Theme::CatppuccinMocha,
            Theme::CatppuccinLatte,
            Theme::CatppuccinFrappe,
            Theme::CatppuccinMacchiato,
            Theme::TokyoNight,
            Theme::TokyoNightStorm,
            Theme::TokyoNightLight,
            Theme::OneDark,
            Theme::OneLight,
            Theme::Monokai,
            Theme::MonokaiPro,
            Theme::GithubDark,
            Theme::GithubLight,
            Theme::AyuDark,
            Theme::AyuLight,
            Theme::AyuMirage,
            Theme::RosePine,
            Theme::RosePineMoon,
            Theme::RosePineDawn,
            Theme::EverforestDark,
            Theme::EverforestLight,
            Theme::MaterialOcean,
            Theme::MaterialPalenight,
            Theme::Kanagawa,
            Theme::NightOwl,
            Theme::Zenburn,
            Theme::SynthwaveEighties,
            Theme::Cobalt2,
            Theme::HorizonDark
    ]
}

/// The display name of a theme.
pub open spec fn name_spec(t: Theme) -> Seq<char> {
    match t {
            Theme::Dark => "Dark"@,
            Theme::Light => "Light"@,
            Theme::Nord => "Nord"@,
            Theme::Dracula => "Dracula"@,
            Theme::SolarizedDark => "Solarized Dark"@,
            Theme::SolarizedLight => "Solarized Light"@,
            Theme::GruvboxDark => "Gruvbox Dark"@,
            Theme::GruvboxLight => "Gruvbox Light"@,
            Theme::CatppuccinMocha => "Catppuccin Mocha"@,
            Theme::CatppuccinLatte => "Catppuccin Latte"@,
            Theme::CatppuccinFrappe => "Catppuccin Frappe"@,
            Theme::CatppuccinMacchiato => "Catppuccin Macchiato"@,
            Theme::TokyoNight => "Tokyo Night"@,
            Theme::TokyoNightStorm => "Tokyo Night Storm"@,
            Theme::TokyoNightLight => "Tokyo Night Light"@,
            Theme::OneDark => "One Dark"@,
            Theme::OneLight => "One Light"@,
            Theme::Monokai => "Monokai"@,
            Theme::MonokaiPro => "Monokai Pro"@,
            Theme::GithubDark => "GitHub Dark"@,
            Theme::GithubLight => "GitHub Light"@,
            Theme::AyuDark => "Ayu Dark"@,
            Theme::AyuLight => "Ayu Light"@,
            Theme::AyuMirage => "Ayu Mirage"@,
            Theme::RosePine => "Rose Pine"@,
            Theme::RosePineMoon => "Rose Pine Moon"@,
            Theme::RosePineDawn => "Rose Pine Dawn"@,
            Theme::EverforestDark => "Everforest Dark"@,
            Theme::EverforestLight => "Everforest Light"@,
            Theme::MaterialOcean => "Material Ocean"@,
            Theme::MaterialPalenight => "Material Palenight"@,
            Theme::Kanagawa => "Kanagawa"@,
            Theme::NightOwl => "Night Owl"@,
            Theme::Zenburn => "Zenburn"@,
            Theme::SynthwaveEighties => "Synthwave '84"@,
            Theme::Cobalt2 => "Cobalt2"@,
            Theme::HorizonDark => "Horizon Dark"@,
    }
}

/// The theme a lowercased stored name denotes.
pub open spec fn theme_for_lower(l: Seq<char>) -> Option<Theme> {
    if l == "dark"@ {
        Some(Theme::Dark)
    } else if l == "light"@ {
        Some(Theme::Light)
    } else if l == "nord"@ {
        Some(Theme::Nord)
    } else if l == "dracula"@ {
        Some(Theme::Dracula)
    } else if l == "solarized dark"@ || l == "solarized_dark"@ {
        Some(Theme::SolarizedDark)
    } else if l == "solarized light"@ || l == "solarized_light"@ {
        Some(Theme::SolarizedLight)
    } else if l == "gruvbox dark"@ || l == "gruvbox_dark"@ {
        Some(Theme::GruvboxDark)
    } else if l == "gruvbox light"@ || l == "gruvbox_light"@ {
        Some(Theme::GruvboxLight)
    } else if l == "catppuccin mocha"@ || l == "catppuccin_mocha"@ {
        Some(Theme::CatppuccinMocha)
    } else if l == "catppuccin latte"@ || l == "catppuccin_latte"@ {
        Some(Theme::CatppuccinLatte)
    } else if l == "catppuccin frappe"@ || l == "catppuccin_frappe"@ {
        Some(Theme::CatppuccinFrappe)
    } else if l == "catppuccin macchiato"@ || l == "catppuccin_macchiato"@ {
        Some(Theme::CatppuccinMacchiato)
    } else if l == "tokyo night"@ || l == "tokyo_night"@ {
        Some(Theme::TokyoNight)
    } else if l == "tokyo night storm"@ || l == "tokyo_night_storm"@ {
        Some(Theme::TokyoNightStorm)
    } else if l == "tokyo night light"@ || l == "tokyo_night_light"@ {
        Some(Theme::TokyoNightLight)
    } else if l == "one dark"@ || l == "one_dark"@ {
        Some(Theme::OneDark)
    } else if l == "one light"@ || l == "one_light"@ {
        Some(Theme::OneLight)
    } else if l == "monokai"@ {
        Some(Theme::Monokai)
    } else if l == "monokai pro"@ || l == "monokai_pro"@ {
        Some(Theme::MonokaiPro)
    } else if l == "github dark"@ || l == "github_dark"@ {
        Some(Theme::GithubDark)
    } else if l == "github light"@ || l == "github_light"@ {
        Some(Theme::GithubLight)
    } else if l == "ayu dark"@ || l == "ayu_dark"@ {
        Some(Theme::AyuDark)
    } else if l == "ayu light"@ || l == "ayu_light"@ {
        Some(Theme::AyuLight)
    } else if l == "ayu mirage"@ || l == "ayu_mirage"@ {
        Some(Theme::AyuMirage)
    } else if l == "rose pine"@ || l == "rose_pine"@ {
        Some(Theme::RosePine)
    } else if l == "rose pine moon"@ || l == "rose_pine_moon"@ {
        Some(Theme::RosePineMoon)
    } else if l == "rose pine dawn"@ || l == "rose_pine_dawn"@ {
        Some(Theme::RosePineDawn)
    } else if l == "everforest dark"@ || l == "everforest_dark"@ {
        Some(Theme::EverforestDark)
    } else if l == "everforest light"@ || l == "everforest_light"@ {
        Some(Theme::EverforestLight)
    } else if l == "material ocean"@ || l == "material_ocean"@ {
        Some(Theme::MaterialOcean)
    } else if l == "material palenight"@ || l == "material_palenight"@ {
        Some(Theme::MaterialPalenight)
    } else if l == "kanagawa"@ {
        Some(Theme::Kanagawa)
    } else if l == "night owl"@ || l == "night_owl"@ {
        Some(Theme::NightOwl)
    } else if l == "zenburn"@ {
        Some(Theme::Zenburn)
    } else if l == "synthwave '84"@ || l == "synthwave 84"@ || l == "synthwave_84"@ || l == "synthwave_eighties"@ {
        Some(Theme::SynthwaveEighties)
    } else if l == "cobalt2"@ || l == "cobalt 2"@ {
        Some(Theme::Cobalt2)
    } else if l == "horizon dark"@ || l == "horizon_dark"@ {
        Some(Theme::HorizonDark)
    } else {
        None
    }
}

/// The theme a stored name denotes, ignoring case; `None` for an unknown name.
pub open spec fn theme_for(s: Seq<char>) -> Option<Theme> {
    theme_for_lower(lowercase(s))
}

fn theme_for_lowered(l: &str) -> (r: Option<Theme>)
    ensures
        r == theme_for_lower(l@),
{
    if str_eq(l, "dark") {
        Some(Theme::Dark)
    } else if str_eq(l, "light") {
        Some(Theme::Light)
    } else if str_eq(l, "nord") {
        Some(Theme::Nord)
    } else if str_eq(l, "dracula") {
        Some(Theme::Dracula)
    } else if str_eq(l, "solarized dark") || str_eq(l, "solarized_dark") {
        Some(Theme::SolarizedDark)
    } else if str_eq(l, "solarized light") || str_eq(l, "solarized_light") {
        Some(Theme::SolarizedLight)
    } else if str_eq(l, "gruvbox dark") || str_eq(l, "gruvbox_dark") {
        Some(Theme::GruvboxDark)
    } else if str_eq(l, "gruvbox light") || str_eq(l, "gruvbox_light") {
        Some(Theme::GruvboxLight)
    } else if str_eq(l, "catppuccin mocha") || str_eq(l, "catppuccin_mocha") {
        Some(Theme::CatppuccinMocha)
    } else if str_eq(l, "catppuccin latte") || str_eq(l, "catppuccin_latte") {
        Some(Theme::CatppuccinLatte)
    } else if str_eq(l, "catppuccin frappe") || str_eq(l, "catppuccin_frappe") {
        Some(Theme::CatppuccinFrappe)
    } else if str_eq(l, "catppuccin macchiato") || str_eq(l, "catppuccin_macchiato") {
        Some(Theme::CatppuccinMacchiato)
    } else if str_eq(l, "tokyo night") || str_eq(l, "tokyo_night") {
        Some(Theme::TokyoNight)
    } else if str_eq(l, "tokyo night storm") || str_eq(l, "tokyo_night_storm") {
        Some(Theme::TokyoNightStorm)
    } else if str_eq(l, "tokyo night light") || str_eq(l, "tokyo_night_light") {
        Some(Theme::TokyoNightLight)
    } else if str_eq(l, "one dark") || str_eq(l, "one_dark") {
        Some(Theme::OneDark)
    } else if str_eq(l, "one light") || str_eq(l, "one_light") {
        Some(Theme::OneLight)
    } else if str_eq(l, "monokai") {
        Some(Theme::Monokai)
    } else if str_eq(l, "monokai pro") || str_eq(l, "monokai_pro") {
        Some(Theme::MonokaiPro)
    } else if str_eq(l, "github dark") || str_eq(l, "github_dark") {
        Some(Theme::GithubDark)
    } else if str_eq(l, "github light") || str_eq(l, "github_light") {
        Some(Theme::GithubLight)
    } else if str_eq(l, "ayu dark") || str_eq(l, "ayu_dark") {
        Some(Theme::AyuDark)
    } else if str_eq(l, "ayu light") || str_eq(l, "ayu_light") {
        Some(Theme::AyuLight)
    } else if str_eq(l, "ayu mirage") || str_eq(l, "ayu_mirage") {
        Some(Theme::AyuMirage)
    } else if str_eq(l, "rose pine") || str_eq(l, "rose_pine") {
        Some(Theme::RosePine)
    } else if str_eq(l, "rose pine moon") || str_eq(l, "rose_pine_moon") {
        Some(Theme::RosePineMoon)
    } else if str_eq(l, "rose pine dawn") || str_eq(l, "rose_pine_dawn") {
        Some(Theme::RosePineDawn)
    } else if str_eq(l, "everforest dark") || str_eq(l, "everforest_dark") {
        Some(Theme::EverforestDark)
    } else if str_eq(l, "everforest light") || str_eq(l, "everforest_light") {
        Some(Theme::EverforestLight)
    } else if str_eq(l, "material ocean") || str_eq(l, "material_ocean") {
        Some(Theme::MaterialOcean)
    } else if str_eq(l, "material palenight") || str_eq(l, "material_palenight") {
        Some(Theme::MaterialPalenight)
    } else if str_eq(l, "kanagawa") {
        Some(Theme::Kanagawa)
    } else if str_eq(l, "night owl") || str_eq(l, "night_owl") {
        Some(Theme::NightOwl)
    } else if str_eq(l, "zenburn") {
        Some(Theme::Zenburn)
    } else if str_eq(l, "synthwave '84") || str_eq(l, "synthwave 84") || str_eq(l, "synthwave_84") || str_eq(l, "synthwave_eighties") {
        Some(Theme::SynthwaveEighties)
    } else if str_eq(l, "cobalt2") || str_eq(l, "cobalt 2") {
        Some(Theme::Cobalt2)
    } else if str_eq(l, "horizon dark") || str_eq(l, "horizon_dark") {
        Some(Theme::HorizonDark)
    } else {
        None
    }
}

impl Theme {
    /// All themes, in the order the selector lists them.
    pub fn all() -> (r: Vec<Theme>)
        ensures
            r@ == all_spec(),
    {
        let r = vec![
            Theme::Dark,
            Theme::Light,
            Theme::Nord,
            Theme::Dracula,
            Theme::SolarizedDark,
            Theme::SolarizedLight,
            Theme::GruvboxDark,
            Theme::GruvboxLight,
            Theme::CatppuccinMocha,
            Theme::CatppuccinLatte,
            Theme::CatppuccinFrappe,
            Theme::CatppuccinMacchiato,
            Theme::TokyoNight,
            Theme::TokyoNightStorm,
            Theme::TokyoNightLight,
            Theme::OneDark,
            Theme::OneLight,
            Theme::Monokai,
            Theme::MonokaiPro,
            Theme::GithubDark,
            Theme::GithubLight,
            Theme::AyuDark,
            Theme::AyuLight,
            Theme::AyuMirage,
            Theme::RosePine,
            Theme::RosePineMoon,
            Theme::RosePineDawn,
            Theme::EverforestDark,
            Theme::EverforestLight,
            Theme::MaterialOcean,
            Theme::MaterialPalenight,
            Theme::Kanagawa,
            Theme::NightOwl,
            Theme::Zenburn,
            Theme::SynthwaveEighties,
            Theme::Cobalt2,
            Theme::HorizonDark
        ];
        assert(r@ =~= all_spec());
        r
    }

    /// The human-readable name shown in the selector and stored in the config.
    pub fn name(self) -> (r: &'static str)
        ensures
            r@ == name_spec(self),
    {
        match self {
            Theme::Dark => "Dark",
            Theme::Light => "Light",
            Theme::Nord => "Nord",
            Theme::Dracula => "Dracula",
            Theme::SolarizedDark => "Solarized Dark",
            Theme::SolarizedLight => "Solarized Light",
            Theme::GruvboxDark => "Gruvbox Dark",
            Theme::GruvboxLight => "Gruvbox Light",
            Theme::CatppuccinMocha => "Catppuccin Mocha",
            Theme::CatppuccinLatte => "Catppuccin Latte",
            Theme::CatppuccinFrappe => "Catppuccin Frappe",
            Theme::CatppuccinMacchiato => "Catppuccin Macchiato",
            Theme::TokyoNight => "Tokyo Night",
            Theme::TokyoNightStorm => "Tokyo Night Storm",
            Theme::TokyoNightLight => "Tokyo Night Light",
            Theme::OneDark => "One Dark",
            Theme::OneLight => "One Light",
            Theme::Monokai => "Monokai",
            Theme::MonokaiPro => "Monokai Pro",
            Theme::GithubDark => "GitHub Dark",
            Theme::GithubLight => "GitHub Light",
            Theme::AyuDark => "Ayu Dark",
            Theme::AyuLight => "Ayu Light",
            Theme::AyuMirage => "Ayu Mirage",
            Theme::RosePine => "Rose Pine",
            Theme::RosePineMoon => "Rose Pine Moon",
            Theme::RosePineDawn => "Rose Pine Dawn",
            Theme::EverforestDark => "Everforest Dark",
            Theme::EverforestLight => "Everforest Light",
            Theme::MaterialOcean => "Material Ocean",
            Theme::MaterialPalenight => "Material Palenight",
            Theme::Kanagawa => "Kanagawa",
            Theme::NightOwl => "Night Owl",
            Theme::Zenburn => "Zenburn",
            Theme::SynthwaveEighties => "Synthwave '84",
            Theme::Cobalt2 => "Cobalt2",
            Theme::HorizonDark => "Horizon Dark",
        }
    }

    /// Parses a stored theme name, ignoring case and accepting underscores
    /// for spaces; `None` for an unknown name.
    pub fn from_name(s: &str) -> (r: Option<Theme>)
        ensures
            r == theme_for(s@),
    {
        let l = to_lowercase(s);
        theme_for_lowered(l.as_str())
    }
}


impl std::str::FromStr for Theme {
    type Err = ();

    fn from_str(s: &str) -> (r: Result<Theme, ()>)
        ensures
            r == (match theme_for(s@) {
                Some(t) => Ok::<Theme, ()>(t),
                None => Err(()),
            }),
    {
        match Theme::from_name(s) {
            Some(t) => Ok(t),
            None => Err(()),
        }
    }
}

/// Parsing a theme's display name gives the theme back.
#[verifier::rlimit(100)]
pub proof fn lemma_theme_name_round_trip(t: Theme)
    ensures
        theme_for(name_spec(t)) == Some(t),
        all_ascii(name_spec(t)),
{
    reveal_strlit("ayu dark");
    reveal_strlit("ayu light");
    reveal_strlit("ayu mirage");
    reveal_strlit("ayu_dark");
    reveal_strlit("ayu_light");
    reveal_strlit("ayu_mirage");
    reveal_strlit("catppuccin frappe");
    reveal_strlit("catppuccin latte");
    reveal_strlit("catppuccin macchiato");
    reveal_strlit("catppuccin mocha");
    reveal_strlit("catppuccin_frappe");
    reveal_strlit("catppuccin_latte");
    reveal_strlit("catppuccin_macchiato");
    reveal_strlit("catppuccin_mocha");
    reveal_strlit("cobalt 2");
    reveal_strlit("cobalt2");
    reveal_strlit("dark");
    reveal_strlit("dracula");
    reveal_strlit("everforest dark");
    reveal_strlit("everforest light");
    reveal_strlit("everforest_dark");
    reveal_strlit("everforest_light");
    reveal_strlit("github dark");
    reveal_strlit("github light");
    reveal_strlit("github_dark");
    reveal_strlit("github_light");
    reveal_strlit("gruvbox dark");
    reveal_strlit("gruvbox light");
    reveal_strlit("gruvbox_dark");
    reveal_strlit("gruvbox_light");
    reveal_strlit("horizon dark");
    reveal_strlit("horizon_dark");
    reveal_strlit("kanagawa");
    reveal_strlit("light");
    reveal_strlit("material ocean");
    reveal_strlit("material palenight");
    reveal_strlit("material_ocean");
    reveal_strlit("material_palenight");
    reveal_strlit("monokai");
    reveal_strlit("monokai pro");
    reveal_strlit("monokai_pro");
    reveal_strlit("night owl");
    reveal_strlit("night_owl");
    reveal_strlit("nord");
    reveal_strlit("one dark");
    reveal_strlit("one light");
    reveal_strlit("one_dark");
    reveal_strlit("one_light");
    reveal_strlit("rose pine");
    reveal_strlit("rose pine dawn");
    reveal_strlit("rose pine moon");
    reveal_strlit("rose_pine");
    reveal_strlit("rose_pine_dawn");
    reveal_strlit("rose_pine_moon");
    reveal_strlit("solarized dark");
    reveal_strlit("solarized light");
    reveal_strlit("solarized_dark");
    reveal_strlit("solarized_light");
    reveal_strlit("synthwave '84");
    reveal_strlit("synthwave 84");
    reveal_strlit("synthwave_84");
    reveal_strlit("synthwave_eighties");
    reveal_strlit("tokyo night");
    reveal_strlit("tokyo night light");
    reveal_strlit("tokyo night storm");
    reveal_strlit("tokyo_night");
    reveal_strlit("tokyo_night_light");
    reveal_strlit("tokyo_night_storm");
    reveal_strlit("zenburn");
    match t {
        Theme::Dark => {
            reveal_strlit("Dark");
            reveal_strlit("dark");
            assert(all_ascii("Dark"@));
            assert(ascii_lower("Dark"@) =~= "dark"@);
            assert(lowercase("Dark"@) == "dark"@);
            assert(theme_for_lower("dark"@) == Some(t));
            assert(lowercase("Dark"@) == "dark"@);
            assert(theme_for_lower("dark"@) == Some(Theme::Dark));
            assert(name_spec(t) == "Dark"@);
            assert(theme_for(name_spec(t)) == Some(Theme::Dark));
        },
        Theme::Light => {
            reveal_strlit("Light");
            reveal_strlit("light");
            assert(all_ascii("Light"@));
            assert(ascii_lower("Light"@) =~= "light"@);
            assert(lowercase("Light"@) == "light"@);
            assert(theme_for_lower("light"@) == Some(t));
        },
        Theme::Nord => {
            reveal_strlit("Nord");
            reveal_strlit("nord");
            assert(all_ascii("Nord"@));
            assert(ascii_lower("Nord"@) =~= "nord"@);
            assert(lowercase("Nord"@) == "nord"@);
            assert("nord"@[0] != "dark"@[0]);
            assert(theme_for_lower("nord"@) == Some(t));
        },
        Theme::Dracula => {
            reveal_strlit("Dracula");
            reveal_strlit("dracula");
            assert(all_ascii("Dracula"@));
            assert(ascii_lower("Dracula"@) =~= "dracula"@);
            assert(lowercase("Dracula"@) == "dracula"@);
            assert(theme_for_lower("dracula"@) == Some(t));
        },
        Theme::SolarizedDark => {
            reveal_strlit("Solarized Dark");
            reveal_strlit("solarized dark");
            assert(all_ascii("Solarized Dark"@));
            assert(ascii_lower("Solarized Dark"@) =~= "solarized dark"@);
            assert(lowercase("Solarized Dark"@) == "solarized dark"@);
            assert(theme_for_lower("solarized dark"@) == Some(t));
        },
        Theme::SolarizedLight => {
            reveal_strlit("Solarized Light");
            reveal_strlit("solarized light");
            assert(all_ascii("Solarized Light"@));
            assert(ascii_lower("Solarized Light"@) =~= "solarized light"@);
            assert(lowercase("Solarized Light"@) == "solarized light"@);
            assert(theme_for_lower("solarized light"@) == Some(t));
        },
        Theme::GruvboxDark => {
            reveal_strlit("Gruvbox Dark");
            reveal_strlit("gruvbox dark");
            assert(all_ascii("Gruvbox Dark"@));
            assert(ascii_lower("Gruvbox Dark"@) =~= "gruvbox dark"@);
            assert(lowercase("Gruvbox Dark"@) == "gruvbox dark"@);
            assert(theme_for_lower("gruvbox dark"@) == Some(t));
        },
        Theme::GruvboxLight => {
            reveal_strlit("Gruvbox Light");
            reveal_strlit("gruvbox light");
            assert(all_ascii("Gruvbox Light"@));
            assert(ascii_lower("Gruvbox Light"@) =~= "gruvbox light"@);
            assert(lowercase("Gruvbox Light"@) == "gruvbox light"@);
            assert(theme_for_lower("gruvbox light"@) == Some(t));
        },
        Theme::CatppuccinMocha => {
            reveal_strlit("Catppuccin Mocha");
            reveal_strlit("catppuccin mocha");
            assert(all_ascii("Catppuccin Mocha"@));
            assert(ascii_lower("Catppuccin Mocha"@) =~= "catppuccin mocha"@);
            assert(lowercase("Catppuccin Mocha"@) == "catppuccin mocha"@);
            assert(theme_for_lower("catppuccin mocha"@) == Some(t));
        },
        Theme::CatppuccinLatte => {
            reveal_strlit("Catppuccin Latte");
            reveal_strlit("catppuccin latte");
            assert(all_ascii("Catppuccin Latte"@));
            assert(ascii_lower("Catppuccin Latte"@) =~= "catppuccin latte"@);
            assert(lowercase("Catppuccin Latte"@) == "catppuccin latte"@);
            assert("catppuccin latte"@[11] != "catppuccin mocha"@[11]);
            assert("catppuccin latte"@[10] != "catppuccin_mocha"@[10]);
            assert(theme_for_lower("catppuccin latte"@) == Some(t));
        },
        Theme::CatppuccinFrappe => {
            reveal_strlit("Catppuccin Frappe");
            reveal_strlit("catppuccin frappe");
            assert(all_ascii("Catppuccin Frappe"@));
            assert(ascii_lower("Catppuccin Frappe"@) =~= "catppuccin frappe"@);
            assert(lowercase("Catppuccin Frappe"@) == "catppuccin frappe"@);
            assert(theme_for_lower("catppuccin frappe"@) == Some(t));
        },
        Theme::CatppuccinMacchiato => {
            reveal_strlit("Catppuccin Macchiato");
            reveal_strlit("catppuccin macchiato");
            assert(all_ascii("Catppuccin Macchiato"@));
            assert(ascii_lower("Catppuccin Macchiato"@) =~= "catppuccin macchiato"@);
            assert(lowercase("Catppuccin Macchiato"@) == "catppuccin macchiato"@);
            assert(theme_for_lower("catppuccin macchiato"@) == Some(t));
        },
        Theme::TokyoNight => {
            reveal_strlit("Tokyo Night");
            reveal_strlit("tokyo night");
            assert(all_ascii("Tokyo Night"@));
            assert(ascii_lower("Tokyo Night"@) =~= "tokyo night"@);
            assert(lowercase("Tokyo Night"@) == "tokyo night"@);
            assert(theme_for_lower("tokyo night"@) == Some(t));
        },
        Theme::TokyoNightStorm => {
            reveal_strlit("Tokyo Night Storm");
            reveal_strlit("tokyo night storm");
            assert(all_ascii("Tokyo Night Storm"@));
            assert(ascii_lower("Tokyo Night Storm"@) =~= "tokyo night storm"@);
            assert(lowercase("Tokyo Night Storm"@) == "tokyo night storm"@);
            assert("tokyo night storm"@[0] != "catppuccin frappe"@[0]);
            assert("tokyo night storm"@[0] != "catppuccin_frappe"@[0]);
            assert(theme_for_lower("tokyo night storm"@) == Some(t));
        },
        Theme::TokyoNightLight => {
            reveal_strlit("Tokyo Night Light");
            reveal_strlit("tokyo night light");
            assert(all_ascii("Tokyo Night Light"@));
            assert(ascii_lower("Tokyo Night Light"@) =~= "tokyo night light"@);
            assert(lowercase("Tokyo Night Light"@) == "tokyo night light"@);
            assert("tokyo night light"@[0] != "catppuccin frappe"@[0]);
            assert("tokyo night light"@[0] != "catppuccin_frappe"@[0]);
            assert("tokyo night light"@[12] != "tokyo night storm"@[12]);
            assert("tokyo night light"@[5] != "tokyo_night_storm"@[5]);
            assert(theme_for_lower("tokyo night light"@) == Some(t));
        },
        Theme::OneDark => {
            reveal_strlit("One Dark");
            reveal_strlit("one dark");
            assert(all_ascii("One Dark"@));
            assert(ascii_lower("One Dark"@) =~= "one dark"@);
            assert(lowercase("One Dark"@) == "one dark"@);
            assert(theme_for_lower("one dark"@) == Some(t));
        },
        Theme::OneLight => {
            reveal_strlit("One Light");
            reveal_strlit("one light");
            assert(all_ascii("One Light"@));
            assert(ascii_lower("One Light"@) =~= "one light"@);
            assert(lowercase("One Light"@) == "one light"@);
            assert(theme_for_lower("one light"@) == Some(t));
        },
        Theme::Monokai => {
            reveal_strlit("Monokai");
            reveal_strlit("monokai");
            assert(all_ascii("Monokai"@));
            assert(ascii_lower("Monokai"@) =~= "monokai"@);
            assert(lowercase("Monokai"@) == "monokai"@);
            assert("monokai"@[0] != "dracula"@[0]);
            assert(theme_for_lower("monokai"@) == Some(t));
        },
        Theme::MonokaiPro => {
            reveal_strlit("Monokai Pro");
            reveal_strlit("monokai pro");
            assert(all_ascii("Monokai Pro"@));
            assert(ascii_lower("Monokai Pro"@) =~= "monokai pro"@);
            assert(lowercase("Monokai Pro"@) == "monokai pro"@);
            assert("monokai pro"@[0] != "tokyo night"@[0]);
            assert("monokai pro"@[0] != "tokyo_night"@[0]);
            assert(theme_for_lower("monokai pro"@) == Some(t));
        },
        Theme::GithubDark => {
            reveal_strlit("GitHub Dark");
            reveal_strlit("github dark");
            assert(all_ascii("GitHub Dark"@));
            assert(ascii_lower("GitHub Dark"@) =~= "github dark"@);
            assert(lowercase("GitHub Dark"@) == "github dark"@);
            assert("github dark"@[0] != "tokyo night"@[0]);
            assert("github dark"@[0] != "tokyo_night"@[0]);
            assert("github dark"@[0] != "monokai pro"@[0]);
            assert("github dark"@[0] != "monokai_pro"@[0]);
            assert(theme_for_lower("github dark"@) == Some(t));
        },
        Theme::GithubLight => {
            reveal_strlit("GitHub Light");
            reveal_strlit("github light");
            assert(all_ascii("GitHub Light"@));
            assert(ascii_lower("GitHub Light"@) =~= "github light"@);
            assert(lowercase("GitHub Light"@) == "github light"@);
            assert("github light"@[1] != "gruvbox dark"@[1]);
            assert("github light"@[1] != "gruvbox_dark"@[1]);
            assert(theme_for_lower("github light"@) == Some(t));
        },
        Theme::AyuDark => {
            reveal_strlit("Ayu Dark");
            reveal_strlit("ayu dark");
            assert(all_ascii("Ayu Dark"@));
            assert(ascii_lower("Ayu Dark"@) =~= "ayu dark"@);
            assert(lowercase("Ayu Dark"@) == "ayu dark"@);
            assert("ayu dark"@[0] != "one dark"@[0]);
            assert("ayu dark"@[0] != "one_dark"@[0]);
            assert(theme_for_lower("ayu dark"@) == Some(t));
        },
        Theme::AyuLight => {
            reveal_strlit("Ayu Light");
            reveal_strlit("ayu light");
            assert(all_ascii("Ayu Light"@));
            assert(ascii_lower("Ayu Light"@) =~= "ayu light"@);
            assert(lowercase("Ayu Light"@) == "ayu light"@);
            assert("ayu light"@[0] != "one light"@[0]);
            assert("ayu light"@[0] != "one_light"@[0]);
            assert(theme_for_lower("ayu light"@) == Some(t));
        },
        Theme::AyuMirage => {
            reveal_strlit("Ayu Mirage");
            reveal_strlit("ayu mirage");
            assert(all_ascii("Ayu Mirage"@));
            assert(ascii_lower("Ayu Mirage"@) =~= "ayu mirage"@);
            assert(lowercase("Ayu Mirage"@) == "ayu mirage"@);
            assert(theme_for_lower("ayu mirage"@) == Some(t));
        },
        Theme::RosePine => {
            reveal_strlit("Rose Pine");
            reveal_strlit("rose pine");
            assert(all_ascii("Rose Pine"@));
            assert(ascii_lower("Rose Pine"@) =~= "rose pine"@);
            assert(lowercase("Rose Pine"@) == "rose pine"@);
            assert("rose pine"@[0] != "one light"@[0]);
            assert("rose pine"@[0] != "one_light"@[0]);
            assert("rose pine"@[0] != "ayu light"@[0]);
            assert("rose pine"@[0] != "ayu_light"@[0]);
            assert(theme_for_lower("rose pine"@) == Some(t));
        },
        Theme::RosePineMoon => {
            reveal_strlit("Rose Pine Moon");
            reveal_strlit("rose pine moon");
            assert(all_ascii("Rose Pine Moon"@));
            assert(ascii_lower("Rose Pine Moon"@) =~= "rose pine moon"@);
            assert(lowercase("Rose Pine Moon"@) == "rose pine moon"@);
            assert("rose pine moon"@[0] != "solarized dark"@[0]);
            assert("rose pine moon"@[0] != "solarized_dark"@[0]);
            assert(theme_for_lower("rose pine moon"@) == Some(t));
        },
        Theme::RosePineDawn => {
            reveal_strlit("Rose Pine Dawn");
            reveal_strlit("rose pine dawn");
            assert(all_ascii("Rose Pine Dawn"@));
            assert(ascii_lower("Rose Pine Dawn"@) =~= "rose pine dawn"@);
            assert(lowercase("Rose Pine Dawn"@) == "rose pine dawn"@);
            assert("rose pine dawn"@[0] != "solarized dark"@[0]);
            assert("rose pine dawn"@[0] != "solarized_dark"@[0]);
            assert("rose pine dawn"@[10] != "rose pine moon"@[10]);
            assert("rose pine dawn"@[4] != "rose_pine_moon"@[4]);
            assert(theme_for_lower("rose pine dawn"@) == Some(t));
        },
        Theme::EverforestDark => {
            reveal_strlit("Everforest Dark");
            reveal_strlit("everforest dark");
            assert(all_ascii("Everforest Dark"@));
            assert(ascii_lower("Everforest Dark"@) =~= "everforest dark"@);
            assert(lowercase("Everforest Dark"@) == "everforest dark"@);
            assert("everforest dark"@[0] != "solarized light"@[0]);
            assert("everforest dark"@[0] != "solarized_light"@[0]);
            assert(theme_for_lower("everforest dark"@) == Some(t));
        },
        Theme::EverforestLight => {
            reveal_strlit("Everforest Light");
            reveal_strlit("everforest light");
            assert(all_ascii("Everforest Light"@));
            assert(ascii_lower("Everforest Light"@) =~= "everforest light"@);
            assert(lowercase("Everforest Light"@) == "everforest light"@);
            assert("everforest light"@[0] != "catppuccin mocha"@[0]);
            assert("everforest light"@[0] != "catppuccin_mocha"@[0]);
            assert("everforest light"@[0] != "catppuccin latte"@[0]);
            assert("everforest light"@[0] != "catppuccin_latte"@[0]);
            assert(theme_for_lower("everforest light"@) == Some(t));
        },
        Theme::MaterialOcean => {
            reveal_strlit("Material Ocean");
            reveal_strlit("material ocean");
            assert(all_ascii("Material Ocean"@));
            assert(ascii_lower("Material Ocean"@) =~= "material ocean"@);
            assert(lowercase("Material Ocean"@) == "material ocean"@);
            assert("material ocean"@[0] != "solarized dark"@[0]);
            assert("material ocean"@[0] != "solarized_dark"@[0]);
            assert("material ocean"@[0] != "rose pine moon"@[0]);
            assert("material ocean"@[0] != "rose_pine_moon"@[0]);
            assert("material ocean"@[0] != "rose pine dawn"@[0]);
            assert("material ocean"@[0] != "rose_pine_dawn"@[0]);
            assert(theme_for_lower("material ocean"@) == Some(t));
        },
        Theme::MaterialPalenight => {
            reveal_strlit("Material Palenight");
            reveal_strlit("material palenight");
            assert(all_ascii("Material Palenight"@));
            assert(ascii_lower("Material Palenight"@) =~= "material palenight"@);
            assert(lowercase("Material Palenight"@) == "material palenight"@);
            assert(theme_for_lower("material palenight"@) == Some(t));
        },
        Theme::Kanagawa => {
            reveal_strlit("Kanagawa");
            reveal_strlit("kanagawa");
            assert(all_ascii("Kanagawa"@));
            assert(ascii_lower("Kanagawa"@) =~= "kanagawa"@);
            assert(lowercase("Kanagawa"@) == "kanagawa"@);
            assert("kanagawa"@[0] != "one dark"@[0]);
            assert("kanagawa"@[0] != "one_dark"@[0]);
            assert("kanagawa"@[0] != "ayu dark"@[0]);
            assert("kanagawa"@[0] != "ayu_dark"@[0]);
            assert(theme_for_lower("kanagawa"@) == Some(t));
        },
        Theme::NightOwl => {
            reveal_strlit("Night Owl");
            reveal_strlit("night owl");
            assert(all_ascii("Night Owl"@));
            assert(ascii_lower("Night Owl"@) =~= "night owl"@);
            assert(lowercase("Night Owl"@) == "night owl"@);
            assert("night owl"@[0] != "one light"@[0]);
            assert("night owl"@[0] != "one_light"@[0]);
            assert("night owl"@[0] != "ayu light"@[0]);
            assert("night owl"@[0] != "ayu_light"@[0]);
            assert("night owl"@[0] != "rose pine"@[0]);
            assert("night owl"@[0] != "rose_pine"@[0]);
            assert(theme_for_lower("night owl"@) == Some(t));
        },
        Theme::Zenburn => {
            reveal_strlit("Zenburn");
            reveal_strlit("zenburn");
            assert(all_ascii("Zenburn"@));
            assert(ascii_lower("Zenburn"@) =~= "zenburn"@);
            assert(lowercase("Zenburn"@) == "zenburn"@);
            assert("zenburn"@[0] != "dracula"@[0]);
            assert("zenburn"@[0] != "monokai"@[0]);
            assert(theme_for_lower("zenburn"@) == Some(t));
        },
        Theme::SynthwaveEighties => {
            reveal_strlit("Synthwave '84");
            reveal_strlit("synthwave '84");
            assert(all_ascii("Synthwave '84"@));
            assert(ascii_lower("Synthwave '84"@) =~= "synthwave '84"@);
            assert(lowercase("Synthwave '84"@) == "synthwave '84"@);
            assert("synthwave '84"@[0] != "gruvbox light"@[0]);
            assert("synthwave '84"@[0] != "gruvbox_light"@[0]);
            assert(theme_for_lower("synthwave '84"@) == Some(t));
        },
        Theme::Cobalt2 => {
            reveal_strlit("Cobalt2");
            reveal_strlit("cobalt2");
            assert(all_ascii("Cobalt2"@));
            assert(ascii_lower("Cobalt2"@) =~= "cobalt2"@);
            assert(lowercase("Cobalt2"@) == "cobalt2"@);
            assert("cobalt2"@[0] != "dracula"@[0]);
            assert("cobalt2"@[0] != "monokai"@[0]);
            assert("cobalt2"@[0] != "zenburn"@[0]);
            assert(theme_for_lower("cobalt2"@) == Some(t));
        },
        Theme::HorizonDark => {
            reveal_strlit("Horizon Dark");
            reveal_strlit("horizon dark");
            assert(all_ascii("Horizon Dark"@));
            assert(ascii_lower("Horizon Dark"@) =~= "horizon dark"@);
            assert(lowercase("Horizon Dark"@) == "horizon dark"@);
            assert("horizon dark"@[0] != "gruvbox dark"@[0]);
            assert("horizon dark"@[0] != "gruvbox_dark"@[0]);
            assert("horizon dark"@[0] != "github light"@[0]);
            assert("horizon dark"@[0] != "github_light"@[0]);
            assert("horizon dark"@[0] != "synthwave 84"@[0]);
            assert("horizon dark"@[0] != "synthwave_84"@[0]);
            assert(theme_for_lower("horizon dark"@) == Some(t));
        },
    }
}

/// A display name with each space written as an underscore.
pub open spec fn underscored(s: Seq<char>) -> Seq<char> {
    s.map_values(|c: char| if c == ' ' { '_' } else { c })
}

/// Each display name written with underscores for spaces.
spec fn underscored_name(t: Theme) -> Seq<char> {
    match t {
        Theme::Dark => "Dark"@,
        Theme::Light => "Light"@,
        Theme::Nord => "Nord"@,
        Theme::Dracula => "Dracula"@,
        Theme::SolarizedDark => "Solarized_Dark"@,
        Theme::SolarizedLight => "Solarized_Light"@,
        Theme::GruvboxDark => "Gruvbox_Dark"@,
        Theme::GruvboxLight => "Gruvbox_Light"@,
        Theme::CatppuccinMocha => "Catppuccin_Mocha"@,
        Theme::CatppuccinLatte => "Catppuccin_Latte"@,
        Theme::CatppuccinFrappe => "Catppuccin_Frappe"@,
        Theme::CatppuccinMacchiato => "Catppuccin_Macchiato"@,
        Theme::TokyoNight => "Tokyo_Night"@,
        Theme::TokyoNightStorm => "Tokyo_Night_Storm"@,
        Theme::TokyoNightLight => "Tokyo_Night_Light"@,
        Theme::OneDark => "One_Dark"@,
        Theme::OneLight => "One_Light"@,
        Theme::Monokai => "Monokai"@,
        Theme::MonokaiPro => "Monokai_Pro"@,
        Theme::GithubDark => "GitHub_Dark"@,
        Theme::GithubLight => "GitHub_Light"@,
        Theme::AyuDark => "Ayu_Dark"@,
        Theme::AyuLight => "Ayu_Light"@,
        Theme::AyuMirage => "Ayu_Mirage"@,
        Theme::RosePine => "Rose_Pine"@,
        Theme::RosePineMoon => "Rose_Pine_Moon"@,
        Theme::RosePineDawn => "Rose_Pine_Dawn"@,
        Theme::EverforestDark => "Everforest_Dark"@,
        Theme::EverforestLight => "Everforest_Light"@,
        Theme::MaterialOcean => "Material_Ocean"@,
        Theme::MaterialPalenight => "Material_Palenight"@,
        Theme::Kanagawa => "Kanagawa"@,
        Theme::NightOwl => "Night_Owl"@,
        Theme::Zenburn => "Zenburn"@,
        Theme::Cobalt2 => "Cobalt2"@,
        Theme::HorizonDark => "Horizon_Dark"@,
        Theme::SynthwaveEighties => "Synthwave_'84"@,
    }
}

proof fn lemma_underscored_display_name(t: Theme)
    requires
        t != Theme::SynthwaveEighties,
    ensures
        underscored(name_spec(t)) == underscored_name(t),
{
    match t {
        Theme::Dark => {
            reveal_strlit("Dark");
            reveal_strlit("Dark");
            assert(underscored("Dark"@) =~= "Dark"@);
        },
        Theme::Light => {
            reveal_strlit("Light");
            reveal_strlit("Light");
            assert(underscored("Light"@) =~= "Light"@);
        },
        Theme::Nord => {
            reveal_strlit("Nord");
            reveal_strlit("Nord");
            assert(underscored("Nord"@) =~= "Nord"@);
        },
        Theme::Dracula => {
            reveal_strlit("Dracula");
            reveal_strlit("Dracula");
            assert(underscored("Dracula"@) =~= "Dracula"@);
        },
        Theme::SolarizedDark => {
            reveal_strlit("Solarized Dark");
            reveal_strlit("Solarized_Dark");
            assert(underscored("Solarized Dark"@) =~= "Solarized_Dark"@);
        },
        Theme::SolarizedLight => {
            reveal_strlit("Solarized Light");
            reveal_strlit("Solarized_Light");
            assert(underscored("Solarized Light"@) =~= "Solarized_Light"@);
        },
        Theme::GruvboxDark => {
            reveal_strlit("Gruvbox Dark");
            reveal_strlit("Gruvbox_Dark");
            assert(underscored("Gruvbox Dark"@) =~= "Gruvbox_Dark"@);
        },
        Theme::GruvboxLight => {
            reveal_strlit("Gruvbox Light");
            reveal_strlit("Gruvbox_Light");
            assert(underscored("Gruvbox Light"@) =~= "Gruvbox_Light"@);
        },
        Theme::CatppuccinMocha => {
            reveal_strlit("Catppuccin Mocha");
            reveal_strlit("Catppuccin_Mocha");
            assert(underscored("Catppuccin Mocha"@) =~= "Catppuccin_Mocha"@);
        },
        Theme::CatppuccinLatte => {
            reveal_strlit("Catppuccin Latte");
            reveal_strlit("Catppuccin_Latte");
            assert(underscored("Catppuccin Latte"@) =~= "Catppuccin_Latte"@);
        },
        Theme::CatppuccinFrappe => {
            reveal_strlit("Catppuccin Frappe");
            reveal_strlit("Catppuccin_Frappe");
            assert(underscored("Catppuccin Frappe"@) =~= "Catppuccin_Frappe"@);
        },
        Theme::CatppuccinMacchiato => {
            reveal_strlit("Catppuccin Macchiato");
            reveal_strlit("Catppuccin_Macchiato");
            assert(underscored("Catppuccin Macchiato"@) =~= "Catppuccin_Macchiato"@);
        },
        Theme::TokyoNight => {
            reveal_strlit("Tokyo Night");
            reveal_strlit("Tokyo_Night");
            assert(underscored("Tokyo Night"@) =~= "Tokyo_Night"@);
        },
        Theme::TokyoNightStorm => {
            reveal_strlit("Tokyo Night Storm");
            reveal_strlit("Tokyo_Night_Storm");
            assert(underscored("Tokyo Night Storm"@) =~= "Tokyo_Night_Storm"@);
        },
        Theme::TokyoNightLight => {
            reveal_strlit("Tokyo Night Light");
            reveal_strlit("Tokyo_Night_Light");
            assert(underscored("Tokyo Night Light"@) =~= "Tokyo_Night_Light"@);
        },
        Theme::OneDark => {
            reveal_strlit("One Dark");
            reveal_strlit("One_Dark");
            assert(underscored("One Dark"@) =~= "One_Dark"@);
        },
        Theme::OneLight => {
            reveal_strlit("One Light");
            reveal_strlit("One_Light");
            assert(underscored("One Light"@) =~= "One_Light"@);
        },
        Theme::Monokai => {
            reveal_strlit("Monokai");
            reveal_strlit("Monokai");
            assert(underscored("Monokai"@) =~= "Monokai"@);
        },
        Theme::MonokaiPro => {
            reveal_strlit("Monokai Pro");
            reveal_strlit("Monokai_Pro");
            assert(underscored("Monokai Pro"@) =~= "Monokai_Pro"@);
        },
        Theme::GithubDark => {
            reveal_strlit("GitHub Dark");
            reveal_strlit("GitHub_Dark");
            assert(underscored("GitHub Dark"@) =~= "GitHub_Dark"@);
        },
        Theme::GithubLight => {
            reveal_strlit("GitHub Light");
            reveal_strlit("GitHub_Light");
            assert(underscored("GitHub Light"@) =~= "GitHub_Light"@);
        },
        Theme::AyuDark => {
            reveal_strlit("Ayu Dark");
            reveal_strlit("Ayu_Dark");
            assert(underscored("Ayu Dark"@) =~= "Ayu_Dark"@);
        },
        Theme::AyuLight => {
            reveal_strlit("Ayu Light");
            reveal_strlit("Ayu_Light");
            assert(underscored("Ayu Light"@) =~= "Ayu_Light"@);
        },
        Theme::AyuMirage => {
            reveal_strlit("Ayu Mirage");
            reveal_strlit("Ayu_Mirage");
            assert(underscored("Ayu Mirage"@) =~= "Ayu_Mirage"@);
        },
        Theme::RosePine => {
            reveal_strlit("Rose Pine");
            reveal_strlit("Rose_Pine");
            assert(underscored("Rose Pine"@) =~= "Rose_Pine"@);
        },
        Theme::RosePineMoon => {
            reveal_strlit("Rose Pine Moon");
            reveal_strlit("Rose_Pine_Moon");
            assert(underscored("Rose Pine Moon"@) =~= "Rose_Pine_Moon"@);
        },
        Theme::RosePineDawn => {
            reveal_strlit("Rose Pine Dawn");
            reveal_strlit("Rose_Pine_Dawn");
            assert(underscored("Rose Pine Dawn"@) =~= "Rose_Pine_Dawn"@);
        },
        Theme::EverforestDark => {
            reveal_strlit("Everforest Dark");
            reveal_strlit("Everforest_Dark");
            assert(underscored("Everforest Dark"@) =~= "Everforest_Dark"@);
        },
        Theme::EverforestLight => {
            reveal_strlit("Everforest Light");
            reveal_strlit("Everforest_Light");
            assert(underscored("Everforest Light"@) =~= "Everforest_Light"@);
        },
        Theme::MaterialOcean => {
            reveal_strlit("Material Ocean");
            reveal_strlit("Material_Ocean");
            assert(underscored("Material Ocean"@) =~= "Material_Ocean"@);
        },
        Theme::MaterialPalenight => {
            reveal_strlit("Material Palenight");
            reveal_strlit("Material_Palenight");
            assert(underscored("Material Palenight"@) =~= "Material_Palenight"@);
        },
        Theme::Kanagawa => {
            reveal_strlit("Kanagawa");
            reveal_strlit("Kanagawa");
            assert(underscored("Kanagawa"@) =~= "Kanagawa"@);
        },
        Theme::NightOwl => {
            reveal_strlit("Night Owl");
            reveal_strlit("Night_Owl");
            assert(underscored("Night Owl"@) =~= "Night_Owl"@);
        },
        Theme::Zenburn => {
            reveal_strlit("Zenburn");
            reveal_strlit("Zenburn");
            assert(underscored("Zenburn"@) =~= "Zenburn"@);
        },
        Theme::Cobalt2 => {
            reveal_strlit("Cobalt2");
            reveal_strlit("Cobalt2");
            assert(underscored("Cobalt2"@) =~= "Cobalt2"@);
        },
        Theme::HorizonDark => {
            reveal_strlit("Horizon Dark");
            reveal_strlit("Horizon_Dark");
            assert(underscored("Horizon Dark"@) =~= "Horizon_Dark"@);
        },
        Theme::SynthwaveEighties => {},
    }
}

/// A stored theme name may write underscores for spaces: every theme's
/// display name, with each space replaced by an underscore, parses back to
/// that theme. ("Synthwave '84" is the exception: its underscored form is
/// not one of the names the parser accepts for it.)
#[verifier::rlimit(100)]
pub proof fn lemma_underscored_theme_name_parses(t: Theme)
    requires
        t != Theme::SynthwaveEighties,
    ensures
        theme_for(underscored(name_spec(t))) == Some(t),
{
    lemma_underscored_display_name(t);
    reveal_strlit("ayu dark");
    reveal_strlit("ayu light");
    reveal_strlit("ayu mirage");
    reveal_strlit("ayu_dark");
    reveal_strlit("ayu_light");
    reveal_strlit("ayu_mirage");
    reveal_strlit("catppuccin frappe");
    reveal_strlit("catppuccin latte");
    reveal_strlit("catppuccin macchiato");
    reveal_strlit("catppuccin mocha");
    reveal_strlit("catppuccin_frappe");
    reveal_strlit("catppuccin_latte");
    reveal_strlit("catppuccin_macchiato");
    reveal_strlit("catppuccin_mocha");
    reveal_strlit("cobalt 2");
    reveal_strlit("cobalt2");
    reveal_strlit("dark");
    reveal_strlit("dracula");
    reveal_strlit("everforest dark");
    reveal_strlit("everforest light");
    reveal_strlit("everforest_dark");
    reveal_strlit("everforest_light");
    reveal_strlit("github dark");
    reveal_strlit("github light");
    reveal_strlit("github_dark");
    reveal_strlit("github_light");
    reveal_strlit("gruvbox dark");
    reveal_strlit("gruvbox light");
    reveal_strlit("gruvbox_dark");
    reveal_strlit("gruvbox_light");
    reveal_strlit("horizon dark");
    reveal_strlit("horizon_dark");
    reveal_strlit("kanagawa");
    reveal_strlit("light");
    reveal_strlit("material ocean");
    reveal_strlit("material palenight");
    reveal_strlit("material_ocean");
    reveal_strlit("material_palenight");
    reveal_strlit("monokai");
    reveal_strlit("monokai pro");
    reveal_strlit("monokai_pro");
    reveal_strlit("night owl");
    reveal_strlit("night_owl");
    reveal_strlit("nord");
    reveal_strlit("one dark");
    reveal_strlit("one light");
    reveal_strlit("one_dark");
    reveal_strlit("one_light");
    reveal_strlit("rose pine");
    reveal_strlit("rose pine dawn");
    reveal_strlit("rose pine moon");
    reveal_strlit("rose_pine");
    reveal_strlit("rose_pine_dawn");
    reveal_strlit("rose_pine_moon");
    reveal_strlit("solarized dark");
    reveal_strlit("solarized light");
    reveal_strlit("solarized_dark");
    reveal_strlit("solarized_light");
    reveal_strlit("synthwave '84");
    reveal_strlit("synthwave 84");
    reveal_strlit("synthwave_84");
    reveal_strlit("synthwave_eighties");
    reveal_strlit("tokyo night");
    reveal_strlit("tokyo night light");
    reveal_strlit("tokyo night storm");
    reveal_strlit("tokyo_night");
    reveal_strlit("tokyo_night_light");
    reveal_strlit("tokyo_night_storm");
    reveal_strlit("zenburn");
    match t {
        Theme::Dark => {
            assert(underscored(name_spec(t)) == "Dark"@);
            reveal_strlit("Dark");
            reveal_strlit("dark");
            assert(all_ascii("Dark"@));
            assert(ascii_lower("Dark"@) =~= "dark"@);
            assert(lowercase("Dark"@) == "dark"@);
            assert(theme_for_lower("dark"@) == Some(t));
            assert(lowercase("Dark"@) == "dark"@);
            assert(theme_for_lower("dark"@) == Some(Theme::Dark));
            assert(name_spec(t) == "Dark"@);
            assert(theme_for(name_spec(t)) == Some(Theme::Dark));
        },
        Theme::Light => {
            assert(underscored(name_spec(t)) == "Light"@);
            reveal_strlit("Light");
            reveal_strlit("light");
            assert(all_ascii("Light"@));
            assert(ascii_lower("Light"@) =~= "light"@);
            assert(lowercase("Light"@) == "light"@);
            assert(theme_for_lower("light"@) == Some(t));
        },
        Theme::Nord => {
            assert(underscored(name_spec(t)) == "Nord"@);
            reveal_strlit("Nord");
            reveal_strlit("nord");
            assert(all_ascii("Nord"@));
            assert(ascii_lower("Nord"@) =~= "nord"@);
            assert(lowercase("Nord"@) == "nord"@);
            assert("nord"@[0] != "dark"@[0]);
            assert(theme_for_lower("nord"@) == Some(t));
        },
        Theme::Dracula => {
            assert(underscored(name_spec(t)) == "Dracula"@);
            reveal_strlit("Dracula");
            reveal_strlit("dracula");
            assert(all_ascii("Dracula"@));
            assert(ascii_lower("Dracula"@) =~= "dracula"@);
            assert(lowercase("Dracula"@) == "dracula"@);
            assert(theme_for_lower("dracula"@) == Some(t));
        },
        Theme::SolarizedDark => {
            assert(underscored(name_spec(t)) == "Solarized_Dark"@);
            reveal_strlit("Solarized Dark");
            reveal_strlit("Solarized_Dark");
            reveal_strlit("solarized_dark");
            assert(all_ascii("Solarized_Dark"@));
            assert(ascii_lower("Solarized_Dark"@) =~= "solarized_dark"@);
            assert(lowercase("Solarized_Dark"@) == "solarized_dark"@);
            assert(theme_for_lower("solarized_dark"@) == Some(t));
        },
        Theme::SolarizedLight => {
            assert(underscored(name_spec(t)) == "Solarized_Light"@);
            reveal_strlit("Solarized Light");
            reveal_strlit("Solarized_Light");
            reveal_strlit("solarized_light");
            assert(all_ascii("Solarized_Light"@));
            assert(ascii_lower("Solarized_Light"@) =~= "solarized_light"@);
            assert(lowercase("Solarized_Light"@) == "solarized_light"@);
            assert(theme_for_lower("solarized_light"@) == Some(t));
        },
        Theme::GruvboxDark => {
            assert(underscored(name_spec(t)) == "Gruvbox_Dark"@);
            reveal_strlit("Gruvbox Dark");
            reveal_strlit("Gruvbox_Dark");
            reveal_strlit("gruvbox_dark");
            assert(all_ascii("Gruvbox_Dark"@));
            assert(ascii_lower("Gruvbox_Dark"@) =~= "gruvbox_dark"@);
            assert(lowercase("Gruvbox_Dark"@) == "gruvbox_dark"@);
            assert(theme_for_lower("gruvbox_dark"@) == Some(t));
        },
        Theme::GruvboxLight => {
            assert(underscored(name_spec(t)) == "Gruvbox_Light"@);
            reveal_strlit("Gruvbox Light");
            reveal_strlit("Gruvbox_Light");
            reveal_strlit("gruvbox_light");
            assert(all_ascii("Gruvbox_Light"@));
            assert(ascii_lower("Gruvbox_Light"@) =~= "gruvbox_light"@);
            assert(lowercase("Gruvbox_Light"@) == "gruvbox_light"@);
            assert(theme_for_lower("gruvbox_light"@) == Some(t));
        },
        Theme::CatppuccinMocha => {
            assert(underscored(name_spec(t)) == "Catppuccin_Mocha"@);
            reveal_strlit("Catppuccin Mocha");
            reveal_strlit("Catppuccin_Mocha");
            reveal_strlit("catppuccin_mocha");
            assert(all_ascii("Catppuccin_Mocha"@));
            assert(ascii_lower("Catppuccin_Mocha"@) =~= "catppuccin_mocha"@);
            assert(lowercase("Catppuccin_Mocha"@) == "catppuccin_mocha"@);
            assert(theme_for_lower("catppuccin_mocha"@) == Some(t));
        },
        Theme::CatppuccinLatte => {
            assert(underscored(name_spec(t)) == "Catppuccin_Latte"@);
            reveal_strlit("Catppuccin Latte");
            reveal_strlit("Catppuccin_Latte");
            reveal_strlit("catppuccin_latte");
            assert(all_ascii("Catppuccin_Latte"@));
            assert(ascii_lower("Catppuccin_Latte"@) =~= "catppuccin_latte"@);
            assert(lowercase("Catppuccin_Latte"@) == "catppuccin_latte"@);
            assert("catppuccin_latte"@[10] != "catppuccin mocha"@[10]);
            assert("catppuccin_latte"@[11] != "catppuccin_mocha"@[11]);
            assert(theme_for_lower("catppuccin_latte"@) == Some(t));
        },
        Theme::CatppuccinFrappe => {
            assert(underscored(name_spec(t)) == "Catppuccin_Frappe"@);
            reveal_strlit("Catppuccin Frappe");
            reveal_strlit("Catppuccin_Frappe");
            reveal_strlit("catppuccin_frappe");
            assert(all_ascii("Catppuccin_Frappe"@));
            assert(ascii_lower("Catppuccin_Frappe"@) =~= "catppuccin_frappe"@);
            assert(lowercase("Catppuccin_Frappe"@) == "catppuccin_frappe"@);
            assert(theme_for_lower("catppuccin_frappe"@) == Some(t));
        },
        Theme::CatppuccinMacchiato => {
            assert(underscored(name_spec(t)) == "Catppuccin_Macchiato"@);
            reveal_strlit("Catppuccin Macchiato");
            reveal_strlit("Catppuccin_Macchiato");
            reveal_strlit("catppuccin_macchiato");
            assert(all_ascii("Catppuccin_Macchiato"@));
            assert(ascii_lower("Catppuccin_Macchiato"@) =~= "catppuccin_macchiato"@);
            assert(lowercase("Catppuccin_Macchiato"@) == "catppuccin_macchiato"@);
            assert(theme_for_lower("catppuccin_macchiato"@) == Some(t));
        },
        Theme::TokyoNight => {
            assert(underscored(name_spec(t)) == "Tokyo_Night"@);
            reveal_strlit("Tokyo Night");
            reveal_strlit("Tokyo_Night");
            reveal_strlit("tokyo_night");
            assert(all_ascii("Tokyo_Night"@));
            assert(ascii_lower("Tokyo_Night"@) =~= "tokyo_night"@);
            assert(lowercase("Tokyo_Night"@) == "tokyo_night"@);
            assert(theme_for_lower("tokyo_night"@) == Some(t));
        },
        Theme::TokyoNightStorm => {
            assert(underscored(name_spec(t)) == "Tokyo_Night_Storm"@);
            reveal_strlit("Tokyo Night Storm");
            reveal_strlit("Tokyo_Night_Storm");
            reveal_strlit("tokyo_night_storm");
            assert(all_ascii("Tokyo_Night_Storm"@));
            assert(ascii_lower("Tokyo_Night_Storm"@) =~= "tokyo_night_storm"@);
            assert(lowercase("Tokyo_Night_Storm"@) == "tokyo_night_storm"@);
            assert("tokyo_night_storm"@[0] != "catppuccin frappe"@[0]);
            assert("tokyo_night_storm"@[0] != "catppuccin_frappe"@[0]);
            assert(theme_for_lower("tokyo_night_storm"@) == Some(t));
        },
        Theme::TokyoNightLight => {
            assert(underscored(name_spec(t)) == "Tokyo_Night_Light"@);
            reveal_strlit("Tokyo Night Light");
            reveal_strlit("Tokyo_Night_Light");
            reveal_strlit("tokyo_night_light");
            assert(all_ascii("Tokyo_Night_Light"@));
            assert(ascii_lower("Tokyo_Night_Light"@) =~= "tokyo_night_light"@);
            assert(lowercase("Tokyo_Night_Light"@) == "tokyo_night_light"@);
            assert("tokyo_night_light"@[0] != "catppuccin frappe"@[0]);
            assert("tokyo_night_light"@[0] != "catppuccin_frappe"@[0]);
            assert("tokyo_night_light"@[12] != "tokyo night storm"@[12]);
            assert("tokyo_night_light"@[12] != "tokyo_night_storm"@[12]);
            assert(theme_for_lower("tokyo_night_light"@) == Some(t));
        },
        Theme::OneDark => {
            assert(underscored(name_spec(t)) == "One_Dark"@);
            reveal_strlit("One Dark");
            reveal_strlit("One_Dark");
            reveal_strlit("one_dark");
            assert(all_ascii("One_Dark"@));
            assert(ascii_lower("One_Dark"@) =~= "one_dark"@);
            assert(lowercase("One_Dark"@) == "one_dark"@);
            assert(theme_for_lower("one_dark"@) == Some(t));
        },
        Theme::OneLight => {
            assert(underscored(name_spec(t)) == "One_Light"@);
            reveal_strlit("One Light");
            reveal_strlit("One_Light");
            reveal_strlit("one_light");
            assert(all_ascii("One_Light"@));
            assert(ascii_lower("One_Light"@) =~= "one_light"@);
            assert(lowercase("One_Light"@) == "one_light"@);
            assert(theme_for_lower("one_light"@) == Some(t));
        },
        Theme::Monokai => {
            assert(underscored(name_spec(t)) == "Monokai"@);
            reveal_strlit("Monokai");
            reveal_strlit("monokai");
            assert(all_ascii("Monokai"@));
            assert(ascii_lower("Monokai"@) =~= "monokai"@);
            assert(lowercase("Monokai"@) == "monokai"@);
            assert("monokai"@[0] != "dracula"@[0]);
            assert(theme_for_lower("monokai"@) == Some(t));
        },
        Theme::MonokaiPro => {
            assert(underscored(name_spec(t)) == "Monokai_Pro"@);
            reveal_strlit("Monokai Pro");
            reveal_strlit("Monokai_Pro");
            reveal_strlit("monokai_pro");
            assert(all_ascii("Monokai_Pro"@));
            assert(ascii_lower("Monokai_Pro"@) =~= "monokai_pro"@);
            assert(lowercase("Monokai_Pro"@) == "monokai_pro"@);
            assert("monokai_pro"@[0] != "tokyo night"@[0]);
            assert("monokai_pro"@[0] != "tokyo_night"@[0]);
            assert(theme_for_lower("monokai_pro"@) == Some(t));
        },
        Theme::GithubDark => {
            assert(underscored(name_spec(t)) == "GitHub_Dark"@);
            reveal_strlit("GitHub Dark");
            reveal_strlit("GitHub_Dark");
            reveal_strlit("github_dark");
            assert(all_ascii("GitHub_Dark"@));
            assert(ascii_lower("GitHub_Dark"@) =~= "github_dark"@);
            assert(lowercase("GitHub_Dark"@) == "github_dark"@);
            assert("github_dark"@[0] != "tokyo night"@[0]);
            assert("github_dark"@[0] != "tokyo_night"@[0]);
            assert("github_dark"@[0] != "monokai pro"@[0]);
            assert("github_dark"@[0] != "monokai_pro"@[0]);
            assert(theme_for_lower("github_dark"@) == Some(t));
        },
        Theme::GithubLight => {
            assert(underscored(name_spec(t)) == "GitHub_Light"@);
            reveal_strlit("GitHub Light");
            reveal_strlit("GitHub_Light");
            reveal_strlit("github_light");
            assert(all_ascii("GitHub_Light"@));
            assert(ascii_lower("GitHub_Light"@) =~= "github_light"@);
            assert(lowercase("GitHub_Light"@) == "github_light"@);
            assert("github_light"@[1] != "gruvbox dark"@[1]);
            assert("github_light"@[1] != "gruvbox_dark"@[1]);
            assert(theme_for_lower("github_light"@) == Some(t));
        },
        Theme::AyuDark => {
            assert(underscored(name_spec(t)) == "Ayu_Dark"@);
            reveal_strlit("Ayu Dark");
            reveal_strlit("Ayu_Dark");
            reveal_strlit("ayu_dark");
            assert(all_ascii("Ayu_Dark"@));
            assert(ascii_lower("Ayu_Dark"@) =~= "ayu_dark"@);
            assert(lowercase("Ayu_Dark"@) == "ayu_dark"@);
            assert("ayu_dark"@[0] != "one dark"@[0]);
            assert("ayu_dark"@[0] != "one_dark"@[0]);
            assert(theme_for_lower("ayu_dark"@) == Some(t));
        },
        Theme::AyuLight => {
            assert(underscored(name_spec(t)) == "Ayu_Light"@);
            reveal_strlit("Ayu Light");
            reveal_strlit("Ayu_Light");
            reveal_strlit("ayu_light");
            assert(all_ascii("Ayu_Light"@));
            assert(ascii_lower("Ayu_Light"@) =~= "ayu_light"@);
            assert(lowercase("Ayu_Light"@) == "ayu_light"@);
            assert("ayu_light"@[0] != "one light"@[0]);
            assert("ayu_light"@[0] != "one_light"@[0]);
            assert(theme_for_lower("ayu_light"@) == Some(t));
        },
        Theme::AyuMirage => {
            assert(underscored(name_spec(t)) == "Ayu_Mirage"@);
            reveal_strlit("Ayu Mirage");
            reveal_strlit("Ayu_Mirage");
            reveal_strlit("ayu_mirage");
            assert(all_ascii("Ayu_Mirage"@));
            assert(ascii_lower("Ayu_Mirage"@) =~= "ayu_mirage"@);
            assert(lowercase("Ayu_Mirage"@) == "ayu_mirage"@);
            assert(theme_for_lower("ayu_mirage"@) == Some(t));
        },
        Theme::RosePine => {
            assert(underscored(name_spec(t)) == "Rose_Pine"@);
            reveal_strlit("Rose Pine");
            reveal_strlit("Rose_Pine");
            reveal_strlit("rose_pine");
            assert(all_ascii("Rose_Pine"@));
            assert(ascii_lower("Rose_Pine"@) =~= "rose_pine"@);
            assert(lowercase("Rose_Pine"@) == "rose_pine"@);
            assert("rose_pine"@[0] != "one light"@[0]);
            assert("rose_pine"@[0] != "one_light"@[0]);
            assert("rose_pine"@[0] != "ayu light"@[0]);
            assert("rose_pine"@[0] != "ayu_light"@[0]);
            assert(theme_for_lower("rose_pine"@) == Some(t));
        },
        Theme::RosePineMoon => {
            assert(underscored(name_spec(t)) == "Rose_Pine_Moon"@);
            reveal_strlit("Rose Pine Moon");
            reveal_strlit("Rose_Pine_Moon");
            reveal_strlit("rose_pine_moon");
            assert(all_ascii("Rose_Pine_Moon"@));
            assert(ascii_lower("Rose_Pine_Moon"@) =~= "rose_pine_moon"@);
            assert(lowercase("Rose_Pine_Moon"@) == "rose_pine_moon"@);
            assert("rose_pine_moon"@[0] != "solarized dark"@[0]);
            assert("rose_pine_moon"@[0] != "solarized_dark"@[0]);
            assert(theme_for_lower("rose_pine_moon"@) == Some(t));
        },
        Theme::RosePineDawn => {
            assert(underscored(name_spec(t)) == "Rose_Pine_Dawn"@);
            reveal_strlit("Rose Pine Dawn");
            reveal_strlit("Rose_Pine_Dawn");
            reveal_strlit("rose_pine_dawn");
            assert(all_ascii("Rose_Pine_Dawn"@));
            assert(ascii_lower("Rose_Pine_Dawn"@) =~= "rose_pine_dawn"@);
            assert(lowercase("Rose_Pine_Dawn"@) == "rose_pine_dawn"@);
            assert("rose_pine_dawn"@[0] != "solarized dark"@[0]);
            assert("rose_pine_dawn"@[0] != "solarized_dark"@[0]);
            assert("rose_pine_dawn"@[10] != "rose pine moon"@[10]);
            assert("rose_pine_dawn"@[10] != "rose_pine_moon"@[10]);
            assert(theme_for_lower("rose_pine_dawn"@) == Some(t));
        },
        Theme::EverforestDark => {
            assert(underscored(name_spec(t)) == "Everforest_Dark"@);
            reveal_strlit("Everforest Dark");
            reveal_strlit("Everforest_Dark");
            reveal_strlit("everforest_dark");
            assert(all_ascii("Everforest_Dark"@));
            assert(ascii_lower("Everforest_Dark"@) =~= "everforest_dark"@);
            assert(lowercase("Everforest_Dark"@) == "everforest_dark"@);
            assert("everforest_dark"@[0] != "solarized light"@[0]);
            assert("everforest_dark"@[0] != "solarized_light"@[0]);
            assert(theme_for_lower("everforest_dark"@) == Some(t));
        },
        Theme::EverforestLight => {
            assert(underscored(name_spec(t)) == "Everforest_Light"@);
            reveal_strlit("Everforest Light");
            reveal_strlit("Everforest_Light");
            reveal_strlit("everforest_light");
            assert(all_ascii("Everforest_Light"@));
            assert(ascii_lower("Everforest_Light"@) =~= "everforest_light"@);
            assert(lowercase("Everforest_Light"@) == "everforest_light"@);
            assert("everforest_light"@[0] != "catppuccin mocha"@[0]);
            assert("everforest_light"@[0] != "catppuccin_mocha"@[0]);
            assert("everforest_light"@[0] != "catppuccin latte"@[0]);
            assert("everforest_light"@[0] != "catppuccin_latte"@[0]);
            assert(theme_for_lower("everforest_light"@) == Some(t));
        },
        Theme::MaterialOcean => {
            assert(underscored(name_spec(t)) == "Material_Ocean"@);
            reveal_strlit("Material Ocean");
            reveal_strlit("Material_Ocean");
            reveal_strlit("material_ocean");
            assert(all_ascii("Material_Ocean"@));
            assert(ascii_lower("Material_Ocean"@) =~= "material_ocean"@);
            assert(lowercase("Material_Ocean"@) == "material_ocean"@);
            assert("material_ocean"@[0] != "solarized dark"@[0]);
            assert("material_ocean"@[0] != "solarized_dark"@[0]);
            assert("material_ocean"@[0] != "rose pine moon"@[0]);
            assert("material_ocean"@[0] != "rose_pine_moon"@[0]);
            assert("material_ocean"@[0] != "rose pine dawn"@[0]);
            assert("material_ocean"@[0] != "rose_pine_dawn"@[0]);
            assert(theme_for_lower("material_ocean"@) == Some(t));
        },
        Theme::MaterialPalenight => {
            assert(underscored(name_spec(t)) == "Material_Palenight"@);
            reveal_strlit("Material Palenight");
            reveal_strlit("Material_Palenight");
            reveal_strlit("material_palenight");
            assert(all_ascii("Material_Palenight"@));
            assert(ascii_lower("Material_Palenight"@) =~= "material_palenight"@);
            assert(lowercase("Material_Palenight"@) == "material_palenight"@);
            assert(theme_for_lower("material_palenight"@) == Some(t));
        },
        Theme::Kanagawa => {
            assert(underscored(name_spec(t)) == "Kanagawa"@);
            reveal_strlit("Kanagawa");
            reveal_strlit("kanagawa");
            assert(all_ascii("Kanagawa"@));
            assert(ascii_lower("Kanagawa"@) =~= "kanagawa"@);
            assert(lowercase("Kanagawa"@) == "kanagawa"@);
            assert("kanagawa"@[0] != "one dark"@[0]);
            assert("kanagawa"@[0] != "one_dark"@[0]);
            assert("kanagawa"@[0] != "ayu dark"@[0]);
            assert("kanagawa"@[0] != "ayu_dark"@[0]);
            assert(theme_for_lower("kanagawa"@) == Some(t));
        },
        Theme::NightOwl => {
            assert(underscored(name_spec(t)) == "Night_Owl"@);
            reveal_strlit("Night Owl");
            reveal_strlit("Night_Owl");
            reveal_strlit("night_owl");
            assert(all_ascii("Night_Owl"@));
            assert(ascii_lower("Night_Owl"@) =~= "night_owl"@);
            assert(lowercase("Night_Owl"@) == "night_owl"@);
            assert("night_owl"@[0] != "one light"@[0]);
            assert("night_owl"@[0] != "one_light"@[0]);
            assert("night_owl"@[0] != "ayu light"@[0]);
            assert("night_owl"@[0] != "ayu_light"@[0]);
            assert("night_owl"@[0] != "rose pine"@[0]);
            assert("night_owl"@[0] != "rose_pine"@[0]);
            assert(theme_for_lower("night_owl"@) == Some(t));
        },
        Theme::Zenburn => {
            assert(underscored(name_spec(t)) == "Zenburn"@);
            reveal_strlit("Zenburn");
            reveal_strlit("zenburn");
            assert(all_ascii("Zenburn"@));
            assert(ascii_lower("Zenburn"@) =~= "zenburn"@);
            assert(lowercase("Zenburn"@) == "zenburn"@);
            assert("zenburn"@[0] != "dracula"@[0]);
            assert("zenburn"@[0] != "monokai"@[0]);
            assert(theme_for_lower("zenburn"@) == Some(t));
        },
        Theme::SynthwaveEighties => {
        },
        Theme::Cobalt2 => {
            assert(underscored(name_spec(t)) == "Cobalt2"@);
            reveal_strlit("Cobalt2");
            reveal_strlit("cobalt2");
            assert(all_ascii("Cobalt2"@));
            assert(ascii_lower("Cobalt2"@) =~= "cobalt2"@);
            assert(lowercase("Cobalt2"@) == "cobalt2"@);
            assert("cobalt2"@[0] != "dracula"@[0]);
            assert("cobalt2"@[0] != "monokai"@[0]);
            assert("cobalt2"@[0] != "zenburn"@[0]);
            assert(theme_for_lower("cobalt2"@) == Some(t));
        },
        Theme::HorizonDark => {
            assert(underscored(name_spec(t)) == "Horizon_Dark"@);
            reveal_strlit("Horizon Dark");
            reveal_strlit("Horizon_Dark");
            reveal_strlit("horizon_dark");
            assert(all_ascii("Horizon_Dark"@));
            assert(ascii_lower("Horizon_Dark"@) =~= "horizon_dark"@);
            assert(lowercase("Horizon_Dark"@) == "horizon_dark"@);
            assert("horizon_dark"@[0] != "gruvbox dark"@[0]);
            assert("horizon_dark"@[0] != "gruvbox_dark"@[0]);
            assert("horizon_dark"@[0] != "github light"@[0]);
            assert("horizon_dark"@[0] != "github_light"@[0]);
            assert("horizon_dark"@[0] != "synthwave 84"@[0]);
            assert("horizon_dark"@[0] != "synthwave_84"@[0]);
            assert(theme_for_lower("horizon_dark"@) == Some(t));
        },
    }
}

/// Parsing ignores ASCII case: an all-ASCII name and its uppercase form name
/// the same theme (or none).
pub proof fn lemma_theme_parse_ignores_ascii_case(s: Seq<char>)
    requires
        all_ascii(s),
    ensures
        theme_for(s.map_values(|c: char| ascii_upper_char(c))) == theme_for(s),
{
    let u = s.map_values(|c: char| ascii_upper_char(c));
    assert forall|i: int| 0 <= i < u.len() implies is_ascii_char(#[trigger] u[i])
        && ascii_lower_char(u[i]) == ascii_lower_char(s[i]) by {
        let c = s[i];
        assert(is_ascii_char(c));
        if 97 <= (c as u32) && (c as u32) <= 122 {
            assert(u[i] == ((c as u32) - 32) as char);
        }
    }
    assert(ascii_lower(u) =~= ascii_lower(s));
}

/// A theme's display name parses back to it in capitals too.
pub proof fn lemma_uppercase_theme_name_parses(t: Theme)
    ensures
        theme_for(name_spec(t).map_values(|c: char| ascii_upper_char(c))) == Some(t),
{
    lemma_theme_name_round_trip(t);
    lemma_theme_parse_ignores_ascii_case(name_spec(t));
}

/// No two themes share a display name.
pub proof fn lemma_theme_names_unique(a: Theme, b: Theme)
    ensures
        name_spec(a) == name_spec(b) ==> a == b,
{
    lemma_theme_name_round_trip(a);
    lemma_theme_name_round_trip(b);
}

} // verus!
