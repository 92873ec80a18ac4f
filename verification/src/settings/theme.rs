//! The colours of the theme presets.
use super::ThemePreset;
use crate::text;
use vstd::prelude::*;

verus! {

/// The configured colours, as `#rrggbb` texts.
#[derive(Debug, Clone, Default)]
pub struct ColorsConfig {
    pub background: Option<String>,
    pub foreground: Option<String>,
    pub cursor: Option<String>,
    pub ansi: Option<Vec<String>>,
}

/// The colours of a theme.
#[verifier::ext_equal]
pub struct Palette {
    pub background: Seq<char>,
    pub foreground: Seq<char>,
    pub cursor: Seq<char>,
    pub ansi: Seq<Seq<char>>,
}

pub open spec fn palette(preset: ThemePreset) -> Palette {
    match preset {
        ThemePreset::OriginalTherminal => Palette {
            background: "#060a12"@,
            foreground: "#e7f0ff"@,
            cursor: "#fef3c7"@,
            ansi: seq![
                "#060a12"@,
                "#ff5f78"@,
                "#ffb24f"@,
                "#eab308"@,
                "#56a7ff"@,
                "#56a7ff"@,
                "#39ffb6"@,
                "#e7f0ff"@,
                "#7b8fa9"@,
                "#ff7d8f"@,
                "#59ffc7"@,
                "#f97316"@,
                "#56a7ff"@,
                "#e7f0ff"@,
                "#4ce5cc"@,
                "#fef3c7"@,
            ],
        },
        ThemePreset::Paper => Palette {
            background: "#f2eede"@,
            foreground: "#000000"@,
            cursor: "#000000"@,
            ansi: seq![
                "#000000"@,
                "#b13a24"@,
                "#216609"@,
                "#7a5f00"@,
                "#1659b7"@,
                "#5c21a5"@,
                "#106c66"@,
                "#5f6673"@,
                "#555555"@,
                "#b13a24"@,
                "#216609"@,
                "#7a5f00"@,
                "#1659b7"@,
                "#5c21a5"@,
                "#106c66"@,
                "#5f6673"@,
            ],
        },
        ThemePreset::TokyoNightLight => Palette {
            background: "#D5D6DB"@,
            foreground: "#4B5563"@,
            cursor: "#4B5563"@,
            ansi: seq![
                "#0F0F14"@,
                "#8C4351"@,
                "#485E30"@,
                "#7B4F10"@,
                "#34548A"@,
                "#5A4A78"@,
                "#0F4B6E"@,
                "#343B58"@,
                "#4B5563"@,
                "#8C4351"@,
                "#485E30"@,
                "#7B4F10"@,
                "#34548A"@,
                "#5A4A78"@,
                "#0F4B6E"@,
                "#343B58"@,
            ],
        },
        ThemePreset::TomorrowNightBright => Palette {
            background: "#000000"@,
            foreground: "#EAEAEA"@,
            cursor: "#EAEAEA"@,
            ansi: seq![
                "#2A2A2A"@,
                "#D54E53"@,
                "#B9CA4A"@,
                "#E7C547"@,
                "#7AA6DA"@,
                "#C397D8"@,
                "#70C0B1"@,
                "#EAEAEA"@,
                "#969896"@,
                "#D54E53"@,
                "#B9CA4A"@,
                "#E7C547"@,
                "#7AA6DA"@,
                "#C397D8"@,
                "#70C0B1"@,
                "#FFFFFF"@,
            ],
        },
        ThemePreset::HemisuDark => Palette {
            background: "#000000"@,
            foreground: "#FFFFFF"@,
            cursor: "#BAFFAA"@,
            ansi: seq![
                "#444444"@,
                "#FF0054"@,
                "#B1D630"@,
                "#9D895E"@,
                "#67BEE3"@,
                "#B576BC"@,
                "#569A9F"@,
                "#EDEDED"@,
                "#777777"@,
                "#D65E75"@,
                "#BAFFAA"@,
                "#ECE1C8"@,
                "#9FD3E5"@,
                "#DEB3DF"@,
                "#B6E0E5"@,
                "#FFFFFF"@,
            ],
        },
    }
}

impl ColorsConfig {
    /// Every colour is configured, as `p` has it.
    pub open spec fn shows(&self, p: Palette) -> bool {
        &&& self.background matches Some(c) && c@ == p.background
        &&& self.foreground matches Some(c) && c@ == p.foreground
        &&& self.cursor matches Some(c) && c@ == p.cursor
        &&& self.ansi matches Some(c) && text::texts(c@) == p.ansi
    }
}

/// Configures the colours of `preset`.
pub fn apply_theme_preset(colors: &mut ColorsConfig, preset: ThemePreset)
    ensures
        final(colors).shows(palette(preset)),
{
    let mut ansi: Vec<String> = Vec::new();
    match preset {
        ThemePreset::OriginalTherminal => {
            colors.background = Some(String::from_str("#060a12"));
            colors.foreground = Some(String::from_str("#e7f0ff"));
            colors.cursor = Some(String::from_str("#fef3c7"));
            ansi.push(String::from_str("#060a12"));
            ansi.push(String::from_str("#ff5f78"));
            ansi.push(String::from_str("#ffb24f"));
            ansi.push(String::from_str("#eab308"));
            ansi.push(String::from_str("#56a7ff"));
            ansi.push(String::from_str("#56a7ff"));
            ansi.push(String::from_str("#39ffb6"));
            ansi.push(String::from_str("#e7f0ff"));
            ansi.push(String::from_str("#7b8fa9"));
            ansi.push(String::from_str("#ff7d8f"));
            ansi.push(String::from_str("#59ffc7"));
            ansi.push(String::from_str("#f97316"));
            ansi.push(String::from_str("#56a7ff"));
            ansi.push(String::from_str("#e7f0ff"));
            ansi.push(String::from_str("#4ce5cc"));
            ansi.push(String::from_str("#fef3c7"));
        },
        ThemePreset::Paper => {
            colors.background = Some(String::from_str("#f2eede"));
            colors.foreground = Some(String::from_str("#000000"));
            colors.cursor = Some(String::from_str("#000000"));
            ansi.push(String::from_str("#000000"));
            ansi.push(String::from_str("#b13a24"));
            ansi.push(String::from_str("#216609"));
            ansi.push(String::from_str("#7a5f00"));
            ansi.push(String::from_str("#1659b7"));
            ansi.push(String::from_str("#5c21a5"));
            ansi.push(String::from_str("#106c66"));
            ansi.push(String::from_str("#5f6673"));
            ansi.push(String::from_str("#555555"));
            ansi.push(String::from_str("#b13a24"));
            ansi.push(String::from_str("#216609"));
            ansi.push(String::from_str("#7a5f00"));
            ansi.push(String::from_str("#1659b7"));
            ansi.push(String::from_str("#5c21a5"));
            ansi.push(String::from_str("#106c66"));
            ansi.push(String::from_str("#5f6673"));
        },
        ThemePreset::TokyoNightLight => {
            colors.background = Some(String::from_str("#D5D6DB"));
            colors.foreground = Some(String::from_str("#4B5563"));
            colors.cursor = Some(String::from_str("#4B5563"));
            ansi.push(String::from_str("#0F0F14"));
            ansi.push(String::from_str("#8C4351"));
            ansi.push(String::from_str("#485E30"));
            ansi.push(String::from_str("#7B4F10"));
            ansi.push(String::from_str("#34548A"));
            ansi.push(String::from_str("#5A4A78"));
            ansi.push(String::from_str("#0F4B6E"));
            ansi.push(String::from_str("#343B58"));
            ansi.push(String::from_str("#4B5563"));
            ansi.push(String::from_str("#8C4351"));
            ansi.push(String::from_str("#485E30"));
            ansi.push(String::from_str("#7B4F10"));
            ansi.push(String::from_str("#34548A"));
            ansi.push(String::from_str("#5A4A78"));
            ansi.push(String::from_str("#0F4B6E"));
            ansi.push(String::from_str("#343B58"));
        },
        ThemePreset::TomorrowNightBright => {
            colors.background = Some(String::from_str("#000000"));
            colors.foreground = Some(String::from_str("#EAEAEA"));
            colors.cursor = Some(String::from_str("#EAEAEA"));
            ansi.push(String::from_str("#2A2A2A"));
            ansi.push(String::from_str("#D54E53"));
            ansi.push(String::from_str("#B9CA4A"));
            ansi.push(String::from_str("#E7C547"));
            ansi.push(String::from_str("#7AA6DA"));
            ansi.push(String::from_str("#C397D8"));
            ansi.push(String::from_str("#70C0B1"));
            ansi.push(String::from_str("#EAEAEA"));
            ansi.push(String::from_str("#969896"));
            ansi.push(String::from_str("#D54E53"));
            ansi.push(String::from_str("#B9CA4A"));
            ansi.push(String::from_str("#E7C547"));
            ansi.push(String::from_str("#7AA6DA"));
            ansi.push(String::from_str("#C397D8"));
            ansi.push(String::from_str("#70C0B1"));
            ansi.push(String::from_str("#FFFFFF"));
        },
        ThemePreset::HemisuDark => {
            colors.background = Some(String::from_str("#000000"));
            colors.foreground = Some(String::from_str("#FFFFFF"));
            colors.cursor = Some(String::from_str("#BAFFAA"));
            ansi.push(String::from_str("#444444"));
            ansi.push(String::from_str("#FF0054"));
            ansi.push(String::from_str("#B1D630"));
            ansi.push(String::from_str("#9D895E"));
            ansi.push(String::from_str("#67BEE3"));
            ansi.push(String::from_str("#B576BC"));
            ansi.push(String::from_str("#569A9F"));
            ansi.push(String::from_str("#EDEDED"));
            ansi.push(String::from_str("#777777"));
            ansi.push(String::from_str("#D65E75"));
            ansi.push(String::from_str("#BAFFAA"));
            ansi.push(String::from_str("#ECE1C8"));
            ansi.push(String::from_str("#9FD3E5"));
            ansi.push(String::from_str("#DEB3DF"));
            ansi.push(String::from_str("#B6E0E5"));
            ansi.push(String::from_str("#FFFFFF"));
        },
    }
    assert(text::texts(ansi@) =~= palette(preset).ansi);
    colors.ansi = Some(ansi);
}

pub open spec fn is_hex_digit(c: char) -> bool {
    '0' <= c <= '9' || 'a' <= c <= 'f' || 'A' <= c <= 'F'
}

/// A hash sign and six hexadecimal digits.
pub open spec fn is_color(s: Seq<char>) -> bool {
    &&& s.len() == 7
    &&& s[0] == '#'
    &&& forall|k: int| 1 <= k < 7 ==> is_hex_digit(#[trigger] s[k])
}

/// Three colours and the sixteen of the terminal.
pub open spec fn all_colors(p: Palette) -> bool {
    &&& is_color(p.background)
    &&& is_color(p.foreground)
    &&& is_color(p.cursor)
    &&& p.ansi.len() == 16
    &&& forall|k: int| 0 <= k < 16 ==> is_color(#[trigger] p.ansi[k])
}

proof fn lemma_original_therminal()
    ensures
        all_colors(palette(ThemePreset::OriginalTherminal)),
{
    assert(is_color("#060a12"@)) by {
        reveal_strlit("#060a12");
    }
    assert(is_color("#e7f0ff"@)) by {
        reveal_strlit("#e7f0ff");
    }
    assert(is_color("#fef3c7"@)) by {
        reveal_strlit("#fef3c7");
    }
    assert(is_color("#ff5f78"@)) by {
        reveal_strlit("#ff5f78");
    }
    assert(is_color("#ffb24f"@)) by {
        reveal_strlit("#ffb24f");
    }
    assert(is_color("#eab308"@)) by {
        reveal_strlit("#eab308");
    }
    assert(is_color("#56a7ff"@)) by {
        reveal_strlit("#56a7ff");
    }
    assert(is_color("#39ffb6"@)) by {
        reveal_strlit("#39ffb6");
    }
    assert(is_color("#7b8fa9"@)) by {
        reveal_strlit("#7b8fa9");
    }
    assert(is_color("#ff7d8f"@)) by {
        reveal_strlit("#ff7d8f");
    }
    assert(is_color("#59ffc7"@)) by {
        reveal_strlit("#59ffc7");
    }
    assert(is_color("#f97316"@)) by {
        reveal_strlit("#f97316");
    }
    assert(is_color("#4ce5cc"@)) by {
        reveal_strlit("#4ce5cc");
    }
}

proof fn lemma_paper()
    ensures
        all_colors(palette(ThemePreset::Paper)),
{
    assert(is_color("#f2eede"@)) by {
        reveal_strlit("#f2eede");
    }
    assert(is_color("#000000"@)) by {
        reveal_strlit("#000000");
    }
    assert(is_color("#b13a24"@)) by {
        reveal_strlit("#b13a24");
    }
    assert(is_color("#216609"@)) by {
        reveal_strlit("#216609");
    }
    assert(is_color("#7a5f00"@)) by {
        reveal_strlit("#7a5f00");
    }
    assert(is_color("#1659b7"@)) by {
        reveal_strlit("#1659b7");
    }
    assert(is_color("#5c21a5"@)) by {
        reveal_strlit("#5c21a5");
    }
    assert(is_color("#106c66"@)) by {
        reveal_strlit("#106c66");
    }
    assert(is_color("#5f6673"@)) by {
        reveal_strlit("#5f6673");
    }
    assert(is_color("#555555"@)) by {
        reveal_strlit("#555555");
    }
}

proof fn lemma_tokyo_night_light()
    ensures
        all_colors(palette(ThemePreset::TokyoNightLight)),
{
    assert(is_color("#D5D6DB"@)) by {
        reveal_strlit("#D5D6DB");
    }
    assert(is_color("#4B5563"@)) by {
        reveal_strlit("#4B5563");
    }
    assert(is_color("#0F0F14"@)) by {
        reveal_strlit("#0F0F14");
    }
    assert(is_color("#8C4351"@)) by {
        reveal_strlit("#8C4351");
    }
    assert(is_color("#485E30"@)) by {
        reveal_strlit("#485E30");
    }
    assert(is_color("#7B4F10"@)) by {
        reveal_strlit("#7B4F10");
    }
    assert(is_color("#34548A"@)) by {
        reveal_strlit("#34548A");
    }
    assert(is_color("#5A4A78"@)) by {
        reveal_strlit("#5A4A78");
    }
    assert(is_color("#0F4B6E"@)) by {
        reveal_strlit("#0F4B6E");
    }
    assert(is_color("#343B58"@)) by {
        reveal_strlit("#343B58");
    }
}

proof fn lemma_tomorrow_night_bright()
    ensures
        all_colors(palette(ThemePreset::TomorrowNightBright)),
{
    assert(is_color("#000000"@)) by {
        reveal_strlit("#000000");
    }
    assert(is_color("#EAEAEA"@)) by {
        reveal_strlit("#EAEAEA");
    }
    assert(is_color("#2A2A2A"@)) by {
        reveal_strlit("#2A2A2A");
    }
    assert(is_color("#D54E53"@)) by {
        reveal_strlit("#D54E53");
    }
    assert(is_color("#B9CA4A"@)) by {
        reveal_strlit("#B9CA4A");
    }
    assert(is_color("#E7C547"@)) by {
        reveal_strlit("#E7C547");
    }
    assert(is_color("#7AA6DA"@)) by {
        reveal_strlit("#7AA6DA");
    }
    assert(is_color("#C397D8"@)) by {
        reveal_strlit("#C397D8");
    }
    assert(is_color("#70C0B1"@)) by {
        reveal_strlit("#70C0B1");
    }
    assert(is_color("#969896"@)) by {
        reveal_strlit("#969896");
    }
    assert(is_color("#FFFFFF"@)) by {
        reveal_strlit("#FFFFFF");
    }
}

proof fn lemma_hemisu_dark()
    ensures
        all_colors(palette(ThemePreset::HemisuDark)),
{
    assert(is_color("#000000"@)) by {
        reveal_strlit("#000000");
    }
    assert(is_color("#FFFFFF"@)) by {
        reveal_strlit("#FFFFFF");
    }
    assert(is_color("#BAFFAA"@)) by {
        reveal_strlit("#BAFFAA");
    }
    assert(is_color("#444444"@)) by {
        reveal_strlit("#444444");
    }
    assert(is_color("#FF0054"@)) by {
        reveal_strlit("#FF0054");
    }
    assert(is_color("#B1D630"@)) by {
        reveal_strlit("#B1D630");
    }
    assert(is_color("#9D895E"@)) by {
        reveal_strlit("#9D895E");
    }
    assert(is_color("#67BEE3"@)) by {
        reveal_strlit("#67BEE3");
    }
    assert(is_color("#B576BC"@)) by {
        reveal_strlit("#B576BC");
    }
    assert(is_color("#569A9F"@)) by {
        reveal_strlit("#569A9F");
    }
    assert(is_color("#EDEDED"@)) by {
        reveal_strlit("#EDEDED");
    }
    assert(is_color("#777777"@)) by {
        reveal_strlit("#777777");
    }
    assert(is_color("#D65E75"@)) by {
        reveal_strlit("#D65E75");
    }
    assert(is_color("#ECE1C8"@)) by {
        reveal_strlit("#ECE1C8");
    }
    assert(is_color("#9FD3E5"@)) by {
        reveal_strlit("#9FD3E5");
    }
    assert(is_color("#DEB3DF"@)) by {
        reveal_strlit("#DEB3DF");
    }
    assert(is_color("#B6E0E5"@)) by {
        reveal_strlit("#B6E0E5");
    }
}

/// Every theme has sixteen colours for the terminal, and each of its colours is
/// written as a hash sign and six hexadecimal digits.
pub proof fn law_palettes_are_complete(preset: ThemePreset)
    ensures
        all_colors(palette(preset)),
{
    lemma_original_therminal();
    lemma_paper();
    lemma_tokyo_night_light();
    lemma_tomorrow_night_bright();
    lemma_hemisu_dark();
}

} // verus!
