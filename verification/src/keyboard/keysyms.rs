//! Character tables of the keyboard: dead keys and their combining
//! characters, and the composition of a base character with a combining one.

use vstd::prelude::*;

verus! {

/// The combining character of a standalone dead-key character, such as
/// COMBINING TILDE for `'~'`.
pub open spec fn dead_combining(dead: char) -> Option<char> {
    match dead {
        '\u{2D9}' => Some('\u{307}'),
        '\u{2DA}' => Some('\u{30A}'),
        '\u{B4}' => Some('\u{301}'),
        '\u{2D8}' => Some('\u{306}'),
        '\u{2C7}' => Some('\u{30C}'),
        '\u{B8}' => Some('\u{327}'),
        '\u{5E}' => Some('\u{302}'),
        '\u{A8}' => Some('\u{308}'),
        '\u{2DD}' => Some('\u{30B}'),
        '\u{60}' => Some('\u{300}'),
        '\u{37A}' => Some('\u{345}'),
        '\u{AF}' => Some('\u{304}'),
        '\u{2DB}' => Some('\u{328}'),
        '\u{7E}' => Some('\u{303}'),
        '\u{309B}' => Some('\u{3099}'),
        '\u{309C}' => Some('\u{309A}'),
        _ => None,
    }
}

/// The standalone dead-key character of a combining character.
pub open spec fn combining_standalone(combining: char) -> Option<char> {
    match combining {
        '\u{307}' => Some('\u{2D9}'),
        '\u{30A}' => Some('\u{2DA}'),
        '\u{301}' => Some('\u{B4}'),
        '\u{306}' => Some('\u{2D8}'),
        '\u{30C}' => Some('\u{2C7}'),
        '\u{327}' => Some('\u{B8}'),
        '\u{302}' => Some('\u{5E}'),
        '\u{308}' => Some('\u{A8}'),
        '\u{30B}' => Some('\u{2DD}'),
        '\u{300}' => Some('\u{60}'),
        '\u{345}' => Some('\u{37A}'),
        '\u{304}' => Some('\u{AF}'),
        '\u{328}' => Some('\u{2DB}'),
        '\u{303}' => Some('\u{7E}'),
        '\u{3099}' => Some('\u{309B}'),
        '\u{309A}' => Some('\u{309C}'),
        _ => None,
    }
}

/// The combining character that an *X* dead keysym (`dead_grave`, ...)
/// stands for.
pub open spec fn dead_keysym_combining(keysym: u32) -> Option<char> {
    match keysym {
        0xFE50 => Some('\u{300}'),
        0xFE51 => Some('\u{301}'),
        0xFE52 => Some('\u{302}'),
        0xFE53 => Some('\u{303}'),
        0xFE54 => Some('\u{304}'),
        0xFE55 => Some('\u{306}'),
        0xFE56 => Some('\u{307}'),
        0xFE57 => Some('\u{308}'),
        0xFE58 => Some('\u{30A}'),
        0xFE59 => Some('\u{30B}'),
        0xFE5A => Some('\u{30C}'),
        0xFE5B => Some('\u{327}'),
        0xFE5C => Some('\u{328}'),
        0xFE5D => Some('\u{345}'),
        0xFE5E => Some('\u{3099}'),
        0xFE5F => Some('\u{309A}'),
        _ => None,
    }
}

/// The precomposed (NFC) character of a base character followed by a
/// combining character, when that is a single scalar value.
pub open spec fn nfc_compose(base: char, combining: char) -> Option<char> {
    match combining {
        '\u{307}' => compose_abovedot(base),
        '\u{30A}' => compose_abovering(base),
        '\u{301}' => compose_acute(base),
        '\u{306}' => compose_breve(base),
        '\u{30C}' => compose_caron(base),
        '\u{327}' => compose_cedilla(base),
        '\u{302}' => compose_circumflex(base),
        '\u{308}' => compose_diaeresis(base),
        '\u{30B}' => compose_doubleacute(base),
        '\u{300}' => compose_grave(base),
        '\u{345}' => compose_iota(base),
        '\u{304}' => compose_macron(base),
        '\u{328}' => compose_ogonek(base),
        '\u{303}' => compose_tilde(base),
        '\u{3099}' => compose_voiced_sound(base),
        '\u{309A}' => compose_semivoiced_sound(base),
        _ => None,
    }
}

/// Composition with the combining abovedot.
pub open spec fn compose_abovedot(base: char) -> Option<char> {
    compose_abovedot_0(base)
}

pub open spec fn compose_abovedot_0(base: char) -> Option<char> {
    match base {
        '\u{41}' => Some('\u{226}'),
        '\u{42}' => Some('\u{1E02}'),
        '\u{43}' => Some('\u{10A}'),
        '\u{44}' => Some('\u{1E0A}'),
        '\u{45}' => Some('\u{116}'),
        '\u{46}' => Some('\u{1E1E}'),
        '\u{47}' => Some('\u{120}'),
        '\u{48}' => Some('\u{1E22}'),
        '\u{49}' => Some('\u{130}'),
        '\u{4D}' => Some('\u{1E40}'),
        '\u{4E}' => Some('\u{1E44}'),
        '\u{4F}' => Some('\u{22E}'),
        '\u{50}' => Some('\u{1E56}'),
        '\u{52}' => Some('\u{1E58}'),
        '\u{53}' => Some('\u{1E60}'),
        '\u{54}' => Some('\u{1E6A}'),
        '\u{57}' => Some('\u{1E86}'),
        '\u{58}' => Some('\u{1E8A}'),
        '\u{59}' => Some('\u{1E8E}'),
        '\u{5A}' => Some('\u{17B}'),
        '\u{61}' => Some('\u{227}'),
        '\u{62}' => Some('\u{1E03}'),
        '\u{63}' => Some('\u{10B}'),
        '\u{64}' => Some('\u{1E0B}'),
        '\u{65}' => Some('\u{117}'),
        '\u{66}' => Some('\u{1E1F}'),
        '\u{67}' => Some('\u{121}'),
        '\u{68}' => Some('\u{1E23}'),
        '\u{6D}' => Some('\u{1E41}'),
        '\u{6E}' => Some('\u{1E45}'),
        '\u{6F}' => Some('\u{22F}'),
        '\u{70}' => Some('\u{1E57}'),
        '\u{72}' => Some('\u{1E59}'),
        '\u{73}' => Some('\u{1E61}'),
        '\u{74}' => Some('\u{1E6B}'),
        '\u{77}' => Some('\u{1E87}'),
        '\u{78}' => Some('\u{1E8B}'),
        '\u{79}' => Some('\u{1E8F}'),
        '\u{7A}' => Some('\u{17C}'),
        '\u{15A}' => Some('\u{1E64}'),
        '\u{15B}' => Some('\u{1E65}'),
        '\u{160}' => Some('\u{1E66}'),
        '\u{161}' => Some('\u{1E67}'),
        '\u{17F}' => Some('\u{1E9B}'),
        '\u{1E62}' => Some('\u{1E68}'),
        '\u{1E63}' => Some('\u{1E69}'),
        _ => None,
    }
}

/// Composition with the combining abovering.
pub open spec fn compose_abovering(base: char) -> Option<char> {
    compose_abovering_0(base)
}

pub open spec fn compose_abovering_0(base: char) -> Option<char> {
    match base {
        '\u{41}' => Some('\u{C5}'),
        '\u{55}' => Some('\u{16E}'),
        '\u{61}' => Some('\u{E5}'),
        '\u{75}' => Some('\u{16F}'),
        '\u{77}' => Some('\u{1E98}'),
        '\u{79}' => Some('\u{1E99}'),
        _ => None,
    }
}

/// Composition with the combining acute.
pub open spec fn compose_acute(base: char) -> Option<char> {
    if base <= '\u{E6}' {
        compose_acute_0(base)
    } else if base <= '\u{1F19}' {
        compose_acute_1(base)
    } else {
        compose_acute_2(base)
    }
}

pub open spec fn compose_acute_0(base: char) -> Option<char> {
    match base {
        '\u{41}' => Some('\u{C1}'),
        '\u{43}' => Some('\u{106}'),
        '\u{45}' => Some('\u{C9}'),
        '\u{47}' => Some('\u{1F4}'),
        '\u{49}' => Some('\u{CD}'),
        '\u{4B}' => Some('\u{1E30}'),
        '\u{4C}' => Some('\u{139}'),
        '\u{4D}' => Some('\u{1E3E}'),
        '\u{4E}' => Some('\u{143}'),
        '\u{4F}' => Some('\u{D3}'),
        '\u{50}' => Some('\u{1E54}'),
        '\u{52}' => Some('\u{154}'),
        '\u{53}' => Some('\u{15A}'),
        '\u{55}' => Some('\u{DA}'),
        '\u{57}' => Some('\u{1E82}'),
        '\u{59}' => Some('\u{DD}'),
        '\u{5A}' => Some('\u{179}'),
        '\u{61}' => Some('\u{E1}'),
        '\u{63}' => Some('\u{107}'),
        '\u{65}' => Some('\u{E9}'),
        '\u{67}' => Some('\u{1F5}'),
        '\u{69}' => Some('\u{ED}'),
        '\u{6B}' => Some('\u{1E31}'),
        '\u{6C}' => Some('\u{13A}'),
        '\u{6D}' => Some('\u{1E3F}'),
        '\u{6E}' => Some('\u{144}'),
        '\u{6F}' => Some('\u{F3}'),
        '\u{70}' => Some('\u{1E55}'),
        '\u{72}' => Some('\u{155}'),
        '\u{73}' => Some('\u{15B}'),
        '\u{75}' => Some('\u{FA}'),
        '\u{77}' => Some('\u{1E83}'),
        '\u{79}' => Some('\u{FD}'),
        '\u{7A}' => Some('\u{17A}'),
        '\u{A8}' => Some('\u{385}'),
        '\u{C2}' => Some('\u{1EA4}'),
        '\u{C5}' => Some('\u{1FA}'),
        '\u{C6}' => Some('\u{1FC}'),
        '\u{C7}' => Some('\u{1E08}'),
        '\u{CA}' => Some('\u{1EBE}'),
        '\u{CF}' => Some('\u{1E2E}'),
        '\u{D4}' => Some('\u{1ED0}'),
        '\u{D5}' => Some('\u{1E4C}'),
        '\u{D8}' => Some('\u{1FE}'),
        '\u{DC}' => Some('\u{1D7}'),
        '\u{E2}' => Some('\u{1EA5}'),
        '\u{E5}' => Some('\u{1FB}'),
        '\u{E6}' => Some('\u{1FD}'),
        _ => None,
    }
}

pub open spec fn compose_acute_1(base: char) -> Option<char> {
    match base {
        '\u{E7}' => Some('\u{1E09}'),
        '\u{EA}' => Some('\u{1EBF}'),
        '\u{EF}' => Some('\u{1E2F}'),
        '\u{F4}' => Some('\u{1ED1}'),
        '\u{F5}' => Some('\u{1E4D}'),
        '\u{F8}' => Some('\u{1FF}'),
        '\u{FC}' => Some('\u{1D8}'),
        '\u{102}' => Some('\u{1EAE}'),
        '\u{103}' => Some('\u{1EAF}'),
        '\u{112}' => Some('\u{1E16}'),
        '\u{113}' => Some('\u{1E17}'),
        '\u{14C}' => Some('\u{1E52}'),
        '\u{14D}' => Some('\u{1E53}'),
        '\u{168}' => Some('\u{1E78}'),
        '\u{169}' => Some('\u{1E79}'),
        '\u{1A0}' => Some('\u{1EDA}'),
        '\u{1A1}' => Some('\u{1EDB}'),
        '\u{1AF}' => Some('\u{1EE8}'),
        '\u{1B0}' => Some('\u{1EE9}'),
        '\u{391}' => Some('\u{386}'),
        '\u{395}' => Some('\u{388}'),
        '\u{397}' => Some('\u{389}'),
        '\u{399}' => Some('\u{38A}'),
        '\u{39F}' => Some('\u{38C}'),
        '\u{3A5}' => Some('\u{38E}'),
        '\u{3A9}' => Some('\u{38F}'),
        '\u{3B1}' => Some('\u{3AC}'),
        '\u{3B5}' => Some('\u{3AD}'),
        '\u{3B7}' => Some('\u{3AE}'),
        '\u{3B9}' => Some('\u{3AF}'),
        '\u{3BF}' => Some('\u{3CC}'),
        '\u{3C5}' => Some('\u{3CD}'),
        '\u{3C9}' => Some('\u{3CE}'),
        '\u{3CA}' => Some('\u{390}'),
        '\u{3CB}' => Some('\u{3B0}'),
        '\u{3D2}' => Some('\u{3D3}'),
        '\u{413}' => Some('\u{403}'),
        '\u{41A}' => Some('\u{40C}'),
        '\u{433}' => Some('\u{453}'),
        '\u{43A}' => Some('\u{45C}'),
        '\u{1F00}' => Some('\u{1F04}'),
        '\u{1F01}' => Some('\u{1F05}'),
        '\u{1F08}' => Some('\u{1F0C}'),
        '\u{1F09}' => Some('\u{1F0D}'),
        '\u{1F10}' => Some('\u{1F14}'),
        '\u{1F11}' => Some('\u{1F15}'),
        '\u{1F18}' => Some('\u{1F1C}'),
        '\u{1F19}' => Some('\u{1F1D}'),
        _ => None,
    }
}

pub open spec fn compose_acute_2(base: char) -> Option<char> {
    match base {
        '\u{1F20}' => Some('\u{1F24}'),
        '\u{1F21}' => Some('\u{1F25}'),
        '\u{1F28}' => Some('\u{1F2C}'),
        '\u{1F29}' => Some('\u{1F2D}'),
        '\u{1F30}' => Some('\u{1F34}'),
        '\u{1F31}' => Some('\u{1F35}'),
        '\u{1F38}' => Some('\u{1F3C}'),
        '\u{1F39}' => Some('\u{1F3D}'),
        '\u{1F40}' => Some('\u{1F44}'),
        '\u{1F41}' => Some('\u{1F45}'),
        '\u{1F48}' => Some('\u{1F4C}'),
        '\u{1F49}' => Some('\u{1F4D}'),
        '\u{1F50}' => Some('\u{1F54}'),
        '\u{1F51}' => Some('\u{1F55}'),
        '\u{1F59}' => Some('\u{1F5D}'),
        '\u{1F60}' => Some('\u{1F64}'),
        '\u{1F61}' => Some('\u{1F65}'),
        '\u{1F68}' => Some('\u{1F6C}'),
        '\u{1F69}' => Some('\u{1F6D}'),
        '\u{1F80}' => Some('\u{1F84}'),
        '\u{1F81}' => Some('\u{1F85}'),
        '\u{1F88}' => Some('\u{1F8C}'),
        '\u{1F89}' => Some('\u{1F8D}'),
        '\u{1F90}' => Some('\u{1F94}'),
        '\u{1F91}' => Some('\u{1F95}'),
        '\u{1F98}' => Some('\u{1F9C}'),
        '\u{1F99}' => Some('\u{1F9D}'),
        '\u{1FA0}' => Some('\u{1FA4}'),
        '\u{1FA1}' => Some('\u{1FA5}'),
        '\u{1FA8}' => Some('\u{1FAC}'),
        '\u{1FA9}' => Some('\u{1FAD}'),
        '\u{1FB3}' => Some('\u{1FB4}'),
        '\u{1FBE}' => Some('\u{3AF}'),
        '\u{1FBF}' => Some('\u{1FCE}'),
        '\u{1FC3}' => Some('\u{1FC4}'),
        '\u{1FF3}' => Some('\u{1FF4}'),
        '\u{1FFE}' => Some('\u{1FDE}'),
        '\u{2126}' => Some('\u{38F}'),
        '\u{212A}' => Some('\u{1E30}'),
        '\u{212B}' => Some('\u{1FA}'),
        _ => None,
    }
}

/// Composition with the combining breve.
pub open spec fn compose_breve(base: char) -> Option<char> {
    compose_breve_0(base)
}

pub open spec fn compose_breve_0(base: char) -> Option<char> {
    match base {
        '\u{41}' => Some('\u{102}'),
        '\u{45}' => Some('\u{114}'),
        '\u{47}' => Some('\u{11E}'),
        '\u{49}' => Some('\u{12C}'),
        '\u{4F}' => Some('\u{14E}'),
        '\u{55}' => Some('\u{16C}'),
        '\u{61}' => Some('\u{103}'),
        '\u{65}' => Some('\u{115}'),
        '\u{67}' => Some('\u{11F}'),
        '\u{69}' => Some('\u{12D}'),
        '\u{6F}' => Some('\u{14F}'),
        '\u{75}' => Some('\u{16D}'),
        '\u{228}' => Some('\u{1E1C}'),
        '\u{229}' => Some('\u{1E1D}'),
        '\u{391}' => Some('\u{1FB8}'),
        '\u{399}' => Some('\u{1FD8}'),
        '\u{3A5}' => Some('\u{1FE8}'),
        '\u{3B1}' => Some('\u{1FB0}'),
        '\u{3B9}' => Some('\u{1FD0}'),
        '\u{3C5}' => Some('\u{1FE0}'),
        '\u{410}' => Some('\u{4D0}'),
        '\u{415}' => Some('\u{4D6}'),
        '\u{416}' => Some('\u{4C1}'),
        '\u{418}' => Some('\u{419}'),
        '\u{423}' => Some('\u{40E}'),
        '\u{430}' => Some('\u{4D1}'),
        '\u{435}' => Some('\u{4D7}'),
        '\u{436}' => Some('\u{4C2}'),
        '\u{438}' => Some('\u{439}'),
        '\u{443}' => Some('\u{45E}'),
        '\u{1EA0}' => Some('\u{1EB6}'),
        '\u{1EA1}' => Some('\u{1EB7}'),
        '\u{1FBE}' => Some('\u{1FD0}'),
        _ => None,
    }
}

/// Composition with the combining caron.
pub open spec fn compose_caron(base: char) -> Option<char> {
    compose_caron_0(base)
}

pub open spec fn compose_caron_0(base: char) -> Option<char> {
    match base {
        '\u{41}' => Some('\u{1CD}'),
        '\u{43}' => Some('\u{10C}'),
        '\u{44}' => Some('\u{10E}'),
        '\u{45}' => Some('\u{11A}'),
        '\u{47}' => Some('\u{1E6}'),
        '\u{48}' => Some('\u{21E}'),
        '\u{49}' => Some('\u{1CF}'),
        '\u{4B}' => Some('\u{1E8}'),
        '\u{4C}' => Some('\u{13D}'),
        '\u{4E}' => Some('\u{147}'),
        '\u{4F}' => Some('\u{1D1}'),
        '\u{52}' => Some('\u{158}'),
        '\u{53}' => Some('\u{160}'),
        '\u{54}' => Some('\u{164}'),
        '\u{55}' => Some('\u{1D3}'),
        '\u{5A}' => Some('\u{17D}'),
        '\u{61}' => Some('\u{1CE}'),
        '\u{63}' => Some('\u{10D}'),
        '\u{64}' => Some('\u{10F}'),
        '\u{65}' => Some('\u{11B}'),
        '\u{67}' => Some('\u{1E7}'),
        '\u{68}' => Some('\u{21F}'),
        '\u{69}' => Some('\u{1D0}'),
        '\u{6A}' => Some('\u{1F0}'),
        '\u{6B}' => Some('\u{1E9}'),
        '\u{6C}' => Some('\u{13E}'),
        '\u{6E}' => Some('\u{148}'),
        '\u{6F}' => Some('\u{1D2}'),
        '\u{72}' => Some('\u{159}'),
        '\u{73}' => Some('\u{161}'),
        '\u{74}' => Some('\u{165}'),
        '\u{75}' => Some('\u{1D4}'),
        '\u{7A}' => Some('\u{17E}'),
        '\u{DC}' => Some('\u{1D9}'),
        '\u{FC}' => Some('\u{1DA}'),
        '\u{1B7}' => Some('\u{1EE}'),
        '\u{292}' => Some('\u{1EF}'),
        '\u{212A}' => Some('\u{1E8}'),
        _ => None,
    }
}

/// Composition with the combining cedilla.
pub open spec fn compose_cedilla(base: char) -> Option<char> {
    compose_cedilla_0(base)
}

pub open spec fn compose_cedilla_0(base: char) -> Option<char> {
    match base {
        '\u{43}' => Some('\u{C7}'),
        '\u{44}' => Some('\u{1E10}'),
        '\u{45}' => Some('\u{228}'),
        '\u{47}' => Some('\u{122}'),
        '\u{48}' => Some('\u{1E28}'),
        '\u{4B}' => Some('\u{136}'),
        '\u{4C}' => Some('\u{13B}'),
        '\u{4E}' => Some('\u{145}'),
        '\u{52}' => Some('\u{156}'),
        '\u{53}' => Some('\u{15E}'),
        '\u{54}' => Some('\u{162}'),
        '\u{63}' => Some('\u{E7}'),
        '\u{64}' => Some('\u{1E11}'),
        '\u{65}' => Some('\u{229}'),
        '\u{67}' => Some('\u{123}'),
        '\u{68}' => Some('\u{1E29}'),
        '\u{6B}' => Some('\u{137}'),
        '\u{6C}' => Some('\u{13C}'),
        '\u{6E}' => Some('\u{146}'),
        '\u{72}' => Some('\u{157}'),
        '\u{73}' => Some('\u{15F}'),
        '\u{74}' => Some('\u{163}'),
        '\u{106}' => Some('\u{1E08}'),
        '\u{107}' => Some('\u{1E09}'),
        '\u{114}' => Some('\u{1E1C}'),
        '\u{115}' => Some('\u{1E1D}'),
        '\u{212A}' => Some('\u{136}'),
        _ => None,
    }
}

/// Composition with the combining circumflex.
pub open spec fn compose_circumflex(base: char) -> Option<char> {
    compose_circumflex_0(base)
}

pub open spec fn compose_circumflex_0(base: char) -> Option<char> {
    match base {
        '\u{41}' => Some('\u{C2}'),
        '\u{43}' => Some('\u{108}'),
        '\u{45}' => Some('\u{CA}'),
        '\u{47}' => Some('\u{11C}'),
        '\u{48}' => Some('\u{124}'),
        '\u{49}' => Some('\u{CE}'),
        '\u{4A}' => Some('\u{134}'),
        '\u{4F}' => Some('\u{D4}'),
        '\u{53}' => Some('\u{15C}'),
        '\u{55}' => Some('\u{DB}'),
        '\u{57}' => Some('\u{174}'),
        '\u{59}' => Some('\u{176}'),
        '\u{5A}' => Some('\u{1E90}'),
        '\u{61}' => Some('\u{E2}'),
        '\u{63}' => Some('\u{109}'),
        '\u{65}' => Some('\u{EA}'),
        '\u{67}' => Some('\u{11D}'),
        '\u{68}' => Some('\u{125}'),
        '\u{69}' => Some('\u{EE}'),
        '\u{6A}' => Some('\u{135}'),
        '\u{6F}' => Some('\u{F4}'),
        '\u{73}' => Some('\u{15D}'),
        '\u{75}' => Some('\u{FB}'),
        '\u{77}' => Some('\u{175}'),
        '\u{79}' => Some('\u{177}'),
        '\u{7A}' => Some('\u{1E91}'),
        '\u{1EA0}' => Some('\u{1EAC}'),
        '\u{1EA1}' => Some('\u{1EAD}'),
        '\u{1EB8}' => Some('\u{1EC6}'),
        '\u{1EB9}' => Some('\u{1EC7}'),
        '\u{1ECC}' => Some('\u{1ED8}'),
        '\u{1ECD}' => Some('\u{1ED9}'),
        _ => None,
    }
}

/// Composition with the combining diaeresis.
pub open spec fn compose_diaeresis(base: char) -> Option<char> {
    if base <= '\u{44B}' {
        compose_diaeresis_0(base)
    } else {
        compose_diaeresis_1(base)
    }
}

pub open spec fn compose_diaeresis_0(base: char) -> Option<char> {
    match base {
        '\u{41}' => Some('\u{C4}'),
        '\u{45}' => Some('\u{CB}'),
        '\u{48}' => Some('\u{1E26}'),
        '\u{49}' => Some('\u{CF}'),
        '\u{4F}' => Some('\u{D6}'),
        '\u{55}' => Some('\u{DC}'),
        '\u{57}' => Some('\u{1E84}'),
        '\u{58}' => Some('\u{1E8C}'),
        '\u{59}' => Some('\u{178}'),
        '\u{61}' => Some('\u{E4}'),
        '\u{65}' => Some('\u{EB}'),
        '\u{68}' => Some('\u{1E27}'),
        '\u{69}' => Some('\u{EF}'),
        '\u{6F}' => Some('\u{F6}'),
        '\u{74}' => Some('\u{1E97}'),
        '\u{75}' => Some('\u{FC}'),
        '\u{77}' => Some('\u{1E85}'),
        '\u{78}' => Some('\u{1E8D}'),
        '\u{79}' => Some('\u{FF}'),
        '\u{D5}' => Some('\u{1E4E}'),
        '\u{F5}' => Some('\u{1E4F}'),
        '\u{16A}' => Some('\u{1E7A}'),
        '\u{16B}' => Some('\u{1E7B}'),
        '\u{399}' => Some('\u{3AA}'),
        '\u{3A5}' => Some('\u{3AB}'),
        '\u{3B9}' => Some('\u{3CA}'),
        '\u{3C5}' => Some('\u{3CB}'),
        '\u{3D2}' => Some('\u{3D4}'),
        '\u{406}' => Some('\u{407}'),
        '\u{410}' => Some('\u{4D2}'),
        '\u{415}' => Some('\u{401}'),
        '\u{416}' => Some('\u{4DC}'),
        '\u{417}' => Some('\u{4DE}'),
        '\u{418}' => Some('\u{4E4}'),
        '\u{41E}' => Some('\u{4E6}'),
        '\u{423}' => Some('\u{4F0}'),
        '\u{427}' => Some('\u{4F4}'),
        '\u{42B}' => Some('\u{4F8}'),
        '\u{42D}' => Some('\u{4EC}'),
        '\u{430}' => Some('\u{4D3}'),
        '\u{435}' => Some('\u{451}'),
        '\u{436}' => Some('\u{4DD}'),
        '\u{437}' => Some('\u{4DF}'),
        '\u{438}' => Some('\u{4E5}'),
        '\u{43E}' => Some('\u{4E7}'),
        '\u{443}' => Some('\u{4F1}'),
        '\u{447}' => Some('\u{4F5}'),
        '\u{44B}' => Some('\u{4F9}'),
        _ => None,
    }
}

pub open spec fn compose_diaeresis_1(base: char) -> Option<char> {
    match base {
        '\u{44D}' => Some('\u{4ED}'),
        '\u{456}' => Some('\u{457}'),
        '\u{4D8}' => Some('\u{4DA}'),
        '\u{4D9}' => Some('\u{4DB}'),
        '\u{4E8}' => Some('\u{4EA}'),
        '\u{4E9}' => Some('\u{4EB}'),
        '\u{1FBE}' => Some('\u{3CA}'),
        _ => None,
    }
}

/// Composition with the combining doubleacute.
pub open spec fn compose_doubleacute(base: char) -> Option<char> {
    compose_doubleacute_0(base)
}

pub open spec fn compose_doubleacute_0(base: char) -> Option<char> {
    match base {
        '\u{4F}' => Some('\u{150}'),
        '\u{55}' => Some('\u{170}'),
        '\u{6F}' => Some('\u{151}'),
        '\u{75}' => Some('\u{171}'),
        '\u{423}' => Some('\u{4F2}'),
        '\u{443}' => Some('\u{4F3}'),
        _ => None,
    }
}

/// Composition with the combining grave.
pub open spec fn compose_grave(base: char) -> Option<char> {
    if base <= '\u{3C5}' {
        compose_grave_0(base)
    } else if base <= '\u{1FBE}' {
        compose_grave_1(base)
    } else {
        compose_grave_2(base)
    }
}

pub open spec fn compose_grave_0(base: char) -> Option<char> {
    match base {
        '\u{41}' => Some('\u{C0}'),
        '\u{45}' => Some('\u{C8}'),
        '\u{49}' => Some('\u{CC}'),
        '\u{4E}' => Some('\u{1F8}'),
        '\u{4F}' => Some('\u{D2}'),
        '\u{55}' => Some('\u{D9}'),
        '\u{57}' => Some('\u{1E80}'),
        '\u{59}' => Some('\u{1EF2}'),
        '\u{61}' => Some('\u{E0}'),
        '\u{65}' => Some('\u{E8}'),
        '\u{69}' => Some('\u{EC}'),
        '\u{6E}' => Some('\u{1F9}'),
        '\u{6F}' => Some('\u{F2}'),
        '\u{75}' => Some('\u{F9}'),
        '\u{77}' => Some('\u{1E81}'),
        '\u{79}' => Some('\u{1EF3}'),
        '\u{A8}' => Some('\u{1FED}'),
        '\u{C2}' => Some('\u{1EA6}'),
        '\u{CA}' => Some('\u{1EC0}'),
        '\u{D4}' => Some('\u{1ED2}'),
        '\u{DC}' => Some('\u{1DB}'),
        '\u{E2}' => Some('\u{1EA7}'),
        '\u{EA}' => Some('\u{1EC1}'),
        '\u{F4}' => Some('\u{1ED3}'),
        '\u{FC}' => Some('\u{1DC}'),
        '\u{102}' => Some('\u{1EB0}'),
        '\u{103}' => Some('\u{1EB1}'),
        '\u{112}' => Some('\u{1E14}'),
        '\u{113}' => Some('\u{1E15}'),
        '\u{14C}' => Some('\u{1E50}'),
        '\u{14D}' => Some('\u{1E51}'),
        '\u{1A0}' => Some('\u{1EDC}'),
        '\u{1A1}' => Some('\u{1EDD}'),
        '\u{1AF}' => Some('\u{1EEA}'),
        '\u{1B0}' => Some('\u{1EEB}'),
        '\u{391}' => Some('\u{1FBA}'),
        '\u{395}' => Some('\u{1FC8}'),
        '\u{397}' => Some('\u{1FCA}'),
        '\u{399}' => Some('\u{1FDA}'),
        '\u{39F}' => Some('\u{1FF8}'),
        '\u{3A5}' => Some('\u{1FEA}'),
        '\u{3A9}' => Some('\u{1FFA}'),
        '\u{3B1}' => Some('\u{1F70}'),
        '\u{3B5}' => Some('\u{1F72}'),
        '\u{3B7}' => Some('\u{1F74}'),
        '\u{3B9}' => Some('\u{1F76}'),
        '\u{3BF}' => Some('\u{1F78}'),
        '\u{3C5}' => Some('\u{1F7A}'),
        _ => None,
    }
}

pub open spec fn compose_grave_1(base: char) -> Option<char> {
    match base {
        '\u{3C9}' => Some('\u{1F7C}'),
        '\u{3CA}' => Some('\u{1FD2}'),
        '\u{3CB}' => Some('\u{1FE2}'),
        '\u{415}' => Some('\u{400}'),
        '\u{418}' => Some('\u{40D}'),
        '\u{435}' => Some('\u{450}'),
        '\u{438}' => Some('\u{45D}'),
        '\u{1F00}' => Some('\u{1F02}'),
        '\u{1F01}' => Some('\u{1F03}'),
        '\u{1F08}' => Some('\u{1F0A}'),
        '\u{1F09}' => Some('\u{1F0B}'),
        '\u{1F10}' => Some('\u{1F12}'),
        '\u{1F11}' => Some('\u{1F13}'),
        '\u{1F18}' => Some('\u{1F1A}'),
        '\u{1F19}' => Some('\u{1F1B}'),
        '\u{1F20}' => Some('\u{1F22}'),
        '\u{1F21}' => Some('\u{1F23}'),
        '\u{1F28}' => Some('\u{1F2A}'),
        '\u{1F29}' => Some('\u{1F2B}'),
        '\u{1F30}' => Some('\u{1F32}'),
        '\u{1F31}' => Some('\u{1F33}'),
        '\u{1F38}' => Some('\u{1F3A}'),
        '\u{1F39}' => Some('\u{1F3B}'),
        '\u{1F40}' => Some('\u{1F42}'),
        '\u{1F41}' => Some('\u{1F43}'),
        '\u{1F48}' => Some('\u{1F4A}'),
        '\u{1F49}' => Some('\u{1F4B}'),
        '\u{1F50}' => Some('\u{1F52}'),
        '\u{1F51}' => Some('\u{1F53}'),
        '\u{1F59}' => Some('\u{1F5B}'),
        '\u{1F60}' => Some('\u{1F62}'),
        '\u{1F61}' => Some('\u{1F63}'),
        '\u{1F68}' => Some('\u{1F6A}'),
        '\u{1F69}' => Some('\u{1F6B}'),
        '\u{1F80}' => Some('\u{1F82}'),
        '\u{1F81}' => Some('\u{1F83}'),
        '\u{1F88}' => Some('\u{1F8A}'),
        '\u{1F89}' => Some('\u{1F8B}'),
        '\u{1F90}' => Some('\u{1F92}'),
        '\u{1F91}' => Some('\u{1F93}'),
        '\u{1F98}' => Some('\u{1F9A}'),
        '\u{1F99}' => Some('\u{1F9B}'),
        '\u{1FA0}' => Some('\u{1FA2}'),
        '\u{1FA1}' => Some('\u{1FA3}'),
        '\u{1FA8}' => Some('\u{1FAA}'),
        '\u{1FA9}' => Some('\u{1FAB}'),
        '\u{1FB3}' => Some('\u{1FB2}'),
        '\u{1FBE}' => Some('\u{1F76}'),
        _ => None,
    }
}

pub open spec fn compose_grave_2(base: char) -> Option<char> {
    match base {
        '\u{1FBF}' => Some('\u{1FCD}'),
        '\u{1FC3}' => Some('\u{1FC2}'),
        '\u{1FF3}' => Some('\u{1FF2}'),
        '\u{1FFE}' => Some('\u{1FDD}'),
        '\u{2126}' => Some('\u{1FFA}'),
        _ => None,
    }
}

/// Composition with the combining iota.
pub open spec fn compose_iota(base: char) -> Option<char> {
    if base <= '\u{1F66}' {
        compose_iota_0(base)
    } else {
        compose_iota_1(base)
    }
}

pub open spec fn compose_iota_0(base: char) -> Option<char> {
    match base {
        '\u{391}' => Some('\u{1FBC}'),
        '\u{397}' => Some('\u{1FCC}'),
        '\u{3A9}' => Some('\u{1FFC}'),
        '\u{3AC}' => Some('\u{1FB4}'),
        '\u{3AE}' => Some('\u{1FC4}'),
        '\u{3B1}' => Some('\u{1FB3}'),
        '\u{3B7}' => Some('\u{1FC3}'),
        '\u{3C9}' => Some('\u{1FF3}'),
        '\u{3CE}' => Some('\u{1FF4}'),
        '\u{1F00}' => Some('\u{1F80}'),
        '\u{1F01}' => Some('\u{1F81}'),
        '\u{1F02}' => Some('\u{1F82}'),
        '\u{1F03}' => Some('\u{1F83}'),
        '\u{1F04}' => Some('\u{1F84}'),
        '\u{1F05}' => Some('\u{1F85}'),
        '\u{1F06}' => Some('\u{1F86}'),
        '\u{1F07}' => Some('\u{1F87}'),
        '\u{1F08}' => Some('\u{1F88}'),
        '\u{1F09}' => Some('\u{1F89}'),
        '\u{1F0A}' => Some('\u{1F8A}'),
        '\u{1F0B}' => Some('\u{1F8B}'),
        '\u{1F0C}' => Some('\u{1F8C}'),
        '\u{1F0D}' => Some('\u{1F8D}'),
        '\u{1F0E}' => Some('\u{1F8E}'),
        '\u{1F0F}' => Some('\u{1F8F}'),
        '\u{1F20}' => Some('\u{1F90}'),
        '\u{1F21}' => Some('\u{1F91}'),
        '\u{1F22}' => Some('\u{1F92}'),
        '\u{1F23}' => Some('\u{1F93}'),
        '\u{1F24}' => Some('\u{1F94}'),
        '\u{1F25}' => Some('\u{1F95}'),
        '\u{1F26}' => Some('\u{1F96}'),
        '\u{1F27}' => Some('\u{1F97}'),
        '\u{1F28}' => Some('\u{1F98}'),
        '\u{1F29}' => Some('\u{1F99}'),
        '\u{1F2A}' => Some('\u{1F9A}'),
        '\u{1F2B}' => Some('\u{1F9B}'),
        '\u{1F2C}' => Some('\u{1F9C}'),
        '\u{1F2D}' => Some('\u{1F9D}'),
        '\u{1F2E}' => Some('\u{1F9E}'),
        '\u{1F2F}' => Some('\u{1F9F}'),
        '\u{1F60}' => Some('\u{1FA0}'),
        '\u{1F61}' => Some('\u{1FA1}'),
        '\u{1F62}' => Some('\u{1FA2}'),
        '\u{1F63}' => Some('\u{1FA3}'),
        '\u{1F64}' => Some('\u{1FA4}'),
        '\u{1F65}' => Some('\u{1FA5}'),
        '\u{1F66}' => Some('\u{1FA6}'),
        _ => None,
    }
}

pub open spec fn compose_iota_1(base: char) -> Option<char> {
    match base {
        '\u{1F67}' => Some('\u{1FA7}'),
        '\u{1F68}' => Some('\u{1FA8}'),
        '\u{1F69}' => Some('\u{1FA9}'),
        '\u{1F6A}' => Some('\u{1FAA}'),
        '\u{1F6B}' => Some('\u{1FAB}'),
        '\u{1F6C}' => Some('\u{1FAC}'),
        '\u{1F6D}' => Some('\u{1FAD}'),
        '\u{1F6E}' => Some('\u{1FAE}'),
        '\u{1F6F}' => Some('\u{1FAF}'),
        '\u{1F70}' => Some('\u{1FB2}'),
        '\u{1F71}' => Some('\u{1FB4}'),
        '\u{1F74}' => Some('\u{1FC2}'),
        '\u{1F75}' => Some('\u{1FC4}'),
        '\u{1F7C}' => Some('\u{1FF2}'),
        '\u{1F7D}' => Some('\u{1FF4}'),
        '\u{1FB6}' => Some('\u{1FB7}'),
        '\u{1FC6}' => Some('\u{1FC7}'),
        '\u{1FF6}' => Some('\u{1FF7}'),
        '\u{2126}' => Some('\u{1FFC}'),
        _ => None,
    }
}

/// Composition with the combining macron.
pub open spec fn compose_macron(base: char) -> Option<char> {
    compose_macron_0(base)
}

pub open spec fn compose_macron_0(base: char) -> Option<char> {
    match base {
        '\u{41}' => Some('\u{100}'),
        '\u{45}' => Some('\u{112}'),
        '\u{47}' => Some('\u{1E20}'),
        '\u{49}' => Some('\u{12A}'),
        '\u{4F}' => Some('\u{14C}'),
        '\u{55}' => Some('\u{16A}'),
        '\u{59}' => Some('\u{232}'),
        '\u{61}' => Some('\u{101}'),
        '\u{65}' => Some('\u{113}'),
        '\u{67}' => Some('\u{1E21}'),
        '\u{69}' => Some('\u{12B}'),
        '\u{6F}' => Some('\u{14D}'),
        '\u{75}' => Some('\u{16B}'),
        '\u{79}' => Some('\u{233}'),
        '\u{C4}' => Some('\u{1DE}'),
        '\u{C6}' => Some('\u{1E2}'),
        '\u{D5}' => Some('\u{22C}'),
        '\u{D6}' => Some('\u{22A}'),
        '\u{DC}' => Some('\u{1D5}'),
        '\u{E4}' => Some('\u{1DF}'),
        '\u{E6}' => Some('\u{1E3}'),
        '\u{F5}' => Some('\u{22D}'),
        '\u{F6}' => Some('\u{22B}'),
        '\u{FC}' => Some('\u{1D6}'),
        '\u{1EA}' => Some('\u{1EC}'),
        '\u{1EB}' => Some('\u{1ED}'),
        '\u{226}' => Some('\u{1E0}'),
        '\u{227}' => Some('\u{1E1}'),
        '\u{22E}' => Some('\u{230}'),
        '\u{22F}' => Some('\u{231}'),
        '\u{391}' => Some('\u{1FB9}'),
        '\u{399}' => Some('\u{1FD9}'),
        '\u{3A5}' => Some('\u{1FE9}'),
        '\u{3B1}' => Some('\u{1FB1}'),
        '\u{3B9}' => Some('\u{1FD1}'),
        '\u{3C5}' => Some('\u{1FE1}'),
        '\u{418}' => Some('\u{4E2}'),
        '\u{423}' => Some('\u{4EE}'),
        '\u{438}' => Some('\u{4E3}'),
        '\u{443}' => Some('\u{4EF}'),
        '\u{1E36}' => Some('\u{1E38}'),
        '\u{1E37}' => Some('\u{1E39}'),
        '\u{1E5A}' => Some('\u{1E5C}'),
        '\u{1E5B}' => Some('\u{1E5D}'),
        '\u{1FBE}' => Some('\u{1FD1}'),
        _ => None,
    }
}

/// Composition with the combining ogonek.
pub open spec fn compose_ogonek(base: char) -> Option<char> {
    compose_ogonek_0(base)
}

pub open spec fn compose_ogonek_0(base: char) -> Option<char> {
    match base {
        '\u{41}' => Some('\u{104}'),
        '\u{45}' => Some('\u{118}'),
        '\u{49}' => Some('\u{12E}'),
        '\u{4F}' => Some('\u{1EA}'),
        '\u{55}' => Some('\u{172}'),
        '\u{61}' => Some('\u{105}'),
        '\u{65}' => Some('\u{119}'),
        '\u{69}' => Some('\u{12F}'),
        '\u{6F}' => Some('\u{1EB}'),
        '\u{75}' => Some('\u{173}'),
        '\u{14C}' => Some('\u{1EC}'),
        '\u{14D}' => Some('\u{1ED}'),
        _ => None,
    }
}

/// Composition with the combining tilde.
pub open spec fn compose_tilde(base: char) -> Option<char> {
    compose_tilde_0(base)
}

pub open spec fn compose_tilde_0(base: char) -> Option<char> {
    match base {
        '\u{41}' => Some('\u{C3}'),
        '\u{45}' => Some('\u{1EBC}'),
        '\u{49}' => Some('\u{128}'),
        '\u{4E}' => Some('\u{D1}'),
        '\u{4F}' => Some('\u{D5}'),
        '\u{55}' => Some('\u{168}'),
        '\u{56}' => Some('\u{1E7C}'),
        '\u{59}' => Some('\u{1EF8}'),
        '\u{61}' => Some('\u{E3}'),
        '\u{65}' => Some('\u{1EBD}'),
        '\u{69}' => Some('\u{129}'),
        '\u{6E}' => Some('\u{F1}'),
        '\u{6F}' => Some('\u{F5}'),
        '\u{75}' => Some('\u{169}'),
        '\u{76}' => Some('\u{1E7D}'),
        '\u{79}' => Some('\u{1EF9}'),
        '\u{C2}' => Some('\u{1EAA}'),
        '\u{CA}' => Some('\u{1EC4}'),
        '\u{D4}' => Some('\u{1ED6}'),
        '\u{E2}' => Some('\u{1EAB}'),
        '\u{EA}' => Some('\u{1EC5}'),
        '\u{F4}' => Some('\u{1ED7}'),
        '\u{102}' => Some('\u{1EB4}'),
        '\u{103}' => Some('\u{1EB5}'),
        '\u{1A0}' => Some('\u{1EE0}'),
        '\u{1A1}' => Some('\u{1EE1}'),
        '\u{1AF}' => Some('\u{1EEE}'),
        '\u{1B0}' => Some('\u{1EEF}'),
        _ => None,
    }
}

/// Composition with the combining voiced sound.
pub open spec fn compose_voiced_sound(base: char) -> Option<char> {
    compose_voiced_sound_0(base)
}

pub open spec fn compose_voiced_sound_0(base: char) -> Option<char> {
    match base {
        '\u{3046}' => Some('\u{3094}'),
        '\u{304B}' => Some('\u{304C}'),
        '\u{304D}' => Some('\u{304E}'),
        '\u{304F}' => Some('\u{3050}'),
        '\u{3051}' => Some('\u{3052}'),
        '\u{3053}' => Some('\u{3054}'),
        '\u{3055}' => Some('\u{3056}'),
        '\u{3057}' => Some('\u{3058}'),
        '\u{3059}' => Some('\u{305A}'),
        '\u{305B}' => Some('\u{305C}'),
        '\u{305D}' => Some('\u{305E}'),
        '\u{305F}' => Some('\u{3060}'),
        '\u{3061}' => Some('\u{3062}'),
        '\u{3064}' => Some('\u{3065}'),
        '\u{3066}' => Some('\u{3067}'),
        '\u{3068}' => Some('\u{3069}'),
        '\u{306F}' => Some('\u{3070}'),
        '\u{3072}' => Some('\u{3073}'),
        '\u{3075}' => Some('\u{3076}'),
        '\u{3078}' => Some('\u{3079}'),
        '\u{307B}' => Some('\u{307C}'),
        '\u{309D}' => Some('\u{309E}'),
        '\u{30A6}' => Some('\u{30F4}'),
        '\u{30AB}' => Some('\u{30AC}'),
        '\u{30AD}' => Some('\u{30AE}'),
        '\u{30AF}' => Some('\u{30B0}'),
        '\u{30B1}' => Some('\u{30B2}'),
        '\u{30B3}' => Some('\u{30B4}'),
        '\u{30B5}' => Some('\u{30B6}'),
        '\u{30B7}' => Some('\u{30B8}'),
        '\u{30B9}' => Some('\u{30BA}'),
        '\u{30BB}' => Some('\u{30BC}'),
        '\u{30BD}' => Some('\u{30BE}'),
        '\u{30BF}' => Some('\u{30C0}'),
        '\u{30C1}' => Some('\u{30C2}'),
        '\u{30C4}' => Some('\u{30C5}'),
        '\u{30C6}' => Some('\u{30C7}'),
        '\u{30C8}' => Some('\u{30C9}'),
        '\u{30CF}' => Some('\u{30D0}'),
        '\u{30D2}' => Some('\u{30D3}'),
        '\u{30D5}' => Some('\u{30D6}'),
        '\u{30D8}' => Some('\u{30D9}'),
        '\u{30DB}' => Some('\u{30DC}'),
        '\u{30EF}' => Some('\u{30F7}'),
        '\u{30F0}' => Some('\u{30F8}'),
        '\u{30F1}' => Some('\u{30F9}'),
        '\u{30F2}' => Some('\u{30FA}'),
        '\u{30FD}' => Some('\u{30FE}'),
        _ => None,
    }
}

/// Composition with the combining semivoiced sound.
pub open spec fn compose_semivoiced_sound(base: char) -> Option<char> {
    compose_semivoiced_sound_0(base)
}

pub open spec fn compose_semivoiced_sound_0(base: char) -> Option<char> {
    match base {
        '\u{306F}' => Some('\u{3071}'),
        '\u{3072}' => Some('\u{3074}'),
        '\u{3075}' => Some('\u{3077}'),
        '\u{3078}' => Some('\u{307A}'),
        '\u{307B}' => Some('\u{307D}'),
        '\u{30CF}' => Some('\u{30D1}'),
        '\u{30D2}' => Some('\u{30D4}'),
        '\u{30D5}' => Some('\u{30D7}'),
        '\u{30D8}' => Some('\u{30DA}'),
        '\u{30DB}' => Some('\u{30DD}'),
        _ => None,
    }
}

/// Returns the combining character for a standalone dead-key character.
pub fn combining_for(dead: char) -> (combining: Option<char>)
    ensures
        combining == dead_combining(dead),
{
    match dead {
        '\u{2D9}' => Some('\u{307}'),
        '\u{2DA}' => Some('\u{30A}'),
        '\u{B4}' => Some('\u{301}'),
        '\u{2D8}' => Some('\u{306}'),
        '\u{2C7}' => Some('\u{30C}'),
        '\u{B8}' => Some('\u{327}'),
        '\u{5E}' => Some('\u{302}'),
        '\u{A8}' => Some('\u{308}'),
        '\u{2DD}' => Some('\u{30B}'),
        '\u{60}' => Some('\u{300}'),
        '\u{37A}' => Some('\u{345}'),
        '\u{AF}' => Some('\u{304}'),
        '\u{2DB}' => Some('\u{328}'),
        '\u{7E}' => Some('\u{303}'),
        '\u{309B}' => Some('\u{3099}'),
        '\u{309C}' => Some('\u{309A}'),
        _ => None,
    }
}

/// Returns the standalone dead-key character for a combining character.
pub fn dead_standalone(combining: char) -> (dead: Option<char>)
    ensures
        dead == combining_standalone(combining),
{
    match combining {
        '\u{307}' => Some('\u{2D9}'),
        '\u{30A}' => Some('\u{2DA}'),
        '\u{301}' => Some('\u{B4}'),
        '\u{306}' => Some('\u{2D8}'),
        '\u{30C}' => Some('\u{2C7}'),
        '\u{327}' => Some('\u{B8}'),
        '\u{302}' => Some('\u{5E}'),
        '\u{308}' => Some('\u{A8}'),
        '\u{30B}' => Some('\u{2DD}'),
        '\u{300}' => Some('\u{60}'),
        '\u{345}' => Some('\u{37A}'),
        '\u{304}' => Some('\u{AF}'),
        '\u{328}' => Some('\u{2DB}'),
        '\u{303}' => Some('\u{7E}'),
        '\u{3099}' => Some('\u{309B}'),
        '\u{309A}' => Some('\u{309C}'),
        _ => None,
    }
}

/// Returns the combining character an *X* dead keysym stands for.
pub fn keysym_combining(keysym: u32) -> (combining: Option<char>)
    ensures
        combining == dead_keysym_combining(keysym),
{
    match keysym {
        0xFE50 => Some('\u{300}'),
        0xFE51 => Some('\u{301}'),
        0xFE52 => Some('\u{302}'),
        0xFE53 => Some('\u{303}'),
        0xFE54 => Some('\u{304}'),
        0xFE55 => Some('\u{306}'),
        0xFE56 => Some('\u{307}'),
        0xFE57 => Some('\u{308}'),
        0xFE58 => Some('\u{30A}'),
        0xFE59 => Some('\u{30B}'),
        0xFE5A => Some('\u{30C}'),
        0xFE5B => Some('\u{327}'),
        0xFE5C => Some('\u{328}'),
        0xFE5D => Some('\u{345}'),
        0xFE5E => Some('\u{3099}'),
        0xFE5F => Some('\u{309A}'),
        _ => None,
    }
}

/// Composes a base character with a combining character, returning the
/// precomposed form when it is a single scalar value.
pub fn compose(base: char, combining: char) -> (composed: Option<char>)
    ensures
        composed == nfc_compose(base, combining),
{
    match combining {
        '\u{307}' => exec_compose_abovedot(base),
        '\u{30A}' => exec_compose_abovering(base),
        '\u{301}' => exec_compose_acute(base),
        '\u{306}' => exec_compose_breve(base),
        '\u{30C}' => exec_compose_caron(base),
        '\u{327}' => exec_compose_cedilla(base),
        '\u{302}' => exec_compose_circumflex(base),
        '\u{308}' => exec_compose_diaeresis(base),
        '\u{30B}' => exec_compose_doubleacute(base),
        '\u{300}' => exec_compose_grave(base),
        '\u{345}' => exec_compose_iota(base),
        '\u{304}' => exec_compose_macron(base),
        '\u{328}' => exec_compose_ogonek(base),
        '\u{303}' => exec_compose_tilde(base),
        '\u{3099}' => exec_compose_voiced_sound(base),
        '\u{309A}' => exec_compose_semivoiced_sound(base),
        _ => None,
    }
}

fn exec_compose_abovedot(base: char) -> (composed: Option<char>)
    ensures
        composed == compose_abovedot(base),
{
    exec_compose_abovedot_0(base)
}

fn exec_compose_abovedot_0(base: char) -> (composed: Option<char>)
    ensures
        composed == compose_abovedot_0(base),
{
    match base {
        '\u{41}' => Some('\u{226}'),
        '\u{42}' => Some('\u{1E02}'),
        '\u{43}' => Some('\u{10A}'),
        '\u{44}' => Some('\u{1E0A}'),
        '\u{45}' => Some('\u{116}'),
        '\u{46}' => Some('\u{1E1E}'),
        '\u{47}' => Some('\u{120}'),
        '\u{48}' => Some('\u{1E22}'),
        '\u{49}' => Some('\u{130}'),
        '\u{4D}' => Some('\u{1E40}'),
        '\u{4E}' => Some('\u{1E44}'),
        '\u{4F}' => Some('\u{22E}'),
        '\u{50}' => Some('\u{1E56}'),
        '\u{52}' => Some('\u{1E58}'),
        '\u{53}' => Some('\u{1E60}'),
        '\u{54}' => Some('\u{1E6A}'),
        '\u{57}' => Some('\u{1E86}'),
        '\u{58}' => Some('\u{1E8A}'),
        '\u{59}' => Some('\u{1E8E}'),
        '\u{5A}' => Some('\u{17B}'),
        '\u{61}' => Some('\u{227}'),
        '\u{62}' => Some('\u{1E03}'),
        '\u{63}' => Some('\u{10B}'),
        '\u{64}' => Some('\u{1E0B}'),
        '\u{65}' => Some('\u{117}'),
        '\u{66}' => Some('\u{1E1F}'),
        '\u{67}' => Some('\u{121}'),
        '\u{68}' => Some('\u{1E23}'),
        '\u{6D}' => Some('\u{1E41}'),
        '\u{6E}' => Some('\u{1E45}'),
        '\u{6F}' => Some('\u{22F}'),
        '\u{70}' => Some('\u{1E57}'),
        '\u{72}' => Some('\u{1E59}'),
        '\u{73}' => Some('\u{1E61}'),
        '\u{74}' => Some('\u{1E6B}'),
        '\u{77}' => Some('\u{1E87}'),
        '\u{78}' => Some('\u{1E8B}'),
        '\u{79}' => Some('\u{1E8F}'),
        '\u{7A}' => Some('\u{17C}'),
        '\u{15A}' => Some('\u{1E64}'),
        '\u{15B}' => Some('\u{1E65}'),
        '\u{160}' => Some('\u{1E66}'),
        '\u{161}' => Some('\u{1E67}'),
        '\u{17F}' => Some('\u{1E9B}'),
        '\u{1E62}' => Some('\u{1E68}'),
        '\u{1E63}' => Some('\u{1E69}'),
        _ => None,
    }
}

fn exec_compose_abovering(base: char) -> (composed: Option<char>)
    ensures
        composed == compose_abovering(base),
{
    exec_compose_abovering_0(base)
}

fn exec_compose_abovering_0(base: char) -> (composed: Option<char>)
    ensures
        composed == compose_abovering_0(base),
{
    match base {
        '\u{41}' => Some('\u{C5}'),
        '\u{55}' => Some('\u{16E}'),
        '\u{61}' => Some('\u{E5}'),
        '\u{75}' => Some('\u{16F}'),
        '\u{77}' => Some('\u{1E98}'),
        '\u{79}' => Some('\u{1E99}'),
        _ => None,
    }
}

fn exec_compose_acute(base: char) -> (composed: Option<char>)
    ensures
        composed == compose_acute(base),
{
    if base <= '\u{E6}' {
        exec_compose_acute_0(base)
    } else if base <= '\u{1F19}' {
        exec_compose_acute_1(base)
    } else {
        exec_compose_acute_2(base)
    }
}

fn exec_compose_acute_0(base: char) -> (composed: Option<char>)
    ensures
        composed == compose_acute_0(base),
{
    match base {
        '\u{41}' => Some('\u{C1}'),
        '\u{43}' => Some('\u{106}'),
        '\u{45}' => Some('\u{C9}'),
        '\u{47}' => Some('\u{1F4}'),
        '\u{49}' => Some('\u{CD}'),
        '\u{4B}' => Some('\u{1E30}'),
        '\u{4C}' => Some('\u{139}'),
        '\u{4D}' => Some('\u{1E3E}'),
        '\u{4E}' => Some('\u{143}'),
        '\u{4F}' => Some('\u{D3}'),
        '\u{50}' => Some('\u{1E54}'),
        '\u{52}' => Some('\u{154}'),
        '\u{53}' => Some('\u{15A}'),
        '\u{55}' => Some('\u{DA}'),
        '\u{57}' => Some('\u{1E82}'),
        '\u{59}' => Some('\u{DD}'),
        '\u{5A}' => Some('\u{179}'),
        '\u{61}' => Some('\u{E1}'),
        '\u{63}' => Some('\u{107}'),
        '\u{65}' => Some('\u{E9}'),
        '\u{67}' => Some('\u{1F5}'),
        '\u{69}' => Some('\u{ED}'),
        '\u{6B}' => Some('\u{1E31}'),
        '\u{6C}' => Some('\u{13A}'),
        '\u{6D}' => Some('\u{1E3F}'),
        '\u{6E}' => Some('\u{144}'),
        '\u{6F}' => Some('\u{F3}'),
        '\u{70}' => Some('\u{1E55}'),
        '\u{72}' => Some('\u{155}'),
        '\u{73}' => Some('\u{15B}'),
        '\u{75}' => Some('\u{FA}'),
        '\u{77}' => Some('\u{1E83}'),
        '\u{79}' => Some('\u{FD}'),
        '\u{7A}' => Some('\u{17A}'),
        '\u{A8}' => Some('\u{385}'),
        '\u{C2}' => Some('\u{1EA4}'),
        '\u{C5}' => Some('\u{1FA}'),
        '\u{C6}' => Some('\u{1FC}'),
        '\u{C7}' => Some('\u{1E08}'),
        '\u{CA}' => Some('\u{1EBE}'),
        '\u{CF}' => Some('\u{1E2E}'),
        '\u{D4}' => Some('\u{1ED0}'),
        '\u{D5}' => Some('\u{1E4C}'),
        '\u{D8}' => Some('\u{1FE}'),
        '\u{DC}' => Some('\u{1D7}'),
        '\u{E2}' => Some('\u{1EA5}'),
        '\u{E5}' => Some('\u{1FB}'),
        '\u{E6}' => Some('\u{1FD}'),
        _ => None,
    }
}

fn exec_compose_acute_1(base: char) -> (composed: Option<char>)
    ensures
        composed == compose_acute_1(base),
{
    match base {
        '\u{E7}' => Some('\u{1E09}'),
        '\u{EA}' => Some('\u{1EBF}'),
        '\u{EF}' => Some('\u{1E2F}'),
        '\u{F4}' => Some('\u{1ED1}'),
        '\u{F5}' => Some('\u{1E4D}'),
        '\u{F8}' => Some('\u{1FF}'),
        '\u{FC}' => Some('\u{1D8}'),
        '\u{102}' => Some('\u{1EAE}'),
        '\u{103}' => Some('\u{1EAF}'),
        '\u{112}' => Some('\u{1E16}'),
        '\u{113}' => Some('\u{1E17}'),
        '\u{14C}' => Some('\u{1E52}'),
        '\u{14D}' => Some('\u{1E53}'),
        '\u{168}' => Some('\u{1E78}'),
        '\u{169}' => Some('\u{1E79}'),
        '\u{1A0}' => Some('\u{1EDA}'),
        '\u{1A1}' => Some('\u{1EDB}'),
        '\u{1AF}' => Some('\u{1EE8}'),
        '\u{1B0}' => Some('\u{1EE9}'),
        '\u{391}' => Some('\u{386}'),
        '\u{395}' => Some('\u{388}'),
        '\u{397}' => Some('\u{389}'),
        '\u{399}' => Some('\u{38A}'),
        '\u{39F}' => Some('\u{38C}'),
        '\u{3A5}' => Some('\u{38E}'),
        '\u{3A9}' => Some('\u{38F}'),
        '\u{3B1}' => Some('\u{3AC}'),
        '\u{3B5}' => Some('\u{3AD}'),
        '\u{3B7}' => Some('\u{3AE}'),
        '\u{3B9}' => Some('\u{3AF}'),
        '\u{3BF}' => Some('\u{3CC}'),
        '\u{3C5}' => Some('\u{3CD}'),
        '\u{3C9}' => Some('\u{3CE}'),
        '\u{3CA}' => Some('\u{390}'),
        '\u{3CB}' => Some('\u{3B0}'),
        '\u{3D2}' => Some('\u{3D3}'),
        '\u{413}' => Some('\u{403}'),
        '\u{41A}' => Some('\u{40C}'),
        '\u{433}' => Some('\u{453}'),
        '\u{43A}' => Some('\u{45C}'),
        '\u{1F00}' => Some('\u{1F04}'),
        '\u{1F01}' => Some('\u{1F05}'),
        '\u{1F08}' => Some('\u{1F0C}'),
        '\u{1F09}' => Some('\u{1F0D}'),
        '\u{1F10}' => Some('\u{1F14}'),
        '\u{1F11}' => Some('\u{1F15}'),
        '\u{1F18}' => Some('\u{1F1C}'),
        '\u{1F19}' => Some('\u{1F1D}'),
        _ => None,
    }
}

fn exec_compose_acute_2(base: char) -> (composed: Option<char>)
    ensures
        composed == compose_acute_2(base),
{
    match base {
        '\u{1F20}' => Some('\u{1F24}'),
        '\u{1F21}' => Some('\u{1F25}'),
        '\u{1F28}' => Some('\u{1F2C}'),
        '\u{1F29}' => Some('\u{1F2D}'),
        '\u{1F30}' => Some('\u{1F34}'),
        '\u{1F31}' => Some('\u{1F35}'),
        '\u{1F38}' => Some('\u{1F3C}'),
        '\u{1F39}' => Some('\u{1F3D}'),
        '\u{1F40}' => Some('\u{1F44}'),
        '\u{1F41}' => Some('\u{1F45}'),
        '\u{1F48}' => Some('\u{1F4C}'),
        '\u{1F49}' => Some('\u{1F4D}'),
        '\u{1F50}' => Some('\u{1F54}'),
        '\u{1F51}' => Some('\u{1F55}'),
        '\u{1F59}' => Some('\u{1F5D}'),
        '\u{1F60}' => Some('\u{1F64}'),
        '\u{1F61}' => Some('\u{1F65}'),
        '\u{1F68}' => Some('\u{1F6C}'),
        '\u{1F69}' => Some('\u{1F6D}'),
        '\u{1F80}' => Some('\u{1F84}'),
        '\u{1F81}' => Some('\u{1F85}'),
        '\u{1F88}' => Some('\u{1F8C}'),
        '\u{1F89}' => Some('\u{1F8D}'),
        '\u{1F90}' => Some('\u{1F94}'),
        '\u{1F91}' => Some('\u{1F95}'),
        '\u{1F98}' => Some('\u{1F9C}'),
        '\u{1F99}' => Some('\u{1F9D}'),
        '\u{1FA0}' => Some('\u{1FA4}'),
        '\u{1FA1}' => Some('\u{1FA5}'),
        '\u{1FA8}' => Some('\u{1FAC}'),
        '\u{1FA9}' => Some('\u{1FAD}'),
        '\u{1FB3}' => Some('\u{1FB4}'),
        '\u{1FBE}' => Some('\u{3AF}'),
        '\u{1FBF}' => Some('\u{1FCE}'),
        '\u{1FC3}' => Some('\u{1FC4}'),
        '\u{1FF3}' => Some('\u{1FF4}'),
        '\u{1FFE}' => Some('\u{1FDE}'),
        '\u{2126}' => Some('\u{38F}'),
        '\u{212A}' => Some('\u{1E30}'),
        '\u{212B}' => Some('\u{1FA}'),
        _ => None,
    }
}

fn exec_compose_breve(base: char) -> (composed: Option<char>)
    ensures
        composed == compose_breve(base),
{
    exec_compose_breve_0(base)
}

fn exec_compose_breve_0(base: char) -> (composed: Option<char>)
    ensures
        composed == compose_breve_0(base),
{
    match base {
        '\u{41}' => Some('\u{102}'),
        '\u{45}' => Some('\u{114}'),
        '\u{47}' => Some('\u{11E}'),
        '\u{49}' => Some('\u{12C}'),
        '\u{4F}' => Some('\u{14E}'),
        '\u{55}' => Some('\u{16C}'),
        '\u{61}' => Some('\u{103}'),
        '\u{65}' => Some('\u{115}'),
        '\u{67}' => Some('\u{11F}'),
        '\u{69}' => Some('\u{12D}'),
        '\u{6F}' => Some('\u{14F}'),
        '\u{75}' => Some('\u{16D}'),
        '\u{228}' => Some('\u{1E1C}'),
        '\u{229}' => Some('\u{1E1D}'),
        '\u{391}' => Some('\u{1FB8}'),
        '\u{399}' => Some('\u{1FD8}'),
        '\u{3A5}' => Some('\u{1FE8}'),
        '\u{3B1}' => Some('\u{1FB0}'),
        '\u{3B9}' => Some('\u{1FD0}'),
        '\u{3C5}' => Some('\u{1FE0}'),
        '\u{410}' => Some('\u{4D0}'),
        '\u{415}' => Some('\u{4D6}'),
        '\u{416}' => Some('\u{4C1}'),
        '\u{418}' => Some('\u{419}'),
        '\u{423}' => Some('\u{40E}'),
        '\u{430}' => Some('\u{4D1}'),
        '\u{435}' => Some('\u{4D7}'),
        '\u{436}' => Some('\u{4C2}'),
        '\u{438}' => Some('\u{439}'),
        '\u{443}' => Some('\u{45E}'),
        '\u{1EA0}' => Some('\u{1EB6}'),
        '\u{1EA1}' => Some('\u{1EB7}'),
        '\u{1FBE}' => Some('\u{1FD0}'),
        _ => None,
    }
}

fn exec_compose_caron(base: char) -> (composed: Option<char>)
    ensures
        composed == compose_caron(base),
{
    exec_compose_caron_0(base)
}

fn exec_compose_caron_0(base: char) -> (composed: Option<char>)
    ensures
        composed == compose_caron_0(base),
{
    match base {
        '\u{41}' => Some('\u{1CD}'),
        '\u{43}' => Some('\u{10C}'),
        '\u{44}' => Some('\u{10E}'),
        '\u{45}' => Some('\u{11A}'),
        '\u{47}' => Some('\u{1E6}'),
        '\u{48}' => Some('\u{21E}'),
        '\u{49}' => Some('\u{1CF}'),
        '\u{4B}' => Some('\u{1E8}'),
        '\u{4C}' => Some('\u{13D}'),
        '\u{4E}' => Some('\u{147}'),
        '\u{4F}' => Some('\u{1D1}'),
        '\u{52}' => Some('\u{158}'),
        '\u{53}' => Some('\u{160}'),
        '\u{54}' => Some('\u{164}'),
        '\u{55}' => Some('\u{1D3}'),
        '\u{5A}' => Some('\u{17D}'),
        '\u{61}' => Some('\u{1CE}'),
        '\u{63}' => Some('\u{10D}'),
        '\u{64}' => Some('\u{10F}'),
        '\u{65}' => Some('\u{11B}'),
        '\u{67}' => Some('\u{1E7}'),
        '\u{68}' => Some('\u{21F}'),
        '\u{69}' => Some('\u{1D0}'),
        '\u{6A}' => Some('\u{1F0}'),
        '\u{6B}' => Some('\u{1E9}'),
        '\u{6C}' => Some('\u{13E}'),
        '\u{6E}' => Some('\u{148}'),
        '\u{6F}' => Some('\u{1D2}'),
        '\u{72}' => Some('\u{159}'),
        '\u{73}' => Some('\u{161}'),
        '\u{74}' => Some('\u{165}'),
        '\u{75}' => Some('\u{1D4}'),
        '\u{7A}' => Some('\u{17E}'),
        '\u{DC}' => Some('\u{1D9}'),
        '\u{FC}' => Some('\u{1DA}'),
        '\u{1B7}' => Some('\u{1EE}'),
        '\u{292}' => Some('\u{1EF}'),
        '\u{212A}' => Some('\u{1E8}'),
        _ => None,
    }
}

fn exec_compose_cedilla(base: char) -> (composed: Option<char>)
    ensures
        composed == compose_cedilla(base),
{
    exec_compose_cedilla_0(base)
}

fn exec_compose_cedilla_0(base: char) -> (composed: Option<char>)
    ensures
        composed == compose_cedilla_0(base),
{
    match base {
        '\u{43}' => Some('\u{C7}'),
        '\u{44}' => Some('\u{1E10}'),
        '\u{45}' => Some('\u{228}'),
        '\u{47}' => Some('\u{122}'),
        '\u{48}' => Some('\u{1E28}'),
        '\u{4B}' => Some('\u{136}'),
        '\u{4C}' => Some('\u{13B}'),
        '\u{4E}' => Some('\u{145}'),
        '\u{52}' => Some('\u{156}'),
        '\u{53}' => Some('\u{15E}'),
        '\u{54}' => Some('\u{162}'),
        '\u{63}' => Some('\u{E7}'),
        '\u{64}' => Some('\u{1E11}'),
        '\u{65}' => Some('\u{229}'),
        '\u{67}' => Some('\u{123}'),
        '\u{68}' => Some('\u{1E29}'),
        '\u{6B}' => Some('\u{137}'),
        '\u{6C}' => Some('\u{13C}'),
        '\u{6E}' => Some('\u{146}'),
        '\u{72}' => Some('\u{157}'),
        '\u{73}' => Some('\u{15F}'),
        '\u{74}' => Some('\u{163}'),
        '\u{106}' => Some('\u{1E08}'),
        '\u{107}' => Some('\u{1E09}'),
        '\u{114}' => Some('\u{1E1C}'),
        '\u{115}' => Some('\u{1E1D}'),
        '\u{212A}' => Some('\u{136}'),
        _ => None,
    }
}

fn exec_compose_circumflex(base: char) -> (composed: Option<char>)
    ensures
        composed == compose_circumflex(base),
{
    exec_compose_circumflex_0(base)
}

fn exec_compose_circumflex_0(base: char) -> (composed: Option<char>)
    ensures
        composed == compose_circumflex_0(base),
{
    match base {
        '\u{41}' => Some('\u{C2}'),
        '\u{43}' => Some('\u{108}'),
        '\u{45}' => Some('\u{CA}'),
        '\u{47}' => Some('\u{11C}'),
        '\u{48}' => Some('\u{124}'),
        '\u{49}' => Some('\u{CE}'),
        '\u{4A}' => Some('\u{134}'),
        '\u{4F}' => Some('\u{D4}'),
        '\u{53}' => Some('\u{15C}'),
        '\u{55}' => Some('\u{DB}'),
        '\u{57}' => Some('\u{174}'),
        '\u{59}' => Some('\u{176}'),
        '\u{5A}' => Some('\u{1E90}'),
        '\u{61}' => Some('\u{E2}'),
        '\u{63}' => Some('\u{109}'),
        '\u{65}' => Some('\u{EA}'),
        '\u{67}' => Some('\u{11D}'),
        '\u{68}' => Some('\u{125}'),
        '\u{69}' => Some('\u{EE}'),
        '\u{6A}' => Some('\u{135}'),
        '\u{6F}' => Some('\u{F4}'),
        '\u{73}' => Some('\u{15D}'),
        '\u{75}' => Some('\u{FB}'),
        '\u{77}' => Some('\u{175}'),
        '\u{79}' => Some('\u{177}'),
        '\u{7A}' => Some('\u{1E91}'),
        '\u{1EA0}' => Some('\u{1EAC}'),
        '\u{1EA1}' => Some('\u{1EAD}'),
        '\u{1EB8}' => Some('\u{1EC6}'),
        '\u{1EB9}' => Some('\u{1EC7}'),
        '\u{1ECC}' => Some('\u{1ED8}'),
        '\u{1ECD}' => Some('\u{1ED9}'),
        _ => None,
    }
}

fn exec_compose_diaeresis(base: char) -> (composed: Option<char>)
    ensures
        composed == compose_diaeresis(base),
{
    if base <= '\u{44B}' {
        exec_compose_diaeresis_0(base)
    } else {
        exec_compose_diaeresis_1(base)
    }
}

fn exec_compose_diaeresis_0(base: char) -> (composed: Option<char>)
    ensures
        composed == compose_diaeresis_0(base),
{
    match base {
        '\u{41}' => Some('\u{C4}'),
        '\u{45}' => Some('\u{CB}'),
        '\u{48}' => Some('\u{1E26}'),
        '\u{49}' => Some('\u{CF}'),
        '\u{4F}' => Some('\u{D6}'),
        '\u{55}' => Some('\u{DC}'),
        '\u{57}' => Some('\u{1E84}'),
        '\u{58}' => Some('\u{1E8C}'),
        '\u{59}' => Some('\u{178}'),
        '\u{61}' => Some('\u{E4}'),
        '\u{65}' => Some('\u{EB}'),
        '\u{68}' => Some('\u{1E27}'),
        '\u{69}' => Some('\u{EF}'),
        '\u{6F}' => Some('\u{F6}'),
        '\u{74}' => Some('\u{1E97}'),
        '\u{75}' => Some('\u{FC}'),
        '\u{77}' => Some('\u{1E85}'),
        '\u{78}' => Some('\u{1E8D}'),
        '\u{79}' => Some('\u{FF}'),
        '\u{D5}' => Some('\u{1E4E}'),
        '\u{F5}' => Some('\u{1E4F}'),
        '\u{16A}' => Some('\u{1E7A}'),
        '\u{16B}' => Some('\u{1E7B}'),
        '\u{399}' => Some('\u{3AA}'),
        '\u{3A5}' => Some('\u{3AB}'),
        '\u{3B9}' => Some('\u{3CA}'),
        '\u{3C5}' => Some('\u{3CB}'),
        '\u{3D2}' => Some('\u{3D4}'),
        '\u{406}' => Some('\u{407}'),
        '\u{410}' => Some('\u{4D2}'),
        '\u{415}' => Some('\u{401}'),
        '\u{416}' => Some('\u{4DC}'),
        '\u{417}' => Some('\u{4DE}'),
        '\u{418}' => Some('\u{4E4}'),
        '\u{41E}' => Some('\u{4E6}'),
        '\u{423}' => Some('\u{4F0}'),
        '\u{427}' => Some('\u{4F4}'),
        '\u{42B}' => Some('\u{4F8}'),
        '\u{42D}' => Some('\u{4EC}'),
        '\u{430}' => Some('\u{4D3}'),
        '\u{435}' => Some('\u{451}'),
        '\u{436}' => Some('\u{4DD}'),
        '\u{437}' => Some('\u{4DF}'),
        '\u{438}' => Some('\u{4E5}'),
        '\u{43E}' => Some('\u{4E7}'),
        '\u{443}' => Some('\u{4F1}'),
        '\u{447}' => Some('\u{4F5}'),
        '\u{44B}' => Some('\u{4F9}'),
        _ => None,
    }
}

fn exec_compose_diaeresis_1(base: char) -> (composed: Option<char>)
    ensures
        composed == compose_diaeresis_1(base),
{
    match base {
        '\u{44D}' => Some('\u{4ED}'),
        '\u{456}' => Some('\u{457}'),
        '\u{4D8}' => Some('\u{4DA}'),
        '\u{4D9}' => Some('\u{4DB}'),
        '\u{4E8}' => Some('\u{4EA}'),
        '\u{4E9}' => Some('\u{4EB}'),
        '\u{1FBE}' => Some('\u{3CA}'),
        _ => None,
    }
}

fn exec_compose_doubleacute(base: char) -> (composed: Option<char>)
    ensures
        composed == compose_doubleacute(base),
{
    exec_compose_doubleacute_0(base)
}

fn exec_compose_doubleacute_0(base: char) -> (composed: Option<char>)
    ensures
        composed == compose_doubleacute_0(base),
{
    match base {
        '\u{4F}' => Some('\u{150}'),
        '\u{55}' => Some('\u{170}'),
        '\u{6F}' => Some('\u{151}'),
        '\u{75}' => Some('\u{171}'),
        '\u{423}' => Some('\u{4F2}'),
        '\u{443}' => Some('\u{4F3}'),
        _ => None,
    }
}

fn exec_compose_grave(base: char) -> (composed: Option<char>)
    ensures
        composed == compose_grave(base),
{
    if base <= '\u{3C5}' {
        exec_compose_grave_0(base)
    } else if base <= '\u{1FBE}' {
        exec_compose_grave_1(base)
    } else {
        exec_compose_grave_2(base)
    }
}

fn exec_compose_grave_0(base: char) -> (composed: Option<char>)
    ensures
        composed == compose_grave_0(base),
{
    match base {
        '\u{41}' => Some('\u{C0}'),
        '\u{45}' => Some('\u{C8}'),
        '\u{49}' => Some('\u{CC}'),
        '\u{4E}' => Some('\u{1F8}'),
        '\u{4F}' => Some('\u{D2}'),
        '\u{55}' => Some('\u{D9}'),
        '\u{57}' => Some('\u{1E80}'),
        '\u{59}' => Some('\u{1EF2}'),
        '\u{61}' => Some('\u{E0}'),
        '\u{65}' => Some('\u{E8}'),
        '\u{69}' => Some('\u{EC}'),
        '\u{6E}' => Some('\u{1F9}'),
        '\u{6F}' => Some('\u{F2}'),
        '\u{75}' => Some('\u{F9}'),
        '\u{77}' => Some('\u{1E81}'),
        '\u{79}' => Some('\u{1EF3}'),
        '\u{A8}' => Some('\u{1FED}'),
        '\u{C2}' => Some('\u{1EA6}'),
        '\u{CA}' => Some('\u{1EC0}'),
        '\u{D4}' => Some('\u{1ED2}'),
        '\u{DC}' => Some('\u{1DB}'),
        '\u{E2}' => Some('\u{1EA7}'),
        '\u{EA}' => Some('\u{1EC1}'),
        '\u{F4}' => Some('\u{1ED3}'),
        '\u{FC}' => Some('\u{1DC}'),
        '\u{102}' => Some('\u{1EB0}'),
        '\u{103}' => Some('\u{1EB1}'),
        '\u{112}' => Some('\u{1E14}'),
        '\u{113}' => Some('\u{1E15}'),
        '\u{14C}' => Some('\u{1E50}'),
        '\u{14D}' => Some('\u{1E51}'),
        '\u{1A0}' => Some('\u{1EDC}'),
        '\u{1A1}' => Some('\u{1EDD}'),
        '\u{1AF}' => Some('\u{1EEA}'),
        '\u{1B0}' => Some('\u{1EEB}'),
        '\u{391}' => Some('\u{1FBA}'),
        '\u{395}' => Some('\u{1FC8}'),
        '\u{397}' => Some('\u{1FCA}'),
        '\u{399}' => Some('\u{1FDA}'),
        '\u{39F}' => Some('\u{1FF8}'),
        '\u{3A5}' => Some('\u{1FEA}'),
        '\u{3A9}' => Some('\u{1FFA}'),
        '\u{3B1}' => Some('\u{1F70}'),
        '\u{3B5}' => Some('\u{1F72}'),
        '\u{3B7}' => Some('\u{1F74}'),
        '\u{3B9}' => Some('\u{1F76}'),
        '\u{3BF}' => Some('\u{1F78}'),
        '\u{3C5}' => Some('\u{1F7A}'),
        _ => None,
    }
}

fn exec_compose_grave_1(base: char) -> (composed: Option<char>)
    ensures
        composed == compose_grave_1(base),
{
    match base {
        '\u{3C9}' => Some('\u{1F7C}'),
        '\u{3CA}' => Some('\u{1FD2}'),
        '\u{3CB}' => Some('\u{1FE2}'),
        '\u{415}' => Some('\u{400}'),
        '\u{418}' => Some('\u{40D}'),
        '\u{435}' => Some('\u{450}'),
        '\u{438}' => Some('\u{45D}'),
        '\u{1F00}' => Some('\u{1F02}'),
        '\u{1F01}' => Some('\u{1F03}'),
        '\u{1F08}' => Some('\u{1F0A}'),
        '\u{1F09}' => Some('\u{1F0B}'),
        '\u{1F10}' => Some('\u{1F12}'),
        '\u{1F11}' => Some('\u{1F13}'),
        '\u{1F18}' => Some('\u{1F1A}'),
        '\u{1F19}' => Some('\u{1F1B}'),
        '\u{1F20}' => Some('\u{1F22}'),
        '\u{1F21}' => Some('\u{1F23}'),
        '\u{1F28}' => Some('\u{1F2A}'),
        '\u{1F29}' => Some('\u{1F2B}'),
        '\u{1F30}' => Some('\u{1F32}'),
        '\u{1F31}' => Some('\u{1F33}'),
        '\u{1F38}' => Some('\u{1F3A}'),
        '\u{1F39}' => Some('\u{1F3B}'),
        '\u{1F40}' => Some('\u{1F42}'),
        '\u{1F41}' => Some('\u{1F43}'),
        '\u{1F48}' => Some('\u{1F4A}'),
        '\u{1F49}' => Some('\u{1F4B}'),
        '\u{1F50}' => Some('\u{1F52}'),
        '\u{1F51}' => Some('\u{1F53}'),
        '\u{1F59}' => Some('\u{1F5B}'),
        '\u{1F60}' => Some('\u{1F62}'),
        '\u{1F61}' => Some('\u{1F63}'),
        '\u{1F68}' => Some('\u{1F6A}'),
        '\u{1F69}' => Some('\u{1F6B}'),
        '\u{1F80}' => Some('\u{1F82}'),
        '\u{1F81}' => Some('\u{1F83}'),
        '\u{1F88}' => Some('\u{1F8A}'),
        '\u{1F89}' => Some('\u{1F8B}'),
        '\u{1F90}' => Some('\u{1F92}'),
        '\u{1F91}' => Some('\u{1F93}'),
        '\u{1F98}' => Some('\u{1F9A}'),
        '\u{1F99}' => Some('\u{1F9B}'),
        '\u{1FA0}' => Some('\u{1FA2}'),
        '\u{1FA1}' => Some('\u{1FA3}'),
        '\u{1FA8}' => Some('\u{1FAA}'),
        '\u{1FA9}' => Some('\u{1FAB}'),
        '\u{1FB3}' => Some('\u{1FB2}'),
        '\u{1FBE}' => Some('\u{1F76}'),
        _ => None,
    }
}

fn exec_compose_grave_2(base: char) -> (composed: Option<char>)
    ensures
        composed == compose_grave_2(base),
{
    match base {
        '\u{1FBF}' => Some('\u{1FCD}'),
        '\u{1FC3}' => Some('\u{1FC2}'),
        '\u{1FF3}' => Some('\u{1FF2}'),
        '\u{1FFE}' => Some('\u{1FDD}'),
        '\u{2126}' => Some('\u{1FFA}'),
        _ => None,
    }
}

fn exec_compose_iota(base: char) -> (composed: Option<char>)
    ensures
        composed == compose_iota(base),
{
    if base <= '\u{1F66}' {
        exec_compose_iota_0(base)
    } else {
        exec_compose_iota_1(base)
    }
}

fn exec_compose_iota_0(base: char) -> (composed: Option<char>)
    ensures
        composed == compose_iota_0(base),
{
    match base {
        '\u{391}' => Some('\u{1FBC}'),
        '\u{397}' => Some('\u{1FCC}'),
        '\u{3A9}' => Some('\u{1FFC}'),
        '\u{3AC}' => Some('\u{1FB4}'),
        '\u{3AE}' => Some('\u{1FC4}'),
        '\u{3B1}' => Some('\u{1FB3}'),
        '\u{3B7}' => Some('\u{1FC3}'),
        '\u{3C9}' => Some('\u{1FF3}'),
        '\u{3CE}' => Some('\u{1FF4}'),
        '\u{1F00}' => Some('\u{1F80}'),
        '\u{1F01}' => Some('\u{1F81}'),
        '\u{1F02}' => Some('\u{1F82}'),
        '\u{1F03}' => Some('\u{1F83}'),
        '\u{1F04}' => Some('\u{1F84}'),
        '\u{1F05}' => Some('\u{1F85}'),
        '\u{1F06}' => Some('\u{1F86}'),
        '\u{1F07}' => Some('\u{1F87}'),
        '\u{1F08}' => Some('\u{1F88}'),
        '\u{1F09}' => Some('\u{1F89}'),
        '\u{1F0A}' => Some('\u{1F8A}'),
        '\u{1F0B}' => Some('\u{1F8B}'),
        '\u{1F0C}' => Some('\u{1F8C}'),
        '\u{1F0D}' => Some('\u{1F8D}'),
        '\u{1F0E}' => Some('\u{1F8E}'),
        '\u{1F0F}' => Some('\u{1F8F}'),
        '\u{1F20}' => Some('\u{1F90}'),
        '\u{1F21}' => Some('\u{1F91}'),
        '\u{1F22}' => Some('\u{1F92}'),
        '\u{1F23}' => Some('\u{1F93}'),
        '\u{1F24}' => Some('\u{1F94}'),
        '\u{1F25}' => Some('\u{1F95}'),
        '\u{1F26}' => Some('\u{1F96}'),
        '\u{1F27}' => Some('\u{1F97}'),
        '\u{1F28}' => Some('\u{1F98}'),
        '\u{1F29}' => Some('\u{1F99}'),
        '\u{1F2A}' => Some('\u{1F9A}'),
        '\u{1F2B}' => Some('\u{1F9B}'),
        '\u{1F2C}' => Some('\u{1F9C}'),
        '\u{1F2D}' => Some('\u{1F9D}'),
        '\u{1F2E}' => Some('\u{1F9E}'),
        '\u{1F2F}' => Some('\u{1F9F}'),
        '\u{1F60}' => Some('\u{1FA0}'),
        '\u{1F61}' => Some('\u{1FA1}'),
        '\u{1F62}' => Some('\u{1FA2}'),
        '\u{1F63}' => Some('\u{1FA3}'),
        '\u{1F64}' => Some('\u{1FA4}'),
        '\u{1F65}' => Some('\u{1FA5}'),
        '\u{1F66}' => Some('\u{1FA6}'),
        _ => None,
    }
}

fn exec_compose_iota_1(base: char) -> (composed: Option<char>)
    ensures
        composed == compose_iota_1(base),
{
    match base {
        '\u{1F67}' => Some('\u{1FA7}'),
        '\u{1F68}' => Some('\u{1FA8}'),
        '\u{1F69}' => Some('\u{1FA9}'),
        '\u{1F6A}' => Some('\u{1FAA}'),
        '\u{1F6B}' => Some('\u{1FAB}'),
        '\u{1F6C}' => Some('\u{1FAC}'),
        '\u{1F6D}' => Some('\u{1FAD}'),
        '\u{1F6E}' => Some('\u{1FAE}'),
        '\u{1F6F}' => Some('\u{1FAF}'),
        '\u{1F70}' => Some('\u{1FB2}'),
        '\u{1F71}' => Some('\u{1FB4}'),
        '\u{1F74}' => Some('\u{1FC2}'),
        '\u{1F75}' => Some('\u{1FC4}'),
        '\u{1F7C}' => Some('\u{1FF2}'),
        '\u{1F7D}' => Some('\u{1FF4}'),
        '\u{1FB6}' => Some('\u{1FB7}'),
        '\u{1FC6}' => Some('\u{1FC7}'),
        '\u{1FF6}' => Some('\u{1FF7}'),
        '\u{2126}' => Some('\u{1FFC}'),
        _ => None,
    }
}

fn exec_compose_macron(base: char) -> (composed: Option<char>)
    ensures
        composed == compose_macron(base),
{
    exec_compose_macron_0(base)
}

fn exec_compose_macron_0(base: char) -> (composed: Option<char>)
    ensures
        composed == compose_macron_0(base),
{
    match base {
        '\u{41}' => Some('\u{100}'),
        '\u{45}' => Some('\u{112}'),
        '\u{47}' => Some('\u{1E20}'),
        '\u{49}' => Some('\u{12A}'),
        '\u{4F}' => Some('\u{14C}'),
        '\u{55}' => Some('\u{16A}'),
        '\u{59}' => Some('\u{232}'),
        '\u{61}' => Some('\u{101}'),
        '\u{65}' => Some('\u{113}'),
        '\u{67}' => Some('\u{1E21}'),
        '\u{69}' => Some('\u{12B}'),
        '\u{6F}' => Some('\u{14D}'),
        '\u{75}' => Some('\u{16B}'),
        '\u{79}' => Some('\u{233}'),
        '\u{C4}' => Some('\u{1DE}'),
        '\u{C6}' => Some('\u{1E2}'),
        '\u{D5}' => Some('\u{22C}'),
        '\u{D6}' => Some('\u{22A}'),
        '\u{DC}' => Some('\u{1D5}'),
        '\u{E4}' => Some('\u{1DF}'),
        '\u{E6}' => Some('\u{1E3}'),
        '\u{F5}' => Some('\u{22D}'),
        '\u{F6}' => Some('\u{22B}'),
        '\u{FC}' => Some('\u{1D6}'),
        '\u{1EA}' => Some('\u{1EC}'),
        '\u{1EB}' => Some('\u{1ED}'),
        '\u{226}' => Some('\u{1E0}'),
        '\u{227}' => Some('\u{1E1}'),
        '\u{22E}' => Some('\u{230}'),
        '\u{22F}' => Some('\u{231}'),
        '\u{391}' => Some('\u{1FB9}'),
        '\u{399}' => Some('\u{1FD9}'),
        '\u{3A5}' => Some('\u{1FE9}'),
        '\u{3B1}' => Some('\u{1FB1}'),
        '\u{3B9}' => Some('\u{1FD1}'),
        '\u{3C5}' => Some('\u{1FE1}'),
        '\u{418}' => Some('\u{4E2}'),
        '\u{423}' => Some('\u{4EE}'),
        '\u{438}' => Some('\u{4E3}'),
        '\u{443}' => Some('\u{4EF}'),
        '\u{1E36}' => Some('\u{1E38}'),
        '\u{1E37}' => Some('\u{1E39}'),
        '\u{1E5A}' => Some('\u{1E5C}'),
        '\u{1E5B}' => Some('\u{1E5D}'),
        '\u{1FBE}' => Some('\u{1FD1}'),
        _ => None,
    }
}

fn exec_compose_ogonek(base: char) -> (composed: Option<char>)
    ensures
        composed == compose_ogonek(base),
{
    exec_compose_ogonek_0(base)
}

fn exec_compose_ogonek_0(base: char) -> (composed: Option<char>)
    ensures
        composed == compose_ogonek_0(base),
{
    match base {
        '\u{41}' => Some('\u{104}'),
        '\u{45}' => Some('\u{118}'),
        '\u{49}' => Some('\u{12E}'),
        '\u{4F}' => Some('\u{1EA}'),
        '\u{55}' => Some('\u{172}'),
        '\u{61}' => Some('\u{105}'),
        '\u{65}' => Some('\u{119}'),
        '\u{69}' => Some('\u{12F}'),
        '\u{6F}' => Some('\u{1EB}'),
        '\u{75}' => Some('\u{173}'),
        '\u{14C}' => Some('\u{1EC}'),
        '\u{14D}' => Some('\u{1ED}'),
        _ => None,
    }
}

fn exec_compose_tilde(base: char) -> (composed: Option<char>)
    ensures
        composed == compose_tilde(base),
{
    exec_compose_tilde_0(base)
}

fn exec_compose_tilde_0(base: char) -> (composed: Option<char>)
    ensures
        composed == compose_tilde_0(base),
{
    match base {
        '\u{41}' => Some('\u{C3}'),
        '\u{45}' => Some('\u{1EBC}'),
        '\u{49}' => Some('\u{128}'),
        '\u{4E}' => Some('\u{D1}'),
        '\u{4F}' => Some('\u{D5}'),
        '\u{55}' => Some('\u{168}'),
        '\u{56}' => Some('\u{1E7C}'),
        '\u{59}' => Some('\u{1EF8}'),
        '\u{61}' => Some('\u{E3}'),
        '\u{65}' => Some('\u{1EBD}'),
        '\u{69}' => Some('\u{129}'),
        '\u{6E}' => Some('\u{F1}'),
        '\u{6F}' => Some('\u{F5}'),
        '\u{75}' => Some('\u{169}'),
        '\u{76}' => Some('\u{1E7D}'),
        '\u{79}' => Some('\u{1EF9}'),
        '\u{C2}' => Some('\u{1EAA}'),
        '\u{CA}' => Some('\u{1EC4}'),
        '\u{D4}' => Some('\u{1ED6}'),
        '\u{E2}' => Some('\u{1EAB}'),
        '\u{EA}' => Some('\u{1EC5}'),
        '\u{F4}' => Some('\u{1ED7}'),
        '\u{102}' => Some('\u{1EB4}'),
        '\u{103}' => Some('\u{1EB5}'),
        '\u{1A0}' => Some('\u{1EE0}'),
        '\u{1A1}' => Some('\u{1EE1}'),
        '\u{1AF}' => Some('\u{1EEE}'),
        '\u{1B0}' => Some('\u{1EEF}'),
        _ => None,
    }
}

fn exec_compose_voiced_sound(base: char) -> (composed: Option<char>)
    ensures
        composed == compose_voiced_sound(base),
{
    exec_compose_voiced_sound_0(base)
}

fn exec_compose_voiced_sound_0(base: char) -> (composed: Option<char>)
    ensures
        composed == compose_voiced_sound_0(base),
{
    match base {
        '\u{3046}' => Some('\u{3094}'),
        '\u{304B}' => Some('\u{304C}'),
        '\u{304D}' => Some('\u{304E}'),
        '\u{304F}' => Some('\u{3050}'),
        '\u{3051}' => Some('\u{3052}'),
        '\u{3053}' => Some('\u{3054}'),
        '\u{3055}' => Some('\u{3056}'),
        '\u{3057}' => Some('\u{3058}'),
        '\u{3059}' => Some('\u{305A}'),
        '\u{305B}' => Some('\u{305C}'),
        '\u{305D}' => Some('\u{305E}'),
        '\u{305F}' => Some('\u{3060}'),
        '\u{3061}' => Some('\u{3062}'),
        '\u{3064}' => Some('\u{3065}'),
        '\u{3066}' => Some('\u{3067}'),
        '\u{3068}' => Some('\u{3069}'),
        '\u{306F}' => Some('\u{3070}'),
        '\u{3072}' => Some('\u{3073}'),
        '\u{3075}' => Some('\u{3076}'),
        '\u{3078}' => Some('\u{3079}'),
        '\u{307B}' => Some('\u{307C}'),
        '\u{309D}' => Some('\u{309E}'),
        '\u{30A6}' => Some('\u{30F4}'),
        '\u{30AB}' => Some('\u{30AC}'),
        '\u{30AD}' => Some('\u{30AE}'),
        '\u{30AF}' => Some('\u{30B0}'),
        '\u{30B1}' => Some('\u{30B2}'),
        '\u{30B3}' => Some('\u{30B4}'),
        '\u{30B5}' => Some('\u{30B6}'),
        '\u{30B7}' => Some('\u{30B8}'),
        '\u{30B9}' => Some('\u{30BA}'),
        '\u{30BB}' => Some('\u{30BC}'),
        '\u{30BD}' => Some('\u{30BE}'),
        '\u{30BF}' => Some('\u{30C0}'),
        '\u{30C1}' => Some('\u{30C2}'),
        '\u{30C4}' => Some('\u{30C5}'),
        '\u{30C6}' => Some('\u{30C7}'),
        '\u{30C8}' => Some('\u{30C9}'),
        '\u{30CF}' => Some('\u{30D0}'),
        '\u{30D2}' => Some('\u{30D3}'),
        '\u{30D5}' => Some('\u{30D6}'),
        '\u{30D8}' => Some('\u{30D9}'),
        '\u{30DB}' => Some('\u{30DC}'),
        '\u{30EF}' => Some('\u{30F7}'),
        '\u{30F0}' => Some('\u{30F8}'),
        '\u{30F1}' => Some('\u{30F9}'),
        '\u{30F2}' => Some('\u{30FA}'),
        '\u{30FD}' => Some('\u{30FE}'),
        _ => None,
    }
}

fn exec_compose_semivoiced_sound(base: char) -> (composed: Option<char>)
    ensures
        composed == compose_semivoiced_sound(base),
{
    exec_compose_semivoiced_sound_0(base)
}

fn exec_compose_semivoiced_sound_0(base: char) -> (composed: Option<char>)
    ensures
        composed == compose_semivoiced_sound_0(base),
{
    match base {
        '\u{306F}' => Some('\u{3071}'),
        '\u{3072}' => Some('\u{3074}'),
        '\u{3075}' => Some('\u{3077}'),
        '\u{3078}' => Some('\u{307A}'),
        '\u{307B}' => Some('\u{307D}'),
        '\u{30CF}' => Some('\u{30D1}'),
        '\u{30D2}' => Some('\u{30D4}'),
        '\u{30D5}' => Some('\u{30D7}'),
        '\u{30D8}' => Some('\u{30DA}'),
        '\u{30DB}' => Some('\u{30DD}'),
        _ => None,
    }
}

/// A dead-key character and its combining character correspond both ways.
pub proof fn lemma_dead_keys_inverse(dead: char)
    ensures
        dead_combining(dead) matches Some(c) ==> combining_standalone(c) == Some(dead),
{
}

/// The *X* dead keysym of a combining character.
pub open spec fn combining_dead_keysym(combining: char) -> Option<u32> {
    match combining {
        '\u{307}' => Some(0xFE56),
        '\u{30A}' => Some(0xFE58),
        '\u{301}' => Some(0xFE51),
        '\u{306}' => Some(0xFE55),
        '\u{30C}' => Some(0xFE5A),
        '\u{327}' => Some(0xFE5B),
        '\u{302}' => Some(0xFE52),
        '\u{308}' => Some(0xFE57),
        '\u{30B}' => Some(0xFE59),
        '\u{300}' => Some(0xFE50),
        '\u{345}' => Some(0xFE5D),
        '\u{304}' => Some(0xFE54),
        '\u{328}' => Some(0xFE5C),
        '\u{303}' => Some(0xFE53),
        '\u{3099}' => Some(0xFE5E),
        '\u{309A}' => Some(0xFE5F),
        _ => None,
    }
}

/// Returns the *X* dead keysym of a combining character.
pub fn dead_keysym_for(combining: char) -> (keysym: Option<u32>)
    ensures
        keysym == combining_dead_keysym(combining),
{
    match combining {
        '\u{307}' => Some(0xFE56),
        '\u{30A}' => Some(0xFE58),
        '\u{301}' => Some(0xFE51),
        '\u{306}' => Some(0xFE55),
        '\u{30C}' => Some(0xFE5A),
        '\u{327}' => Some(0xFE5B),
        '\u{302}' => Some(0xFE52),
        '\u{308}' => Some(0xFE57),
        '\u{30B}' => Some(0xFE59),
        '\u{300}' => Some(0xFE50),
        '\u{345}' => Some(0xFE5D),
        '\u{304}' => Some(0xFE54),
        '\u{328}' => Some(0xFE5C),
        '\u{303}' => Some(0xFE53),
        '\u{3099}' => Some(0xFE5E),
        '\u{309A}' => Some(0xFE5F),
        _ => None,
    }
}

/// A dead keysym and its combining character correspond both ways.
pub proof fn lemma_dead_keysyms_inverse(keysym: u32)
    ensures
        dead_keysym_combining(keysym) matches Some(c) ==> combining_dead_keysym(c) == Some(keysym),
{
}

} // verus!
