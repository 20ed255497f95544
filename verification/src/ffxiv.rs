//! Game-side reference data and language selection.

use vstd::prelude::*;

verus! {

/// The four client languages.
#[derive(Clone, Copy, PartialEq, Eq, Structural, Debug)]
pub enum Language {
    English,
    Japanese,
    German,
    French,
}

/// One piece of text in all four languages.
#[derive(Clone, Copy, Debug)]
pub struct LocalisedText {
    pub en: &'static str,
    pub ja: &'static str,
    pub de: &'static str,
    pub fr: &'static str,
}

impl LocalisedText {
    /// The text in the given language.
    pub open spec fn spec_text(self, lang: Language) -> &'static str {
        match lang {
            Language::English => self.en,
            Language::Japanese => self.ja,
            Language::German => self.de,
            Language::French => self.fr,
        }
    }

    /// The text in the given language.
    pub fn text(&self, lang: Language) -> (r: &'static str)
        ensures
            r == self.spec_text(lang),
    {
        match lang {
            Language::English => self.en,
            Language::Japanese => self.ja,
            Language::German => self.de,
            Language::French => self.fr,
        }
    }
}

impl Language {
    /// The language a two-letter code selects; anything unrecognized
    /// falls back to English.
    pub open spec fn spec_from_code(s: Seq<u8>) -> Language {
        if s.len() >= 2 && s[0] == 106 && s[1] == 97 {
            Language::Japanese
        } else if s.len() >= 2 && s[0] == 100 && s[1] == 101 {
            Language::German
        } else if s.len() >= 2 && s[0] == 102 && s[1] == 114 {
            Language::French
        } else {
            Language::English
        }
    }

    /// Selects a language from the leading two-letter code of a language
    /// header or cookie value, defaulting to English.
    pub fn from_code(s: &Vec<u8>) -> (r: Language)
        ensures
            r == Language::spec_from_code(s@),
    {
        if s.len() >= 2 {
            let a = s[0];
            let b = s[1];
            if a == 106 && b == 97 {
                Language::Japanese
            } else if a == 100 && b == 101 {
                Language::German
            } else if a == 102 && b == 114 {
                Language::French
            } else {
                Language::English
            }
        } else {
            Language::English
        }
    }
}

/// The display name of a treasure-map duty level.  Levels run from 0
/// (no level given) through 24; anything beyond has no name.
pub fn treasure_map_name(id: u32) -> (r: Option<LocalisedText>)
    ensures
        r is Some <==> id <= 24,
{
    match id {
        0 => Some(
            LocalisedText {
                en: "All Levels",
                ja: "レベルを指定しない",
                de: "Jede Stufe",
                fr: "Tous niveaux",
            },
        ),
        1 => Some(
            LocalisedText {
                en: "Leather Treasure Map",
                ja: "古ぼけた地図G1",
                de: "Leder-Schatzkarte",
                fr: "Carte au trésor en cuir",
            },
        ),
        2 => Some(
            LocalisedText {
                en: "Leather Treasure Map",
                ja: "古ぼけた地図G1",
                de: "Leder-Schatzkarte",
                fr: "Carte au trésor en cuir",
            },
        ),
        3 => Some(
            LocalisedText {
                en: "Goatskin Treasure Map",
                ja: "古ぼけた地図G2",
                de: "Steinbockleder-Schatzkarte",
                fr: "Carte au trésor en peau de bouquetin",
            },
        ),
        4 => Some(
            LocalisedText {
                en: "Toadskin Treasure Map",
                ja: "古ぼけた地図G3",
                de: "Krötenleder-Schatzkarte",
                fr: "Carte au trésor en peau de crapaud",
            },
        ),
        5 => Some(
            LocalisedText {
                en: "Boarskin Treasure Map",
                ja: "古ぼけた地図G4",
                de: "Keilerleder-Schatzkarte",
                fr: "Carte au trésor en peau de sanglier",
            },
        ),
        6 => Some(
            LocalisedText {
                en: "Peisteskin Treasure Map",
                ja: "古ぼけた地図G5",
                de: "Basiliskenleder-Schatzkarte",
                fr: "Carte au trésor en peau de peiste",
            },
        ),
        7 => Some(
            LocalisedText {
                en: "Leather Buried Treasure Map",
                ja: "隠された地図G1",
                de: "Kryptische Karte",
                fr: "Carte au trésor secrète en cuir",
            },
        ),
        8 => Some(
            LocalisedText {
                en: "Archaeoskin Treasure Map",
                ja: "古ぼけた地図G6",
                de: "Archaeoleder-Schatzkarte",
                fr: "Carte au trésor en peau d'archéornis",
            },
        ),
        9 => Some(
            LocalisedText {
                en: "Wyvernskin Treasure Map",
                ja: "古ぼけた地図G7",
                de: "Wyvernleder-Schatzkarte",
                fr: "Carte au trésor en peau de wyverne",
            },
        ),
        10 => Some(
            LocalisedText {
                en: "Dragonskin Treasure Map",
                ja: "古ぼけた地図G8",
                de: "Drachenleder-Schatzkarte",
                fr: "Carte au trésor en peau de dragon",
            },
        ),
        11 => Some(
            LocalisedText {
                en: "Gaganaskin Treasure Map",
                ja: "古ぼけた地図G9",
                de: "Gaganaleder-Schatzkarte",
                fr: "Carte au trésor en peau de gagana",
            },
        ),
        12 => Some(
            LocalisedText {
                en: "Gazelleskin Treasure Map",
                ja: "古ぼけた地図G10",
                de: "Gazellenleder-Schatzkarte",
                fr: "Carte au trésor en peau de gazelle",
            },
        ),
        13 => Some(
            LocalisedText {
                en: "Seemingly Special Treasure Map",
                ja: "古ぼけた地図S1",
                de: "Exotenleder-Schatzkarte",
                fr: "Carte au trésor inhabituelle I",
            },
        ),
        14 => Some(
            LocalisedText {
                en: "Gliderskin Treasure Map",
                ja: "古ぼけた地図G11",
                de: "Smilodonleder-Schatzkarte",
                fr: "Carte au trésor en peau de smilodon",
            },
        ),
        15 => Some(
            LocalisedText {
                en: "Zonureskin Treasure Map",
                ja: "古ぼけた地図G12",
                de: "Glaucusleder-Schatzkarte",
                fr: "Carte au trésor en peau de glaucus",
            },
        ),
        16 => Some(
            LocalisedText {
                en: "Ostensibly Special Treasure Map",
                ja: "古ぼけた地図S2",
                de: "Mythenleder-Schatzkarte",
                fr: "Carte au trésor inhabituelle II",
            },
        ),
        17 => Some(
            LocalisedText {
                en: "Saigaskin Treasure Map",
                ja: "古ぼけた地図G13",
                de: "Gajaleder-Schatzkarte",
                fr: "Carte au trésor en peau de gaja",
            },
        ),
        18 => Some(
            LocalisedText {
                en: "Kumbhiraskin Treasure Map",
                ja: "古ぼけた地図G14",
                de: "Kumbhilaleder-Schatzkarte",
                fr: "Carte au trésor en peau de kumbhira",
            },
        ),
        19 => Some(
            LocalisedText {
                en: "Ophiotauroskin Treasure Map",
                ja: "古ぼけた地図G15",
                de: "Ophiotaurosleder-Schatzkarte",
                fr: "Carte au trésor en peau d'ophiotauros",
            },
        ),
        20 => Some(
            LocalisedText {
                en: "Potentially Special Treasure Map",
                ja: "古ぼけた地図S3",
                de: "Legendenleder-Schatzkarte",
                fr: "Carte au trésor inhabituelle III",
            },
        ),
        21 => Some(
            LocalisedText {
                en: "Conceivably Special Treasure Map",
                ja: "古ぼけた地図S4",
                de: "Sagenleder-Schatzkarte",
                fr: "Carte au trésor inhabituelle IV",
            },
        ),
        22 => Some(
            LocalisedText {
                en: "Loboskin Treasure Map",
                ja: "古ぼけた地図G16",
                de: "Schakalleder-Schatzkarte",
                fr: "Carte au trésor en peau de loup argenté",
            },
        ),
        23 => Some(
            LocalisedText {
                en: "Br'aaxskin Treasure Map",
                ja: "古ぼけた地図G17",
                de: "Br'aaxleder-Schatzkarte",
                fr: "Carte au trésor en peau de br'aax",
            },
        ),
        24 => Some(
            LocalisedText {
                en: "Gargantuaskin Treasure Map",
                ja: "古ぼけた地図G18",
                de: "Gargantualeder-Schatzkarte",
                fr: "Carte au trésor en peau de gargantua",
            },
        ),
        _ => None,
    }
}

} // verus!
