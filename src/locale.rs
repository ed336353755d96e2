use vstd::prelude::*;
use vstd::string::*;

use charabia::Language;

verus! {

/// charabia's `Language`, the tokenizer's own list of languages. It is a
/// plain enum of unit variants; declaring it lets verified code match on it.
#[verifier::external_type_specification]
pub struct ExLanguage(charabia::Language);

/// A language that the tokenizer can be told to use, named by its
/// ISO 639-3 code.
#[derive(Debug, Clone, Copy, PartialEq, Eq, Structural, PartialOrd, Ord, Hash)]
pub enum Locale {
    Epo,
    Eng,
    Rus,
    Cmn,
    Spa,
    Por,
    Ita,
    Ben,
    Fra,
    Deu,
    Ukr,
    Kat,
    Ara,
    Hin,
    Jpn,
    Heb,
    Yid,
    Pol,
    Amh,
    Jav,
    Kor,
    Nob,
    Dan,
    Swe,
    Fin,
    Tur,
    Nld,
    Hun,
    Ces,
    Ell,
    Bul,
    Bel,
    Mar,
    Kan,
    Ron,
    Slv,
    Hrv,
    Srp,
    Mkd,
    Lit,
    Lav,
    Est,
    Tam,
    Vie,
    Urd,
    Tha,
    Guj,
    Uzb,
    Pan,
    Aze,
    Ind,
    Tel,
    Pes,
    Mal,
    Ori,
    Mya,
    Nep,
    Sin,
    Khm,
    Tuk,
    Aka,
    Zul,
    Sna,
    Afr,
    Lat,
    Slk,
    Cat,
    Tgl,
    Hye,
    Zho,
}

/// How many locales the registry holds.
pub const LOCALE_COUNT: usize = 70;

/// The locale at position `i` of the registry.
pub open spec fn locale_at(i: int) -> Locale {

    if i == 0 {
        Locale::Epo
    } else if i == 1 {
        Locale::Eng
    } else if i == 2 {
        Locale::Rus
    } else if i == 3 {
        Locale::Cmn
    } else if i == 4 {
        Locale::Spa
    } else if i == 5 {
        Locale::Por
    } else if i == 6 {
        Locale::Ita
    } else if i == 7 {
        Locale::Ben
    } else if i == 8 {
        Locale::Fra
    } else if i == 9 {
        Locale::Deu
    } else if i == 10 {
        Locale::Ukr
    } else if i == 11 {
        Locale::Kat
    } else if i == 12 {
        Locale::Ara
    } else if i == 13 {
        Locale::Hin
    } else if i == 14 {
        Locale::Jpn
    } else if i == 15 {
        Locale::Heb
    } else if i == 16 {
        Locale::Yid
    } else if i == 17 {
        Locale::Pol
    } else if i == 18 {
        Locale::Amh
    } else if i == 19 {
        Locale::Jav
    } else if i == 20 {
        Locale::Kor
    } else if i == 21 {
        Locale::Nob
    } else if i == 22 {
        Locale::Dan
    } else if i == 23 {
        Locale::Swe
    } else if i == 24 {
        Locale::Fin
    } else if i == 25 {
        Locale::Tur
    } else if i == 26 {
        Locale::Nld
    } else if i == 27 {
        Locale::Hun
    } else if i == 28 {
        Locale::Ces
    } else if i == 29 {
        Locale::Ell
    } else if i == 30 {
        Locale::Bul
    } else if i == 31 {
        Locale::Bel
    } else if i == 32 {
        Locale::Mar
    } else if i == 33 {
        Locale::Kan
    } else if i == 34 {
        Locale::Ron
    } else if i == 35 {
        Locale::Slv
    } else if i == 36 {
        Locale::Hrv
    } else if i == 37 {
        Locale::Srp
    } else if i == 38 {
        Locale::Mkd
    } else if i == 39 {
        Locale::Lit
    } else if i == 40 {
        Locale::Lav
    } else if i == 41 {
        Locale::Est
    } else if i == 42 {
        Locale::Tam
    } else if i == 43 {
        Locale::Vie
    } else if i == 44 {
        Locale::Urd
    } else if i == 45 {
        Locale::Tha
    } else if i == 46 {
        Locale::Guj
    } else if i == 47 {
        Locale::Uzb
    } else if i == 48 {
        Locale::Pan
    } else if i == 49 {
        Locale::Aze
    } else if i == 50 {
        Locale::Ind
    } else if i == 51 {
        Locale::Tel
    } else if i == 52 {
        Locale::Pes
    } else if i == 53 {
        Locale::Mal
    } else if i == 54 {
        Locale::Ori
    } else if i == 55 {
        Locale::Mya
    } else if i == 56 {
        Locale::Nep
    } else if i == 57 {
        Locale::Sin
    } else if i == 58 {
        Locale::Khm
    } else if i == 59 {
        Locale::Tuk
    } else if i == 60 {
        Locale::Aka
    } else if i == 61 {
        Locale::Zul
    } else if i == 62 {
        Locale::Sna
    } else if i == 63 {
        Locale::Afr
    } else if i == 64 {
        Locale::Lat
    } else if i == 65 {
        Locale::Slk
    } else if i == 66 {
        Locale::Cat
    } else if i == 67 {
        Locale::Tgl
    } else if i == 68 {
        Locale::Hye
    } else {
        Locale::Zho
    }
}

/// The position of `l` in the registry.
pub open spec fn index_of(l: Locale) -> int {
    match l {
        Locale::Epo => 0,
        Locale::Eng => 1,
        Locale::Rus => 2,
        Locale::Cmn => 3,
        Locale::Spa => 4,
        Locale::Por => 5,
        Locale::Ita => 6,
        Locale::Ben => 7,
        Locale::Fra => 8,
        Locale::Deu => 9,
        Locale::Ukr => 10,
        Locale::Kat => 11,
        Locale::Ara => 12,
        Locale::Hin => 13,
        Locale::Jpn => 14,
        Locale::Heb => 15,
        Locale::Yid => 16,
        Locale::Pol => 17,
        Locale::Amh => 18,
        Locale::Jav => 19,
        Locale::Kor => 20,
        Locale::Nob => 21,
        Locale::Dan => 22,
        Locale::Swe => 23,
        Locale::Fin => 24,
        Locale::Tur => 25,
        Locale::Nld => 26,
        Locale::Hun => 27,
        Locale::Ces => 28,
        Locale::Ell => 29,
        Locale::Bul => 30,
        Locale::Bel => 31,
        Locale::Mar => 32,
        Locale::Kan => 33,
        Locale::Ron => 34,
        Locale::Slv => 35,
        Locale::Hrv => 36,
        Locale::Srp => 37,
        Locale::Mkd => 38,
        Locale::Lit => 39,
        Locale::Lav => 40,
        Locale::Est => 41,
        Locale::Tam => 42,
        Locale::Vie => 43,
        Locale::Urd => 44,
        Locale::Tha => 45,
        Locale::Guj => 46,
        Locale::Uzb => 47,
        Locale::Pan => 48,
        Locale::Aze => 49,
        Locale::Ind => 50,
        Locale::Tel => 51,
        Locale::Pes => 52,
        Locale::Mal => 53,
        Locale::Ori => 54,
        Locale::Mya => 55,
        Locale::Nep => 56,
        Locale::Sin => 57,
        Locale::Khm => 58,
        Locale::Tuk => 59,
        Locale::Aka => 60,
        Locale::Zul => 61,
        Locale::Sna => 62,
        Locale::Afr => 63,
        Locale::Lat => 64,
        Locale::Slk => 65,
        Locale::Cat => 66,
        Locale::Tgl => 67,
        Locale::Hye => 68,
        Locale::Zho => 69,
    }
}

/// Every locale, in registry order.
pub open spec fn all_locales() -> Seq<Locale> {
    Seq::new(LOCALE_COUNT as nat, |i: int| locale_at(i))
}

/// The code under which `l` is written on the wire.
pub open spec fn code_of(l: Locale) -> Seq<char> {
    match l {
        Locale::Epo => "epo"@,
        Locale::Eng => "eng"@,
        Locale::Rus => "rus"@,
        Locale::Cmn => "cmn"@,
        Locale::Spa => "spa"@,
        Locale::Por => "por"@,
        Locale::Ita => "ita"@,
        Locale::Ben => "ben"@,
        Locale::Fra => "fra"@,
        Locale::Deu => "deu"@,
        Locale::Ukr => "ukr"@,
        Locale::Kat => "kat"@,
        Locale::Ara => "ara"@,
        Locale::Hin => "hin"@,
        Locale::Jpn => "jpn"@,
        Locale::Heb => "heb"@,
        Locale::Yid => "yid"@,
        Locale::Pol => "pol"@,
        Locale::Amh => "amh"@,
        Locale::Jav => "jav"@,
        Locale::Kor => "kor"@,
        Locale::Nob => "nob"@,
        Locale::Dan => "dan"@,
        Locale::Swe => "swe"@,
        Locale::Fin => "fin"@,
        Locale::Tur => "tur"@,
        Locale::Nld => "nld"@,
        Locale::Hun => "hun"@,
        Locale::Ces => "ces"@,
        Locale::Ell => "ell"@,
        Locale::Bul => "bul"@,
        Locale::Bel => "bel"@,
        Locale::Mar => "mar"@,
        Locale::Kan => "kan"@,
        Locale::Ron => "ron"@,
        Locale::Slv => "slv"@,
        Locale::Hrv => "hrv"@,
        Locale::Srp => "srp"@,
        Locale::Mkd => "mkd"@,
        Locale::Lit => "lit"@,
        Locale::Lav => "lav"@,
        Locale::Est => "est"@,
        Locale::Tam => "tam"@,
        Locale::Vie => "vie"@,
        Locale::Urd => "urd"@,
        Locale::Tha => "tha"@,
        Locale::Guj => "guj"@,
        Locale::Uzb => "uzb"@,
        Locale::Pan => "pan"@,
        Locale::Aze => "aze"@,
        Locale::Ind => "ind"@,
        Locale::Tel => "tel"@,
        Locale::Pes => "pes"@,
        Locale::Mal => "mal"@,
        Locale::Ori => "ori"@,
        Locale::Mya => "mya"@,
        Locale::Nep => "nep"@,
        Locale::Sin => "sin"@,
        Locale::Khm => "khm"@,
        Locale::Tuk => "tuk"@,
        Locale::Aka => "aka"@,
        Locale::Zul => "zul"@,
        Locale::Sna => "sna"@,
        Locale::Afr => "afr"@,
        Locale::Lat => "lat"@,
        Locale::Slk => "slk"@,
        Locale::Cat => "cat"@,
        Locale::Tgl => "tgl"@,
        Locale::Hye => "hye"@,
        Locale::Zho => "zho"@,
    }
}

/// The code that the tokenizer gives to `l`.
pub open spec fn language_code(l: Language) -> Seq<char> {
    match l {
        Language::Epo => "epo"@,
        Language::Eng => "eng"@,
        Language::Rus => "rus"@,
        Language::Cmn => "cmn"@,
        Language::Spa => "spa"@,
        Language::Por => "por"@,
        Language::Ita => "ita"@,
        Language::Ben => "ben"@,
        Language::Fra => "fra"@,
        Language::Deu => "deu"@,
        Language::Ukr => "ukr"@,
        Language::Kat => "kat"@,
        Language::Ara => "ara"@,
        Language::Hin => "hin"@,
        Language::Jpn => "jpn"@,
        Language::Heb => "heb"@,
        Language::Yid => "yid"@,
        Language::Pol => "pol"@,
        Language::Amh => "amh"@,
        Language::Jav => "jav"@,
        Language::Kor => "kor"@,
        Language::Nob => "nob"@,
        Language::Dan => "dan"@,
        Language::Swe => "swe"@,
        Language::Fin => "fin"@,
        Language::Tur => "tur"@,
        Language::Nld => "nld"@,
        Language::Hun => "hun"@,
        Language::Ces => "ces"@,
        Language::Ell => "ell"@,
        Language::Bul => "bul"@,
        Language::Bel => "bel"@,
        Language::Mar => "mar"@,
        Language::Kan => "kan"@,
        Language::Ron => "ron"@,
        Language::Slv => "slv"@,
        Language::Hrv => "hrv"@,
        Language::Srp => "srp"@,
        Language::Mkd => "mkd"@,
        Language::Lit => "lit"@,
        Language::Lav => "lav"@,
        Language::Est => "est"@,
        Language::Tam => "tam"@,
        Language::Vie => "vie"@,
        Language::Urd => "urd"@,
        Language::Tha => "tha"@,
        Language::Guj => "guj"@,
        Language::Uzb => "uzb"@,
        Language::Pan => "pan"@,
        Language::Aze => "aze"@,
        Language::Ind => "ind"@,
        Language::Tel => "tel"@,
        Language::Pes => "pes"@,
        Language::Mal => "mal"@,
        Language::Ori => "ori"@,
        Language::Mya => "mya"@,
        Language::Nep => "nep"@,
        Language::Sin => "sin"@,
        Language::Khm => "khm"@,
        Language::Tuk => "tuk"@,
        Language::Aka => "aka"@,
        Language::Zul => "zul"@,
        Language::Sna => "sna"@,
        Language::Afr => "afr"@,
        Language::Lat => "lat"@,
        Language::Slk => "slk"@,
        Language::Cat => "cat"@,
        Language::Tgl => "tgl"@,
        Language::Hye => "hye"@,
        Language::Zho => "zho"@,
    }
}

/// The tokenizer language that stands for `l`.
pub open spec fn to_language(l: Locale) -> Language {
    match l {
        Locale::Epo => Language::Epo,
        Locale::Eng => Language::Eng,
        Locale::Rus => Language::Rus,
        Locale::Cmn => Language::Cmn,
        Locale::Spa => Language::Spa,
        Locale::Por => Language::Por,
        Locale::Ita => Language::Ita,
        Locale::Ben => Language::Ben,
        Locale::Fra => Language::Fra,
        Locale::Deu => Language::Deu,
        Locale::Ukr => Language::Ukr,
        Locale::Kat => Language::Kat,
        Locale::Ara => Language::Ara,
        Locale::Hin => Language::Hin,
        Locale::Jpn => Language::Jpn,
        Locale::Heb => Language::Heb,
        Locale::Yid => Language::Yid,
        Locale::Pol => Language::Pol,
        Locale::Amh => Language::Amh,
        Locale::Jav => Language::Jav,
        Locale::Kor => Language::Kor,
        Locale::Nob => Language::Nob,
        Locale::Dan => Language::Dan,
        Locale::Swe => Language::Swe,
        Locale::Fin => Language::Fin,
        Locale::Tur => Language::Tur,
        Locale::Nld => Language::Nld,
        Locale::Hun => Language::Hun,
        Locale::Ces => Language::Ces,
        Locale::Ell => Language::Ell,
        Locale::Bul => Language::Bul,
        Locale::Bel => Language::Bel,
        Locale::Mar => Language::Mar,
        Locale::Kan => Language::Kan,
        Locale::Ron => Language::Ron,
        Locale::Slv => Language::Slv,
        Locale::Hrv => Language::Hrv,
        Locale::Srp => Language::Srp,
        Locale::Mkd => Language::Mkd,
        Locale::Lit => Language::Lit,
        Locale::Lav => Language::Lav,
        Locale::Est => Language::Est,
        Locale::Tam => Language::Tam,
        Locale::Vie => Language::Vie,
        Locale::Urd => Language::Urd,
        Locale::Tha => Language::Tha,
        Locale::Guj => Language::Guj,
        Locale::Uzb => Language::Uzb,
        Locale::Pan => Language::Pan,
        Locale::Aze => Language::Aze,
        Locale::Ind => Language::Ind,
        Locale::Tel => Language::Tel,
        Locale::Pes => Language::Pes,
        Locale::Mal => Language::Mal,
        Locale::Ori => Language::Ori,
        Locale::Mya => Language::Mya,
        Locale::Nep => Language::Nep,
        Locale::Sin => Language::Sin,
        Locale::Khm => Language::Khm,
        Locale::Tuk => Language::Tuk,
        Locale::Aka => Language::Aka,
        Locale::Zul => Language::Zul,
        Locale::Sna => Language::Sna,
        Locale::Afr => Language::Afr,
        Locale::Lat => Language::Lat,
        Locale::Slk => Language::Slk,
        Locale::Cat => Language::Cat,
        Locale::Tgl => Language::Tgl,
        Locale::Hye => Language::Hye,
        Locale::Zho => Language::Zho,
    }
}

/// The locale that stands for the tokenizer language `l`.
pub open spec fn from_language(l: Language) -> Locale {
    match l {
        Language::Epo => Locale::Epo,
        Language::Eng => Locale::Eng,
        Language::Rus => Locale::Rus,
        Language::Cmn => Locale::Cmn,
        Language::Spa => Locale::Spa,
        Language::Por => Locale::Por,
        Language::Ita => Locale::Ita,
        Language::Ben => Locale::Ben,
        Language::Fra => Locale::Fra,
        Language::Deu => Locale::Deu,
        Language::Ukr => Locale::Ukr,
        Language::Kat => Locale::Kat,
        Language::Ara => Locale::Ara,
        Language::Hin => Locale::Hin,
        Language::Jpn => Locale::Jpn,
        Language::Heb => Locale::Heb,
        Language::Yid => Locale::Yid,
        Language::Pol => Locale::Pol,
        Language::Amh => Locale::Amh,
        Language::Jav => Locale::Jav,
        Language::Kor => Locale::Kor,
        Language::Nob => Locale::Nob,
        Language::Dan => Locale::Dan,
        Language::Swe => Locale::Swe,
        Language::Fin => Locale::Fin,
        Language::Tur => Locale::Tur,
        Language::Nld => Locale::Nld,
        Language::Hun => Locale::Hun,
        Language::Ces => Locale::Ces,
        Language::Ell => Locale::Ell,
        Language::Bul => Locale::Bul,
        Language::Bel => Locale::Bel,
        Language::Mar => Locale::Mar,
        Language::Kan => Locale::Kan,
        Language::Ron => Locale::Ron,
        Language::Slv => Locale::Slv,
        Language::Hrv => Locale::Hrv,
        Language::Srp => Locale::Srp,
        Language::Mkd => Locale::Mkd,
        Language::Lit => Locale::Lit,
        Language::Lav => Locale::Lav,
        Language::Est => Locale::Est,
        Language::Tam => Locale::Tam,
        Language::Vie => Locale::Vie,
        Language::Urd => Locale::Urd,
        Language::Tha => Locale::Tha,
        Language::Guj => Locale::Guj,
        Language::Uzb => Locale::Uzb,
        Language::Pan => Locale::Pan,
        Language::Aze => Locale::Aze,
        Language::Ind => Locale::Ind,
        Language::Tel => Locale::Tel,
        Language::Pes => Locale::Pes,
        Language::Mal => Locale::Mal,
        Language::Ori => Locale::Ori,
        Language::Mya => Locale::Mya,
        Language::Nep => Locale::Nep,
        Language::Sin => Locale::Sin,
        Language::Khm => Locale::Khm,
        Language::Tuk => Locale::Tuk,
        Language::Aka => Locale::Aka,
        Language::Zul => Locale::Zul,
        Language::Sna => Locale::Sna,
        Language::Afr => Locale::Afr,
        Language::Lat => Locale::Lat,
        Language::Slk => Locale::Slk,
        Language::Cat => Locale::Cat,
        Language::Tgl => Locale::Tgl,
        Language::Hye => Locale::Hye,
        Language::Zho => Locale::Zho,
    }
}

/// The locale whose code is `s`, if any.
pub open spec fn locale_of_code(s: Seq<char>) -> Option<Locale> {
    if exists|l: Locale| code_of(l) == s {
        Some(choose|l: Locale| code_of(l) == s)
    } else {
        None
    }
}

/// A three-character code read as one number.
spec fn code_key(s: Seq<char>) -> int {
    (s[0] as int) * 65536 + (s[1] as int) * 256 + (s[2] as int)
}

/// The locale whose code reads as the number `k`.
spec fn locale_of_key(k: int) -> Locale {
    if k == 6647919 {
        Locale::Epo
    } else if k == 6647399 {
        Locale::Eng
    } else if k == 7501171 {
        Locale::Rus
    } else if k == 6516078 {
        Locale::Cmn
    } else if k == 7565409 {
        Locale::Spa
    } else if k == 7368562 {
        Locale::Por
    } else if k == 6911073 {
        Locale::Ita
    } else if k == 6448494 {
        Locale::Ben
    } else if k == 6713953 {
        Locale::Fra
    } else if k == 6579573 {
        Locale::Deu
    } else if k == 7695218 {
        Locale::Ukr
    } else if k == 7037300 {
        Locale::Kat
    } else if k == 6386273 {
        Locale::Ara
    } else if k == 6842734 {
        Locale::Hin
    } else if k == 6975598 {
        Locale::Jpn
    } else if k == 6841698 {
        Locale::Heb
    } else if k == 7956836 {
        Locale::Yid
    } else if k == 7368556 {
        Locale::Pol
    } else if k == 6385000 {
        Locale::Amh
    } else if k == 6971766 {
        Locale::Jav
    } else if k == 7040882 {
        Locale::Kor
    } else if k == 7237474 {
        Locale::Nob
    } else if k == 6578542 {
        Locale::Dan
    } else if k == 7567205 {
        Locale::Swe
    } else if k == 6711662 {
        Locale::Fin
    } else if k == 7632242 {
        Locale::Tur
    } else if k == 7236708 {
        Locale::Nld
    } else if k == 6845806 {
        Locale::Hun
    } else if k == 6514035 {
        Locale::Ces
    } else if k == 6646892 {
        Locale::Ell
    } else if k == 6452588 {
        Locale::Bul
    } else if k == 6448492 {
        Locale::Bel
    } else if k == 7168370 {
        Locale::Mar
    } else if k == 7037294 {
        Locale::Kan
    } else if k == 7499630 {
        Locale::Ron
    } else if k == 7564406 {
        Locale::Slv
    } else if k == 6845046 {
        Locale::Hrv
    } else if k == 7565936 {
        Locale::Srp
    } else if k == 7170916 {
        Locale::Mkd
    } else if k == 7104884 {
        Locale::Lit
    } else if k == 7102838 {
        Locale::Lav
    } else if k == 6648692 {
        Locale::Est
    } else if k == 7627117 {
        Locale::Tam
    } else if k == 7760229 {
        Locale::Vie
    } else if k == 7696996 {
        Locale::Urd
    } else if k == 7628897 {
        Locale::Tha
    } else if k == 6780266 {
        Locale::Guj
    } else if k == 7699042 {
        Locale::Uzb
    } else if k == 7364974 {
        Locale::Pan
    } else if k == 6388325 {
        Locale::Aze
    } else if k == 6909540 {
        Locale::Ind
    } else if k == 7628140 {
        Locale::Tel
    } else if k == 7366003 {
        Locale::Pes
    } else if k == 7168364 {
        Locale::Mal
    } else if k == 7303785 {
        Locale::Ori
    } else if k == 7174497 {
        Locale::Mya
    } else if k == 7234928 {
        Locale::Nep
    } else if k == 7563630 {
        Locale::Sin
    } else if k == 7039085 {
        Locale::Khm
    } else if k == 7632235 {
        Locale::Tuk
    } else if k == 6384481 {
        Locale::Aka
    } else if k == 8025452 {
        Locale::Zul
    } else if k == 7564897 {
        Locale::Sna
    } else if k == 6383218 {
        Locale::Afr
    } else if k == 7102836 {
        Locale::Lat
    } else if k == 7564395 {
        Locale::Slk
    } else if k == 6513012 {
        Locale::Cat
    } else if k == 7628652 {
        Locale::Tgl
    } else if k == 6846821 {
        Locale::Hye
    } else {
        Locale::Zho
    }
}

/// A locale's code, read as one number, leads back to the locale.
proof fn lemma_key_of_code(l: Locale)
    ensures
        locale_of_key(code_key(code_of(l))) == l,
{
    match l {
        Locale::Epo => reveal_strlit("epo"),
        Locale::Eng => reveal_strlit("eng"),
        Locale::Rus => reveal_strlit("rus"),
        Locale::Cmn => reveal_strlit("cmn"),
        Locale::Spa => reveal_strlit("spa"),
        Locale::Por => reveal_strlit("por"),
        Locale::Ita => reveal_strlit("ita"),
        Locale::Ben => reveal_strlit("ben"),
        Locale::Fra => reveal_strlit("fra"),
        Locale::Deu => reveal_strlit("deu"),
        Locale::Ukr => reveal_strlit("ukr"),
        Locale::Kat => reveal_strlit("kat"),
        Locale::Ara => reveal_strlit("ara"),
        Locale::Hin => reveal_strlit("hin"),
        Locale::Jpn => reveal_strlit("jpn"),
        Locale::Heb => reveal_strlit("heb"),
        Locale::Yid => reveal_strlit("yid"),
        Locale::Pol => reveal_strlit("pol"),
        Locale::Amh => reveal_strlit("amh"),
        Locale::Jav => reveal_strlit("jav"),
        Locale::Kor => reveal_strlit("kor"),
        Locale::Nob => reveal_strlit("nob"),
        Locale::Dan => reveal_strlit("dan"),
        Locale::Swe => reveal_strlit("swe"),
        Locale::Fin => reveal_strlit("fin"),
        Locale::Tur => reveal_strlit("tur"),
        Locale::Nld => reveal_strlit("nld"),
        Locale::Hun => reveal_strlit("hun"),
        Locale::Ces => reveal_strlit("ces"),
        Locale::Ell => reveal_strlit("ell"),
        Locale::Bul => reveal_strlit("bul"),
        Locale::Bel => reveal_strlit("bel"),
        Locale::Mar => reveal_strlit("mar"),
        Locale::Kan => reveal_strlit("kan"),
        Locale::Ron => reveal_strlit("ron"),
        Locale::Slv => reveal_strlit("slv"),
        Locale::Hrv => reveal_strlit("hrv"),
        Locale::Srp => reveal_strlit("srp"),
        Locale::Mkd => reveal_strlit("mkd"),
        Locale::Lit => reveal_strlit("lit"),
        Locale::Lav => reveal_strlit("lav"),
        Locale::Est => reveal_strlit("est"),
        Locale::Tam => reveal_strlit("tam"),
        Locale::Vie => reveal_strlit("vie"),
        Locale::Urd => reveal_strlit("urd"),
        Locale::Tha => reveal_strlit("tha"),
        Locale::Guj => reveal_strlit("guj"),
        Locale::Uzb => reveal_strlit("uzb"),
        Locale::Pan => reveal_strlit("pan"),
        Locale::Aze => reveal_strlit("aze"),
        Locale::Ind => reveal_strlit("ind"),
        Locale::Tel => reveal_strlit("tel"),
        Locale::Pes => reveal_strlit("pes"),
        Locale::Mal => reveal_strlit("mal"),
        Locale::Ori => reveal_strlit("ori"),
        Locale::Mya => reveal_strlit("mya"),
        Locale::Nep => reveal_strlit("nep"),
        Locale::Sin => reveal_strlit("sin"),
        Locale::Khm => reveal_strlit("khm"),
        Locale::Tuk => reveal_strlit("tuk"),
        Locale::Aka => reveal_strlit("aka"),
        Locale::Zul => reveal_strlit("zul"),
        Locale::Sna => reveal_strlit("sna"),
        Locale::Afr => reveal_strlit("afr"),
        Locale::Lat => reveal_strlit("lat"),
        Locale::Slk => reveal_strlit("slk"),
        Locale::Cat => reveal_strlit("cat"),
        Locale::Tgl => reveal_strlit("tgl"),
        Locale::Hye => reveal_strlit("hye"),
        Locale::Zho => reveal_strlit("zho"),
    }
}

/// No two locales share a code.
pub proof fn lemma_codes_distinct(a: Locale, b: Locale)
    requires
        code_of(a) == code_of(b),
    ensures
        a == b,
{
    lemma_key_of_code(a);
    lemma_key_of_code(b);
}

/// Every locale stands exactly once in the registry, and its position there
/// is `index_of`.
pub proof fn lemma_registry_complete()
    ensures
        all_locales().len() == LOCALE_COUNT,
        all_locales().no_duplicates(),
        forall|l: Locale| #[trigger] all_locales()[index_of(l)] == l,
        forall|l: Locale| all_locales().contains(l),
{
    assert forall|l: Locale| #[trigger] all_locales()[index_of(l)] == l by {
        assert(0 <= index_of(l) < LOCALE_COUNT);
    }
    assert forall|i: int| 0 <= i < LOCALE_COUNT implies #[trigger] index_of(locale_at(i)) == i by {
    }
    assert forall|i: int, j: int|
        0 <= i < all_locales().len() && 0 <= j < all_locales().len() && i != j
    implies all_locales()[i] != all_locales()[j] by {
        assert(index_of(locale_at(i)) == i);
        assert(index_of(locale_at(j)) == j);
    }
    assert forall|l: Locale| all_locales().contains(l) by {
        assert(all_locales()[index_of(l)] == l);
    }
}


/// Going to the tokenizer's language and back gives the value one started
/// from, on either side.
pub proof fn lemma_bijection()
    ensures
        forall|l: Language| #[trigger] to_language(from_language(l)) == l,
        forall|l: Locale| #[trigger] from_language(to_language(l)) == l,
{
}

/// The locales and the tokenizer's languages pair up one to one: no two
/// locales share a language, no two languages share a locale, and every
/// value on either side is the partner of one on the other.
pub proof fn lemma_exhaustive()
    ensures
        forall|a: Locale, b: Locale|
            #![trigger to_language(a), to_language(b)]
            to_language(a) == to_language(b) ==> a == b,
        forall|a: Language, b: Language|
            #![trigger from_language(a), from_language(b)]
            from_language(a) == from_language(b) ==> a == b,
        forall|l: Language| to_language(#[trigger] from_language(l)) == l,
        forall|v: Locale| from_language(#[trigger] to_language(v)) == v,
{
    lemma_bijection();
}

/// A locale's code names that locale and no other.
pub proof fn lemma_parse_code(l: Locale)
    ensures
        locale_of_code(code_of(l)) == Some(l),
{
    let c = choose|m: Locale| code_of(m) == code_of(l);
    lemma_codes_distinct(c, l);
}

/// The tokenizer's code for a locale's language is the locale's own code.
pub proof fn lemma_same_codes(l: Locale)
    ensures
        language_code(to_language(l)) == code_of(l),
{
}

impl From<Language> for Locale {
    fn from(other: Language) -> (r: Locale) {
        match other {
            Language::Epo => Locale::Epo,
            Language::Eng => Locale::Eng,
            Language::Rus => Locale::Rus,
            Language::Cmn => Locale::Cmn,
            Language::Spa => Locale::Spa,
            Language::Por => Locale::Por,
            Language::Ita => Locale::Ita,
            Language::Ben => Locale::Ben,
            Language::Fra => Locale::Fra,
            Language::Deu => Locale::Deu,
            Language::Ukr => Locale::Ukr,
            Language::Kat => Locale::Kat,
            Language::Ara => Locale::Ara,
            Language::Hin => Locale::Hin,
            Language::Jpn => Locale::Jpn,
            Language::Heb => Locale::Heb,
            Language::Yid => Locale::Yid,
            Language::Pol => Locale::Pol,
            Language::Amh => Locale::Amh,
            Language::Jav => Locale::Jav,
            Language::Kor => Locale::Kor,
            Language::Nob => Locale::Nob,
            Language::Dan => Locale::Dan,
            Language::Swe => Locale::Swe,
            Language::Fin => Locale::Fin,
            Language::Tur => Locale::Tur,
            Language::Nld => Locale::Nld,
            Language::Hun => Locale::Hun,
            Language::Ces => Locale::Ces,
            Language::Ell => Locale::Ell,
            Language::Bul => Locale::Bul,
            Language::Bel => Locale::Bel,
            Language::Mar => Locale::Mar,
            Language::Kan => Locale::Kan,
            Language::Ron => Locale::Ron,
            Language::Slv => Locale::Slv,
            Language::Hrv => Locale::Hrv,
            Language::Srp => Locale::Srp,
            Language::Mkd => Locale::Mkd,
            Language::Lit => Locale::Lit,
            Language::Lav => Locale::Lav,
            Language::Est => Locale::Est,
            Language::Tam => Locale::Tam,
            Language::Vie => Locale::Vie,
            Language::Urd => Locale::Urd,
            Language::Tha => Locale::Tha,
            Language::Guj => Locale::Guj,
            Language::Uzb => Locale::Uzb,
            Language::Pan => Locale::Pan,
            Language::Aze => Locale::Aze,
            Language::Ind => Locale::Ind,
            Language::Tel => Locale::Tel,
            Language::Pes => Locale::Pes,
            Language::Mal => Locale::Mal,
            Language::Ori => Locale::Ori,
            Language::Mya => Locale::Mya,
            Language::Nep => Locale::Nep,
            Language::Sin => Locale::Sin,
            Language::Khm => Locale::Khm,
            Language::Tuk => Locale::Tuk,
            Language::Aka => Locale::Aka,
            Language::Zul => Locale::Zul,
            Language::Sna => Locale::Sna,
            Language::Afr => Locale::Afr,
            Language::Lat => Locale::Lat,
            Language::Slk => Locale::Slk,
            Language::Cat => Locale::Cat,
            Language::Tgl => Locale::Tgl,
            Language::Hye => Locale::Hye,
            Language::Zho => Locale::Zho,
        }
    }
}

impl vstd::std_specs::convert::FromSpecImpl<Language> for Locale {
    open spec fn obeys_from_spec() -> bool {
        true
    }

    open spec fn from_spec(v: Language) -> Locale {
        from_language(v)
    }
}

impl From<Locale> for Language {
    fn from(other: Locale) -> (r: Language) {
        match other {
            Locale::Epo => Language::Epo,
            Locale::Eng => Language::Eng,
            Locale::Rus => Language::Rus,
            Locale::Cmn => Language::Cmn,
            Locale::Spa => Language::Spa,
            Locale::Por => Language::Por,
            Locale::Ita => Language::Ita,
            Locale::Ben => Language::Ben,
            Locale::Fra => Language::Fra,
            Locale::Deu => Language::Deu,
            Locale::Ukr => Language::Ukr,
            Locale::Kat => Language::Kat,
            Locale::Ara => Language::Ara,
            Locale::Hin => Language::Hin,
            Locale::Jpn => Language::Jpn,
            Locale::Heb => Language::Heb,
            Locale::Yid => Language::Yid,
            Locale::Pol => Language::Pol,
            Locale::Amh => Language::Amh,
            Locale::Jav => Language::Jav,
            Locale::Kor => Language::Kor,
            Locale::Nob => Language::Nob,
            Locale::Dan => Language::Dan,
            Locale::Swe => Language::Swe,
            Locale::Fin => Language::Fin,
            Locale::Tur => Language::Tur,
            Locale::Nld => Language::Nld,
            Locale::Hun => Language::Hun,
            Locale::Ces => Language::Ces,
            Locale::Ell => Language::Ell,
            Locale::Bul => Language::Bul,
            Locale::Bel => Language::Bel,
            Locale::Mar => Language::Mar,
            Locale::Kan => Language::Kan,
            Locale::Ron => Language::Ron,
            Locale::Slv => Language::Slv,
            Locale::Hrv => Language::Hrv,
            Locale::Srp => Language::Srp,
            Locale::Mkd => Language::Mkd,
            Locale::Lit => Language::Lit,
            Locale::Lav => Language::Lav,
            Locale::Est => Language::Est,
            Locale::Tam => Language::Tam,
            Locale::Vie => Language::Vie,
            Locale::Urd => Language::Urd,
            Locale::Tha => Language::Tha,
            Locale::Guj => Language::Guj,
            Locale::Uzb => Language::Uzb,
            Locale::Pan => Language::Pan,
            Locale::Aze => Language::Aze,
            Locale::Ind => Language::Ind,
            Locale::Tel => Language::Tel,
            Locale::Pes => Language::Pes,
            Locale::Mal => Language::Mal,
            Locale::Ori => Language::Ori,
            Locale::Mya => Language::Mya,
            Locale::Nep => Language::Nep,
            Locale::Sin => Language::Sin,
            Locale::Khm => Language::Khm,
            Locale::Tuk => Language::Tuk,
            Locale::Aka => Language::Aka,
            Locale::Zul => Language::Zul,
            Locale::Sna => Language::Sna,
            Locale::Afr => Language::Afr,
            Locale::Lat => Language::Lat,
            Locale::Slk => Language::Slk,
            Locale::Cat => Language::Cat,
            Locale::Tgl => Language::Tgl,
            Locale::Hye => Language::Hye,
            Locale::Zho => Language::Zho,
        }
    }
}

impl vstd::std_specs::convert::FromSpecImpl<Locale> for Language {
    open spec fn obeys_from_spec() -> bool {
        true
    }

    open spec fn from_spec(v: Locale) -> Language {
        to_language(v)
    }
}

impl Locale {
    /// The code under which this locale is written on the wire.
    pub fn code(&self) -> (r: &'static str)
        ensures
            r@ == code_of(*self),
    {
        match self {
            Locale::Epo => "epo",
            Locale::Eng => "eng",
            Locale::Rus => "rus",
            Locale::Cmn => "cmn",
            Locale::Spa => "spa",
            Locale::Por => "por",
            Locale::Ita => "ita",
            Locale::Ben => "ben",
            Locale::Fra => "fra",
            Locale::Deu => "deu",
            Locale::Ukr => "ukr",
            Locale::Kat => "kat",
            Locale::Ara => "ara",
            Locale::Hin => "hin",
            Locale::Jpn => "jpn",
            Locale::Heb => "heb",
            Locale::Yid => "yid",
            Locale::Pol => "pol",
            Locale::Amh => "amh",
            Locale::Jav => "jav",
            Locale::Kor => "kor",
            Locale::Nob => "nob",
            Locale::Dan => "dan",
            Locale::Swe => "swe",
            Locale::Fin => "fin",
            Locale::Tur => "tur",
            Locale::Nld => "nld",
            Locale::Hun => "hun",
            Locale::Ces => "ces",
            Locale::Ell => "ell",
            Locale::Bul => "bul",
            Locale::Bel => "bel",
            Locale::Mar => "mar",
            Locale::Kan => "kan",
            Locale::Ron => "ron",
            Locale::Slv => "slv",
            Locale::Hrv => "hrv",
            Locale::Srp => "srp",
            Locale::Mkd => "mkd",
            Locale::Lit => "lit",
            Locale::Lav => "lav",
            Locale::Est => "est",
            Locale::Tam => "tam",
            Locale::Vie => "vie",
            Locale::Urd => "urd",
            Locale::Tha => "tha",
            Locale::Guj => "guj",
            Locale::Uzb => "uzb",
            Locale::Pan => "pan",
            Locale::Aze => "aze",
            Locale::Ind => "ind",
            Locale::Tel => "tel",
            Locale::Pes => "pes",
            Locale::Mal => "mal",
            Locale::Ori => "ori",
            Locale::Mya => "mya",
            Locale::Nep => "nep",
            Locale::Sin => "sin",
            Locale::Khm => "khm",
            Locale::Tuk => "tuk",
            Locale::Aka => "aka",
            Locale::Zul => "zul",
            Locale::Sna => "sna",
            Locale::Afr => "afr",
            Locale::Lat => "lat",
            Locale::Slk => "slk",
            Locale::Cat => "cat",
            Locale::Tgl => "tgl",
            Locale::Hye => "hye",
            Locale::Zho => "zho",
        }
    }

    fn at(i: usize) -> (r: Locale)
        requires
            i < LOCALE_COUNT,
        ensures
            r == locale_at(i as int),
    {
        if i == 0 {
            Locale::Epo
        } else if i == 1 {
            Locale::Eng
        } else if i == 2 {
            Locale::Rus
        } else if i == 3 {
            Locale::Cmn
        } else if i == 4 {
            Locale::Spa
        } else if i == 5 {
            Locale::Por
        } else if i == 6 {
            Locale::Ita
        } else if i == 7 {
            Locale::Ben
        } else if i == 8 {
            Locale::Fra
        } else if i == 9 {
            Locale::Deu
        } else if i == 10 {
            Locale::Ukr
        } else if i == 11 {
            Locale::Kat
        } else if i == 12 {
            Locale::Ara
        } else if i == 13 {
            Locale::Hin
        } else if i == 14 {
            Locale::Jpn
        } else if i == 15 {
            Locale::Heb
        } else if i == 16 {
            Locale::Yid
        } else if i == 17 {
            Locale::Pol
        } else if i == 18 {
            Locale::Amh
        } else if i == 19 {
            Locale::Jav
        } else if i == 20 {
            Locale::Kor
        } else if i == 21 {
            Locale::Nob
        } else if i == 22 {
            Locale::Dan
        } else if i == 23 {
            Locale::Swe
        } else if i == 24 {
            Locale::Fin
        } else if i == 25 {
            Locale::Tur
        } else if i == 26 {
            Locale::Nld
        } else if i == 27 {
            Locale::Hun
        } else if i == 28 {
            Locale::Ces
        } else if i == 29 {
            Locale::Ell
        } else if i == 30 {
            Locale::Bul
        } else if i == 31 {
            Locale::Bel
        } else if i == 32 {
            Locale::Mar
        } else if i == 33 {
            Locale::Kan
        } else if i == 34 {
            Locale::Ron
        } else if i == 35 {
            Locale::Slv
        } else if i == 36 {
            Locale::Hrv
        } else if i == 37 {
            Locale::Srp
        } else if i == 38 {
            Locale::Mkd
        } else if i == 39 {
            Locale::Lit
        } else if i == 40 {
            Locale::Lav
        } else if i == 41 {
            Locale::Est
        } else if i == 42 {
            Locale::Tam
        } else if i == 43 {
            Locale::Vie
        } else if i == 44 {
            Locale::Urd
        } else if i == 45 {
            Locale::Tha
        } else if i == 46 {
            Locale::Guj
        } else if i == 47 {
            Locale::Uzb
        } else if i == 48 {
            Locale::Pan
        } else if i == 49 {
            Locale::Aze
        } else if i == 50 {
            Locale::Ind
        } else if i == 51 {
            Locale::Tel
        } else if i == 52 {
            Locale::Pes
        } else if i == 53 {
            Locale::Mal
        } else if i == 54 {
            Locale::Ori
        } else if i == 55 {
            Locale::Mya
        } else if i == 56 {
            Locale::Nep
        } else if i == 57 {
            Locale::Sin
        } else if i == 58 {
            Locale::Khm
        } else if i == 59 {
            Locale::Tuk
        } else if i == 60 {
            Locale::Aka
        } else if i == 61 {
            Locale::Zul
        } else if i == 62 {
            Locale::Sna
        } else if i == 63 {
            Locale::Afr
        } else if i == 64 {
            Locale::Lat
        } else if i == 65 {
            Locale::Slk
        } else if i == 66 {
            Locale::Cat
        } else if i == 67 {
            Locale::Tgl
        } else if i == 68 {
            Locale::Hye
        } else {
            Locale::Zho
        }
    }

    /// Every locale, in registry order.
    pub fn all() -> (r: Vec<Locale>)
        ensures
            r@ == all_locales(),
    {
        let mut r: Vec<Locale> = Vec::new();
        let mut i: usize = 0;
        while i < LOCALE_COUNT
            invariant
                i <= LOCALE_COUNT,
                r@ == all_locales().take(i as int),
            decreases LOCALE_COUNT - i,
        {
            r.push(Locale::at(i));
            i = i + 1;
            assert(r@ =~= all_locales().take(i as int));
        }
        assert(r@ =~= all_locales());
        r
    }
}

/// Relies on charabia's `Language::from_code`: a language's own code gives
/// back that language. The call lowercases its input first, so it may also
/// answer other strings; callers check what it returns.
#[verifier::external_body]
fn language_from_code(s: &str) -> (r: Option<Language>)
    ensures
        forall|l: Language| s@ == language_code(l) ==> r == Some(l),
{
    Language::from_code(s)
}

/// Whether two strings hold the same characters.
fn same_text(a: &str, b: &str) -> (r: bool)
    ensures
        r == (a@ == b@),
{
    let n = a.unicode_len();
    if n != b.unicode_len() {
        return false;
    }
    let mut i: usize = 0;
    while i < n
        invariant
            n == a@.len(),
            n == b@.len(),
            i <= n,
            a@.take(i as int) == b@.take(i as int),
        decreases n - i,
    {
        if a.get_char(i) != b.get_char(i) {
            return false;
        }
        assert(a@.take(i + 1) =~= a@.take(i as int).push(a@[i as int]));
        assert(b@.take(i + 1) =~= b@.take(i as int).push(b@[i as int]));
        i = i + 1;
    }
    assert(a@ =~= a@.take(n as int));
    assert(b@ =~= b@.take(n as int));
    true
}

/// A string that names no locale.
#[derive(Debug)]
pub struct LocaleFormatError {
    pub invalid_locale: String,
}

impl Locale {
    /// Reads a locale from its code. The code must match exactly: case is
    /// kept and no space is trimmed.
    pub fn parse(s: &str) -> (r: Result<Locale, LocaleFormatError>)
        ensures
            match r {
                Ok(l) => locale_of_code(s@) == Some(l),
                Err(e) => locale_of_code(s@) is None && e.invalid_locale@ == s@,
            },
            r is Ok <==> exists|l: Locale| code_of(l) == s@,
    {
        match language_from_code(s) {
            Some(lang) => {
                let l = Locale::from(lang);
                if same_text(l.code(), s) {
                    proof {
                        lemma_parse_code(l);
                    }
                    return Ok(l);
                }
            },
            None => {},
        }
        proof {
            assert forall|l: Locale| code_of(l) != s@ by {
                if code_of(l) == s@ {
                    lemma_same_codes(l);
                    lemma_bijection();
                }
            }
        }
        Err(LocaleFormatError { invalid_locale: String::from_str(s) })
    }
}


/// `s` between double quotes.
pub open spec fn quoted(s: Seq<char>) -> Seq<char> {
    "\""@ + s + "\""@
}

/// The quoted codes of `ls`, in order, separated by a comma and a space.
pub open spec fn code_list(ls: Seq<Locale>) -> Seq<char>
    decreases ls.len(),
{
    if ls.len() == 0 {
        Seq::empty()
    } else if ls.len() == 1 {
        quoted(code_of(ls[0]))
    } else {
        code_list(ls.drop_last()) + ", "@ + quoted(code_of(ls.last()))
    }
}

/// The text that reports `input` as no locale and lists every valid code.
pub open spec fn error_message(input: Seq<char>) -> Seq<char> {
    "Unsupported locale \""@ + input + "\", expected one of "@ + code_list(all_locales())
}

/// The message of a failed parse names the input and then lists the code of
/// every locale, each exactly once, in registry order.
pub proof fn lemma_message_lists_every_code(input: Seq<char>)
    ensures
        error_message(input) == "Unsupported locale \""@ + input + "\", expected one of "@
            + code_list(all_locales()),
        all_locales().no_duplicates(),
        forall|l: Locale| all_locales().contains(l),
        forall|a: Locale, b: Locale|
            #![trigger code_of(a), code_of(b)]
            code_of(a) == code_of(b) ==> a == b,
{
    lemma_registry_complete();
    assert forall|a: Locale, b: Locale|
        #![trigger code_of(a), code_of(b)]
        code_of(a) == code_of(b) implies a == b by {
        lemma_codes_distinct(a, b);
    }
}

impl LocaleFormatError {
    /// The message that reports the invalid input and every valid code.
    pub fn message(&self) -> (r: String)
        ensures
            r@ == error_message(self.invalid_locale@),
    {
        let mut r = String::from_str("Unsupported locale \"");
        r.append(self.invalid_locale.as_str());
        r.append("\", expected one of ");
        let ghost head = r@;
        let mut i: usize = 0;
        while i < LOCALE_COUNT
            invariant
                i <= LOCALE_COUNT,
                r@ == head + code_list(all_locales().take(i as int)),
            decreases LOCALE_COUNT - i,
        {
            let l = Locale::at(i);
            let ghost before = r@;
            if i > 0 {
                r.append(", ");
            }
            r.append("\"");
            r.append(l.code());
            r.append("\"");
            proof {
                let ls = all_locales().take(i + 1);
                assert(ls.drop_last() =~= all_locales().take(i as int));
                assert(ls.last() == l);
                if i == 0 {
                    assert(before =~= head);
                    assert(r@ =~= head + quoted(code_of(l)));
                } else {
                    assert(r@ =~= before + ", "@ + quoted(code_of(l)));
                }
            }
            i = i + 1;
        }
        assert(all_locales().take(LOCALE_COUNT as int) =~= all_locales());
        r
    }
}

impl core::str::FromStr for Locale {
    type Err = LocaleFormatError;

    fn from_str(s: &str) -> Result<Locale, LocaleFormatError> {
        Locale::parse(s)
    }
}


} // verus!
