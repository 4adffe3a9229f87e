//! The language identifier and the registry it is looked up in.

use crate::family::{family_names, lemma_family_listed};
use vstd::prelude::*;

verus! {

/// An ISO 639-1 language, named after its two-letter code.
///
/// The variants are declared in the registry's canonical order, which follows
/// the conventional listing of the standard (roughly by English name) and is
/// not alphabetical by code. Languages compare by their places in that order.
#[derive(Debug, Copy, Clone, PartialEq, Eq, Ord, Hash, Structural)]
pub enum LanguageCode {
    /// Abkhazian
    Ab,
    /// Afar
    Aa,
    /// Afrikaans
    Af,
    /// Akan
    Ak,
    /// Albanian
    Sq,
    /// Amharic
    Am,
    /// Arabic
    Ar,
    /// Aragonese
    An,
    /// Armenian
    Hy,
    /// Assamese
    As,
    /// Avaric
    Av,
    /// Avestan
    Ae,
    /// Aymara
    Ay,
    /// Azerbaijani
    Az,
    /// Bambara
    Bm,
    /// Bashkir
    Ba,
    /// Basque
    Eu,
    /// Belarusian
    Be,
    /// Bengali
    Bn,
    /// Bihari languages
    Bh,
    /// Bislama
    Bi,
    /// Bosnian
    Bs,
    /// Breton
    Br,
    /// Bulgarian
    Bg,
    /// Burmese
    My,
    /// Catalan
    Ca,
    /// Chamorro
    Ch,
    /// Chechen
    Ce,
    /// Chichewa
    Ny,
    /// Chinese
    Zh,
    /// Chuvash
    Cv,
    /// Cornish
    Kw,
    /// Corsican
    Co,
    /// Cree
    Cr,
    /// Croatian
    Hr,
    /// Czech
    Cs,
    /// Danish
    Da,
    /// Divehi
    Dv,
    /// Dutch
    Nl,
    /// Dzongkha
    Dz,
    /// English
    En,
    /// Esperanto
    Eo,
    /// Estonian
    Et,
    /// Ewe
    Ee,
    /// Faroese
    Fo,
    /// Fijian
    Fj,
    /// Finnish
    Fi,
    /// French
    Fr,
    /// Fulah
    Ff,
    /// Galician
    Gl,
    /// Georgian
    Ka,
    /// German
    De,
    /// Greek
    El,
    /// Guarani
    Gn,
    /// Gujarati
    Gu,
    /// Haitian
    Ht,
    /// Hausa
    Ha,
    /// Hebrew
    He,
    /// Herero
    Hz,
    /// Hindi
    Hi,
    /// Hiri Motu
    Ho,
    /// Hungarian
    Hu,
    /// Interlingua
    Ia,
    /// Indonesian
    Id,
    /// Interlingue
    Ie,
    /// Irish
    Ga,
    /// Igbo
    Ig,
    /// Inupiaq
    Ik,
    /// Ido
    Io,
    /// Icelandic
    Is,
    /// Italian
    It,
    /// Inuktitut
    Iu,
    /// Japanese
    Ja,
    /// Javanese
    Jv,
    /// Kalaallisut
    Kl,
    /// Kannada
    Kn,
    /// Kanuri
    Kr,
    /// Kashmiri
    Ks,
    /// Kazakh
    Kk,
    /// Central Khmer
    Km,
    /// Kikuyu
    Ki,
    /// Kinyarwanda
    Rw,
    /// Kirghiz
    Ky,
    /// Komi
    Kv,
    /// Kongo
    Kg,
    /// Korean
    Ko,
    /// Kurdish
    Ku,
    /// Kuanyama
    Kj,
    /// Latin
    La,
    /// Luxembourgish
    Lb,
    /// Ganda
    Lg,
    /// Limburgan
    Li,
    /// Lingala
    Ln,
    /// Lao
    Lo,
    /// Lithuanian
    Lt,
    /// Luba-Katanga
    Lu,
    /// Latvian
    Lv,
    /// Manx
    Gv,
    /// Macedonian
    Mk,
    /// Malagasy
    Mg,
    /// Malay
    Ms,
    /// Malayalam
    Ml,
    /// Maltese
    Mt,
    /// Maori
    Mi,
    /// Marathi
    Mr,
    /// Marshallese
    Mh,
    /// Mongolian
    Mn,
    /// Nauru
    Na,
    /// Navajo
    Nv,
    /// North Ndebele
    Nd,
    /// Nepali
    Ne,
    /// Ndonga
    Ng,
    /// Norwegian Bokmål
    Nb,
    /// Norwegian Nynorsk
    Nn,
    /// Norwegian
    No,
    /// Sichuan Yi
    Ii,
    /// South Ndebele
    Nr,
    /// Occitan
    Oc,
    /// Ojibwa
    Oj,
    /// Church Slavic
    Cu,
    /// Oromo
    Om,
    /// Oriya
    Or,
    /// Ossetian
    Os,
    /// Punjabi
    Pa,
    /// Pali
    Pi,
    /// Persian
    Fa,
    /// Polish
    Pl,
    /// Pashto
    Ps,
    /// Portuguese
    Pt,
    /// Quechua
    Qu,
    /// Romansh
    Rm,
    /// Rundi
    Rn,
    /// Romanian
    Ro,
    /// Russian
    Ru,
    /// Sanskrit
    Sa,
    /// Sardinian
    Sc,
    /// Sindhi
    Sd,
    /// Northern Sami
    Se,
    /// Samoan
    Sm,
    /// Sango
    Sg,
    /// Serbian
    Sr,
    /// Gaelic
    Gd,
    /// Shona
    Sn,
    /// Sinhala
    Si,
    /// Slovak
    Sk,
    /// Slovenian
    Sl,
    /// Somali
    So,
    /// Southern Sotho
    St,
    /// Spanish
    Es,
    /// Sundanese
    Su,
    /// Swahili
    Sw,
    /// Swati
    Ss,
    /// Swedish
    Sv,
    /// Tamil
    Ta,
    /// Telugu
    Te,
    /// Tajik
    Tg,
    /// Thai
    Th,
    /// Tigrinya
    Ti,
    /// Tibetan
    Bo,
    /// Turkmen
    Tk,
    /// Tagalog
    Tl,
    /// Tswana
    Tn,
    /// Tonga
    To,
    /// Turkish
    Tr,
    /// Tsonga
    Ts,
    /// Tatar
    Tt,
    /// Twi
    Tw,
    /// Tahitian
    Ty,
    /// Uighur
    Ug,
    /// Ukrainian
    Uk,
    /// Urdu
    Ur,
    /// Uzbek
    Uz,
    /// Venda
    Ve,
    /// Vietnamese
    Vi,
    /// Volapük
    Vo,
    /// Walloon
    Wa,
    /// Welsh
    Cy,
    /// Wolof
    Wo,
    /// Western Frisian
    Fy,
    /// Xhosa
    Xh,
    /// Yiddish
    Yi,
    /// Yoruba
    Yo,
    /// Zhuang
    Za,
    /// Zulu
    Zu,
}

/// One row of the registry: the language, its two-letter code, its ISO 639-2/T
/// code, its ISO 639-2/B code, its English name and its family.
pub type LanguageEntry = (
    LanguageCode,
    &'static str,
    &'static str,
    &'static str,
    &'static str,
    &'static str,
);

/// How many languages the registry holds.
pub const LANGUAGE_COUNT: usize = 184;

/// Every language, in canonical order.
pub const LANGUAGE_CODES: [LanguageCode; 184] = [
    LanguageCode::Ab, LanguageCode::Aa, LanguageCode::Af, LanguageCode::Ak, LanguageCode::Sq,
    LanguageCode::Am, LanguageCode::Ar, LanguageCode::An, LanguageCode::Hy, LanguageCode::As,
    LanguageCode::Av, LanguageCode::Ae, LanguageCode::Ay, LanguageCode::Az, LanguageCode::Bm,
    LanguageCode::Ba, LanguageCode::Eu, LanguageCode::Be, LanguageCode::Bn, LanguageCode::Bh,
    LanguageCode::Bi, LanguageCode::Bs, LanguageCode::Br, LanguageCode::Bg, LanguageCode::My,
    LanguageCode::Ca, LanguageCode::Ch, LanguageCode::Ce, LanguageCode::Ny, LanguageCode::Zh,
    LanguageCode::Cv, LanguageCode::Kw, LanguageCode::Co, LanguageCode::Cr, LanguageCode::Hr,
    LanguageCode::Cs, LanguageCode::Da, LanguageCode::Dv, LanguageCode::Nl, LanguageCode::Dz,
    LanguageCode::En, LanguageCode::Eo, LanguageCode::Et, LanguageCode::Ee, LanguageCode::Fo,
    LanguageCode::Fj, LanguageCode::Fi, LanguageCode::Fr, LanguageCode::Ff, LanguageCode::Gl,
    LanguageCode::Ka, LanguageCode::De, LanguageCode::El, LanguageCode::Gn, LanguageCode::Gu,
    LanguageCode::Ht, LanguageCode::Ha, LanguageCode::He, LanguageCode::Hz, LanguageCode::Hi,
    LanguageCode::Ho, LanguageCode::Hu, LanguageCode::Ia, LanguageCode::Id, LanguageCode::Ie,
    LanguageCode::Ga, LanguageCode::Ig, LanguageCode::Ik, LanguageCode::Io, LanguageCode::Is,
    LanguageCode::It, LanguageCode::Iu, LanguageCode::Ja, LanguageCode::Jv, LanguageCode::Kl,
    LanguageCode::Kn, LanguageCode::Kr, LanguageCode::Ks, LanguageCode::Kk, LanguageCode::Km,
    LanguageCode::Ki, LanguageCode::Rw, LanguageCode::Ky, LanguageCode::Kv, LanguageCode::Kg,
    LanguageCode::Ko, LanguageCode::Ku, LanguageCode::Kj, LanguageCode::La, LanguageCode::Lb,
    LanguageCode::Lg, LanguageCode::Li, LanguageCode::Ln, LanguageCode::Lo, LanguageCode::Lt,
    LanguageCode::Lu, LanguageCode::Lv, LanguageCode::Gv, LanguageCode::Mk, LanguageCode::Mg,
    LanguageCode::Ms, LanguageCode::Ml, LanguageCode::Mt, LanguageCode::Mi, LanguageCode::Mr,
    LanguageCode::Mh, LanguageCode::Mn, LanguageCode::Na, LanguageCode::Nv, LanguageCode::Nd,
    LanguageCode::Ne, LanguageCode::Ng, LanguageCode::Nb, LanguageCode::Nn, LanguageCode::No,
    LanguageCode::Ii, LanguageCode::Nr, LanguageCode::Oc, LanguageCode::Oj, LanguageCode::Cu,
    LanguageCode::Om, LanguageCode::Or, LanguageCode::Os, LanguageCode::Pa, LanguageCode::Pi,
    LanguageCode::Fa, LanguageCode::Pl, LanguageCode::Ps, LanguageCode::Pt, LanguageCode::Qu,
    LanguageCode::Rm, LanguageCode::Rn, LanguageCode::Ro, LanguageCode::Ru, LanguageCode::Sa,
    LanguageCode::Sc, LanguageCode::Sd, LanguageCode::Se, LanguageCode::Sm, LanguageCode::Sg,
    LanguageCode::Sr, LanguageCode::Gd, LanguageCode::Sn, LanguageCode::Si, LanguageCode::Sk,
    LanguageCode::Sl, LanguageCode::So, LanguageCode::St, LanguageCode::Es, LanguageCode::Su,
    LanguageCode::Sw, LanguageCode::Ss, LanguageCode::Sv, LanguageCode::Ta, LanguageCode::Te,
    LanguageCode::Tg, LanguageCode::Th, LanguageCode::Ti, LanguageCode::Bo, LanguageCode::Tk,
    LanguageCode::Tl, LanguageCode::Tn, LanguageCode::To, LanguageCode::Tr, LanguageCode::Ts,
    LanguageCode::Tt, LanguageCode::Tw, LanguageCode::Ty, LanguageCode::Ug, LanguageCode::Uk,
    LanguageCode::Ur, LanguageCode::Uz, LanguageCode::Ve, LanguageCode::Vi, LanguageCode::Vo,
    LanguageCode::Wa, LanguageCode::Cy, LanguageCode::Wo, LanguageCode::Fy, LanguageCode::Xh,
    LanguageCode::Yi, LanguageCode::Yo, LanguageCode::Za, LanguageCode::Zu,
];

/// The registry: one row per language, in canonical order.
pub const LANGUAGES: [LanguageEntry; 184] = [
    (LanguageCode::Ab, "ab", "abk", "abk", "Abkhazian", "Northwest Caucasian"),
    (LanguageCode::Aa, "aa", "aar", "aar", "Afar", "Afro-Asiatic"),
    (LanguageCode::Af, "af", "afr", "afr", "Afrikaans", "Indo-European"),
    (LanguageCode::Ak, "ak", "aka", "aka", "Akan", "Niger–Congo"),
    (LanguageCode::Sq, "sq", "sqi", "alb", "Albanian", "Indo-European"),
    (LanguageCode::Am, "am", "amh", "amh", "Amharic", "Afro-Asiatic"),
    (LanguageCode::Ar, "ar", "ara", "ara", "Arabic", "Afro-Asiatic"),
    (LanguageCode::An, "an", "arg", "arg", "Aragonese", "Indo-European"),
    (LanguageCode::Hy, "hy", "hye", "arm", "Armenian", "Indo-European"),
    (LanguageCode::As, "as", "asm", "asm", "Assamese", "Indo-European"),
    (LanguageCode::Av, "av", "ava", "ava", "Avaric", "Northeast Caucasian"),
    (LanguageCode::Ae, "ae", "ave", "ave", "Avestan", "Indo-European"),
    (LanguageCode::Ay, "ay", "aym", "aym", "Aymara", "Aymaran"),
    (LanguageCode::Az, "az", "aze", "aze", "Azerbaijani", "Turkic"),
    (LanguageCode::Bm, "bm", "bam", "bam", "Bambara", "Niger–Congo"),
    (LanguageCode::Ba, "ba", "bak", "bak", "Bashkir", "Turkic"),
    (LanguageCode::Eu, "eu", "eus", "baq", "Basque", "Language isolate"),
    (LanguageCode::Be, "be", "bel", "bel", "Belarusian", "Indo-European"),
    (LanguageCode::Bn, "bn", "ben", "ben", "Bengali", "Indo-European"),
    (LanguageCode::Bh, "bh", "bih", "bih", "Bihari languages", "Indo-European"),
    (LanguageCode::Bi, "bi", "bis", "bis", "Bislama", "Creole"),
    (LanguageCode::Bs, "bs", "bos", "bos", "Bosnian", "Indo-European"),
    (LanguageCode::Br, "br", "bre", "bre", "Breton", "Indo-European"),
    (LanguageCode::Bg, "bg", "bul", "bul", "Bulgarian", "Indo-European"),
    (LanguageCode::My, "my", "mya", "bur", "Burmese", "Sino-Tibetan"),
    (LanguageCode::Ca, "ca", "cat", "cat", "Catalan", "Indo-European"),
    (LanguageCode::Ch, "ch", "cha", "cha", "Chamorro", "Austronesian"),
    (LanguageCode::Ce, "ce", "che", "che", "Chechen", "Northeast Caucasian"),
    (LanguageCode::Ny, "ny", "nya", "nya", "Chichewa", "Niger–Congo"),
    (LanguageCode::Zh, "zh", "zho", "chi", "Chinese", "Sino-Tibetan"),
    (LanguageCode::Cv, "cv", "chv", "chv", "Chuvash", "Turkic"),
    (LanguageCode::Kw, "kw", "cor", "cor", "Cornish", "Indo-European"),
    (LanguageCode::Co, "co", "cos", "cos", "Corsican", "Indo-European"),
    (LanguageCode::Cr, "cr", "cre", "cre", "Cree", "Algonquian"),
    (LanguageCode::Hr, "hr", "hrv", "hrv", "Croatian", "Indo-European"),
    (LanguageCode::Cs, "cs", "ces", "cze", "Czech", "Indo-European"),
    (LanguageCode::Da, "da", "dan", "dan", "Danish", "Indo-European"),
    (LanguageCode::Dv, "dv", "div", "div", "Divehi", "Indo-European"),
    (LanguageCode::Nl, "nl", "nld", "dut", "Dutch", "Indo-European"),
    (LanguageCode::Dz, "dz", "dzo", "dzo", "Dzongkha", "Sino-Tibetan"),
    (LanguageCode::En, "en", "eng", "eng", "English", "Indo-European"),
    (LanguageCode::Eo, "eo", "epo", "epo", "Esperanto", "Constructed"),
    (LanguageCode::Et, "et", "est", "est", "Estonian", "Uralic"),
    (LanguageCode::Ee, "ee", "ewe", "ewe", "Ewe", "Niger–Congo"),
    (LanguageCode::Fo, "fo", "fao", "fao", "Faroese", "Indo-European"),
    (LanguageCode::Fj, "fj", "fij", "fij", "Fijian", "Austronesian"),
    (LanguageCode::Fi, "fi", "fin", "fin", "Finnish", "Uralic"),
    (LanguageCode::Fr, "fr", "fra", "fre", "French", "Indo-European"),
    (LanguageCode::Ff, "ff", "ful", "ful", "Fulah", "Niger–Congo"),
    (LanguageCode::Gl, "gl", "glg", "glg", "Galician", "Indo-European"),
    (LanguageCode::Ka, "ka", "kat", "geo", "Georgian", "Kartvelian"),
    (LanguageCode::De, "de", "deu", "ger", "German", "Indo-European"),
    (LanguageCode::El, "el", "ell", "gre", "Greek", "Indo-European"),
    (LanguageCode::Gn, "gn", "grn", "grn", "Guarani", "Tupian"),
    (LanguageCode::Gu, "gu", "guj", "guj", "Gujarati", "Indo-European"),
    (LanguageCode::Ht, "ht", "hat", "hat", "Haitian", "Creole"),
    (LanguageCode::Ha, "ha", "hau", "hau", "Hausa", "Afro-Asiatic"),
    (LanguageCode::He, "he", "heb", "heb", "Hebrew", "Afro-Asiatic"),
    (LanguageCode::Hz, "hz", "her", "her", "Herero", "Niger–Congo"),
    (LanguageCode::Hi, "hi", "hin", "hin", "Hindi", "Indo-European"),
    (LanguageCode::Ho, "ho", "hmo", "hmo", "Hiri Motu", "Austronesian"),
    (LanguageCode::Hu, "hu", "hun", "hun", "Hungarian", "Uralic"),
    (LanguageCode::Ia, "ia", "ina", "ina", "Interlingua", "Constructed"),
    (LanguageCode::Id, "id", "ind", "ind", "Indonesian", "Austronesian"),
    (LanguageCode::Ie, "ie", "ile", "ile", "Interlingue", "Constructed"),
    (LanguageCode::Ga, "ga", "gle", "gle", "Irish", "Indo-European"),
    (LanguageCode::Ig, "ig", "ibo", "ibo", "Igbo", "Niger–Congo"),
    (LanguageCode::Ik, "ik", "ipk", "ipk", "Inupiaq", "Eskimo–Aleut"),
    (LanguageCode::Io, "io", "ido", "ido", "Ido", "Constructed"),
    (LanguageCode::Is, "is", "isl", "ice", "Icelandic", "Indo-European"),
    (LanguageCode::It, "it", "ita", "ita", "Italian", "Indo-European"),
    (LanguageCode::Iu, "iu", "iku", "iku", "Inuktitut", "Eskimo–Aleut"),
    (LanguageCode::Ja, "ja", "jpn", "jpn", "Japanese", "Japonic"),
    (LanguageCode::Jv, "jv", "jav", "jav", "Javanese", "Austronesian"),
    (LanguageCode::Kl, "kl", "kal", "kal", "Kalaallisut", "Eskimo–Aleut"),
    (LanguageCode::Kn, "kn", "kan", "kan", "Kannada", "Dravidian"),
    (LanguageCode::Kr, "kr", "kau", "kau", "Kanuri", "Nilo-Saharan"),
    (LanguageCode::Ks, "ks", "kas", "kas", "Kashmiri", "Indo-European"),
    (LanguageCode::Kk, "kk", "kaz", "kaz", "Kazakh", "Turkic"),
    (LanguageCode::Km, "km", "khm", "khm", "Central Khmer", "Austroasiatic"),
    (LanguageCode::Ki, "ki", "kik", "kik", "Kikuyu", "Niger–Congo"),
    (LanguageCode::Rw, "rw", "kin", "kin", "Kinyarwanda", "Niger–Congo"),
    (LanguageCode::Ky, "ky", "kir", "kir", "Kirghiz", "Turkic"),
    (LanguageCode::Kv, "kv", "kom", "kom", "Komi", "Uralic"),
    (LanguageCode::Kg, "kg", "kon", "kon", "Kongo", "Niger–Congo"),
    (LanguageCode::Ko, "ko", "kor", "kor", "Korean", "Koreanic"),
    (LanguageCode::Ku, "ku", "kur", "kur", "Kurdish", "Indo-European"),
    (LanguageCode::Kj, "kj", "kua", "kua", "Kuanyama", "Niger–Congo"),
    (LanguageCode::La, "la", "lat", "lat", "Latin", "Indo-European"),
    (LanguageCode::Lb, "lb", "ltz", "ltz", "Luxembourgish", "Indo-European"),
    (LanguageCode::Lg, "lg", "lug", "lug", "Ganda", "Niger–Congo"),
    (LanguageCode::Li, "li", "lim", "lim", "Limburgan", "Indo-European"),
    (LanguageCode::Ln, "ln", "lin", "lin", "Lingala", "Niger–Congo"),
    (LanguageCode::Lo, "lo", "lao", "lao", "Lao", "Tai–Kadai"),
    (LanguageCode::Lt, "lt", "lit", "lit", "Lithuanian", "Indo-European"),
    (LanguageCode::Lu, "lu", "lub", "lub", "Luba-Katanga", "Niger–Congo"),
    (LanguageCode::Lv, "lv", "lav", "lav", "Latvian", "Indo-European"),
    (LanguageCode::Gv, "gv", "glv", "glv", "Manx", "Indo-European"),
    (LanguageCode::Mk, "mk", "mkd", "mac", "Macedonian", "Indo-European"),
    (LanguageCode::Mg, "mg", "mlg", "mlg", "Malagasy", "Austronesian"),
    (LanguageCode::Ms, "ms", "msa", "may", "Malay", "Austronesian"),
    (LanguageCode::Ml, "ml", "mal", "mal", "Malayalam", "Dravidian"),
    (LanguageCode::Mt, "mt", "mlt", "mlt", "Maltese", "Afro-Asiatic"),
    (LanguageCode::Mi, "mi", "mri", "mao", "Maori", "Austronesian"),
    (LanguageCode::Mr, "mr", "mar", "mar", "Marathi", "Indo-European"),
    (LanguageCode::Mh, "mh", "mah", "mah", "Marshallese", "Austronesian"),
    (LanguageCode::Mn, "mn", "mon", "mon", "Mongolian", "Mongolic"),
    (LanguageCode::Na, "na", "nau", "nau", "Nauru", "Austronesian"),
    (LanguageCode::Nv, "nv", "nav", "nav", "Navajo", "Dené–Yeniseian"),
    (LanguageCode::Nd, "nd", "nde", "nde", "North Ndebele", "Niger–Congo"),
    (LanguageCode::Ne, "ne", "nep", "nep", "Nepali", "Indo-European"),
    (LanguageCode::Ng, "ng", "ndo", "ndo", "Ndonga", "Niger–Congo"),
    (LanguageCode::Nb, "nb", "nob", "nob", "Norwegian Bokmål", "Indo-European"),
    (LanguageCode::Nn, "nn", "nno", "nno", "Norwegian Nynorsk", "Indo-European"),
    (LanguageCode::No, "no", "nor", "nor", "Norwegian", "Indo-European"),
    (LanguageCode::Ii, "ii", "iii", "iii", "Sichuan Yi", "Sino-Tibetan"),
    (LanguageCode::Nr, "nr", "nbl", "nbl", "South Ndebele", "Niger–Congo"),
    (LanguageCode::Oc, "oc", "oci", "oci", "Occitan", "Indo-European"),
    (LanguageCode::Oj, "oj", "oji", "oji", "Ojibwa", "Algonquian"),
    (LanguageCode::Cu, "cu", "chu", "chu", "Church Slavic", "Indo-European"),
    (LanguageCode::Om, "om", "orm", "orm", "Oromo", "Afro-Asiatic"),
    (LanguageCode::Or, "or", "ori", "ori", "Oriya", "Indo-European"),
    (LanguageCode::Os, "os", "oss", "oss", "Ossetian", "Indo-European"),
    (LanguageCode::Pa, "pa", "pan", "pan", "Punjabi", "Indo-European"),
    (LanguageCode::Pi, "pi", "pli", "pli", "Pali", "Indo-European"),
    (LanguageCode::Fa, "fa", "fas", "per", "Persian", "Indo-European"),
    (LanguageCode::Pl, "pl", "pol", "pol", "Polish", "Indo-European"),
    (LanguageCode::Ps, "ps", "pus", "pus", "Pashto", "Indo-European"),
    (LanguageCode::Pt, "pt", "por", "por", "Portuguese", "Indo-European"),
    (LanguageCode::Qu, "qu", "que", "que", "Quechua", "Quechuan"),
    (LanguageCode::Rm, "rm", "roh", "roh", "Romansh", "Indo-European"),
    (LanguageCode::Rn, "rn", "run", "run", "Rundi", "Niger–Congo"),
    (LanguageCode::Ro, "ro", "ron", "rum", "Romanian", "Indo-European"),
    (LanguageCode::Ru, "ru", "rus", "rus", "Russian", "Indo-European"),
    (LanguageCode::Sa, "sa", "san", "san", "Sanskrit", "Indo-European"),
    (LanguageCode::Sc, "sc", "srd", "srd", "Sardinian", "Indo-European"),
    (LanguageCode::Sd, "sd", "snd", "snd", "Sindhi", "Indo-European"),
    (LanguageCode::Se, "se", "sme", "sme", "Northern Sami", "Uralic"),
    (LanguageCode::Sm, "sm", "smo", "smo", "Samoan", "Austronesian"),
    (LanguageCode::Sg, "sg", "sag", "sag", "Sango", "Creole"),
    (LanguageCode::Sr, "sr", "srp", "srp", "Serbian", "Indo-European"),
    (LanguageCode::Gd, "gd", "gla", "gla", "Gaelic", "Indo-European"),
    (LanguageCode::Sn, "sn", "sna", "sna", "Shona", "Niger–Congo"),
    (LanguageCode::Si, "si", "sin", "sin", "Sinhala", "Indo-European"),
    (LanguageCode::Sk, "sk", "slk", "slo", "Slovak", "Indo-European"),
    (LanguageCode::Sl, "sl", "slv", "slv", "Slovenian", "Indo-European"),
    (LanguageCode::So, "so", "som", "som", "Somali", "Afro-Asiatic"),
    (LanguageCode::St, "st", "sot", "sot", "Southern Sotho", "Niger–Congo"),
    (LanguageCode::Es, "es", "spa", "spa", "Spanish", "Indo-European"),
    (LanguageCode::Su, "su", "sun", "sun", "Sundanese", "Austronesian"),
    (LanguageCode::Sw, "sw", "swa", "swa", "Swahili", "Niger–Congo"),
    (LanguageCode::Ss, "ss", "ssw", "ssw", "Swati", "Niger–Congo"),
    (LanguageCode::Sv, "sv", "swe", "swe", "Swedish", "Indo-European"),
    (LanguageCode::Ta, "ta", "tam", "tam", "Tamil", "Dravidian"),
    (LanguageCode::Te, "te", "tel", "tel", "Telugu", "Dravidian"),
    (LanguageCode::Tg, "tg", "tgk", "tgk", "Tajik", "Indo-European"),
    (LanguageCode::Th, "th", "tha", "tha", "Thai", "Tai–Kadai"),
    (LanguageCode::Ti, "ti", "tir", "tir", "Tigrinya", "Afro-Asiatic"),
    (LanguageCode::Bo, "bo", "bod", "tib", "Tibetan", "Sino-Tibetan"),
    (LanguageCode::Tk, "tk", "tuk", "tuk", "Turkmen", "Turkic"),
    (LanguageCode::Tl, "tl", "tgl", "tgl", "Tagalog", "Austronesian"),
    (LanguageCode::Tn, "tn", "tsn", "tsn", "Tswana", "Niger–Congo"),
    (LanguageCode::To, "to", "ton", "ton", "Tonga", "Austronesian"),
    (LanguageCode::Tr, "tr", "tur", "tur", "Turkish", "Turkic"),
    (LanguageCode::Ts, "ts", "tso", "tso", "Tsonga", "Niger–Congo"),
    (LanguageCode::Tt, "tt", "tat", "tat", "Tatar", "Turkic"),
    (LanguageCode::Tw, "tw", "twi", "twi", "Twi", "Niger–Congo"),
    (LanguageCode::Ty, "ty", "tah", "tah", "Tahitian", "Austronesian"),
    (LanguageCode::Ug, "ug", "uig", "uig", "Uighur", "Turkic"),
    (LanguageCode::Uk, "uk", "ukr", "ukr", "Ukrainian", "Indo-European"),
    (LanguageCode::Ur, "ur", "urd", "urd", "Urdu", "Indo-European"),
    (LanguageCode::Uz, "uz", "uzb", "uzb", "Uzbek", "Turkic"),
    (LanguageCode::Ve, "ve", "ven", "ven", "Venda", "Niger–Congo"),
    (LanguageCode::Vi, "vi", "vie", "vie", "Vietnamese", "Austroasiatic"),
    (LanguageCode::Vo, "vo", "vol", "vol", "Volapük", "Constructed"),
    (LanguageCode::Wa, "wa", "wln", "wln", "Walloon", "Indo-European"),
    (LanguageCode::Cy, "cy", "cym", "wel", "Welsh", "Indo-European"),
    (LanguageCode::Wo, "wo", "wol", "wol", "Wolof", "Niger–Congo"),
    (LanguageCode::Fy, "fy", "fry", "fry", "Western Frisian", "Indo-European"),
    (LanguageCode::Xh, "xh", "xho", "xho", "Xhosa", "Niger–Congo"),
    (LanguageCode::Yi, "yi", "yid", "yid", "Yiddish", "Indo-European"),
    (LanguageCode::Yo, "yo", "yor", "yor", "Yoruba", "Niger–Congo"),
    (LanguageCode::Za, "za", "zha", "zha", "Zhuang", "Tai–Kadai"),
    (LanguageCode::Zu, "zu", "zul", "zul", "Zulu", "Niger–Congo"),
];

impl LanguageCode {
    /// The place of this language in canonical order, counted from zero:
    /// the place of its variant in the declaration of [`LanguageCode`].
    pub open spec fn position(self) -> int {
        self as int
    }

    /// The registry row of this language.
    pub open spec fn entry(self) -> LanguageEntry {
        LANGUAGES@[self.position()]
    }

    /// Returns the place of this language in canonical order: the index of
    /// its row in [`LANGUAGES`] and of itself in [`LANGUAGE_CODES`].
    #[must_use]
    pub fn index(self) -> (i: usize)
        ensures
            i == self.position(),
            i < LANGUAGE_COUNT,
            LANGUAGE_CODES@[i as int] == self,
            LANGUAGES@[i as int].0 == self,
    {
        self as usize
    }

    /// The two-letter ISO 639-1 code, as a sequence of characters.
    pub open spec fn code_spec(self) -> Seq<char> {
        self.entry().1@
    }

    /// The three-letter ISO 639-2/T code, as a sequence of characters.
    pub open spec fn code_t_spec(self) -> Seq<char> {
        self.entry().2@
    }

    /// The three-letter ISO 639-2/B code, as a sequence of characters.
    pub open spec fn code_b_spec(self) -> Seq<char> {
        self.entry().3@
    }

    /// The English name, as a sequence of characters.
    pub open spec fn name_spec(self) -> Seq<char> {
        self.entry().4@
    }

    /// The name of the language family, as a sequence of characters.
    pub open spec fn family_spec(self) -> Seq<char> {
        self.entry().5@
    }

    /// Returns the two-letter ISO 639-1 code of the language.
    #[must_use]
    pub fn code(self) -> (s: &'static str)
        ensures
            s == self.entry().1,
            s@ == self.code_spec(),
    {
        LANGUAGES[self.index()].1
    }

    /// Returns the three-letter ISO 639-2/T code of the language, the one
    /// preferred over the B code.
    #[must_use]
    pub fn code_t(self) -> (s: &'static str)
        ensures
            s == self.entry().2,
            s@ == self.code_t_spec(),
    {
        LANGUAGES[self.index()].2
    }

    /// Returns the three-letter ISO 639-2/B code of the language.
    #[must_use]
    pub fn code_b(self) -> (s: &'static str)
        ensures
            s == self.entry().3,
            s@ == self.code_b_spec(),
    {
        LANGUAGES[self.index()].3
    }

    /// Returns the English name of the language.
    #[must_use]
    pub fn name(self) -> (s: &'static str)
        ensures
            s == self.entry().4,
            s@ == self.name_spec(),
    {
        LANGUAGES[self.index()].4
    }

    /// Returns the name of the family the language belongs to.
    #[must_use]
    pub fn family(self) -> (s: &'static str)
        ensures
            s == self.entry().5,
            s@ == self.family_spec(),
            family_names().contains(s@),
    {
        proof {
            lemma_family_listed(self);
        }
        LANGUAGES[self.index()].5
    }

    /// Returns the text a language is displayed as: its English name.
    #[must_use]
    pub fn to_string(&self) -> (s: String)
        ensures
            s@ == self.name_spec(),
    {
        self.name().to_owned()
    }
}

/// Every language has exactly one place in canonical order, and both tables
/// hold it there.
pub proof fn lemma_language_listed(c: LanguageCode)
    ensures
        0 <= c.position() < 184,
        LANGUAGE_CODES@[c.position()] == c,
        LANGUAGES@[c.position()].0 == c,
{
}

/// The rows of [`LANGUAGES`] stand in the order of [`LANGUAGE_CODES`], and
/// the language at place `i` has position `i`: the tables hold 184 languages
/// and none of them twice.
pub proof fn lemma_registry_aligned(i: int)
    requires
        0 <= i < 184,
    ensures
        LANGUAGES@[i].0 == LANGUAGE_CODES@[i],
        LANGUAGE_CODES@[i].position() == i,
{
}

/// A lower-case letter of the basic Latin alphabet.
pub open spec fn is_lower_letter(c: char) -> bool {
    'a' <= c <= 'z'
}

/// Three lower-case letters.
pub open spec fn is_long_code(s: Seq<char>) -> bool {
    s.len() == 3 && is_lower_letter(s[0]) && is_lower_letter(s[1]) && is_lower_letter(s[2])
}

/// Both three-letter codes of every language are three lower-case letters,
/// and its name is not empty.
pub proof fn lemma_entry_shape(c: LanguageCode)
    ensures
        is_long_code(c.code_t_spec()),
        is_long_code(c.code_b_spec()),
        c.name_spec().len() > 0,
{
    match c {
        LanguageCode::Ab => {
            reveal_strlit("abk");
            reveal_strlit("Abkhazian");
        },
        LanguageCode::Aa => {
            reveal_strlit("aar");
            reveal_strlit("Afar");
        },
        LanguageCode::Af => {
            reveal_strlit("afr");
            reveal_strlit("Afrikaans");
        },
        LanguageCode::Ak => {
            reveal_strlit("aka");
            reveal_strlit("Akan");
        },
        LanguageCode::Sq => {
            reveal_strlit("sqi");
            reveal_strlit("alb");
            reveal_strlit("Albanian");
        },
        LanguageCode::Am => {
            reveal_strlit("amh");
            reveal_strlit("Amharic");
        },
        LanguageCode::Ar => {
            reveal_strlit("ara");
            reveal_strlit("Arabic");
        },
        LanguageCode::An => {
            reveal_strlit("arg");
            reveal_strlit("Aragonese");
        },
        LanguageCode::Hy => {
            reveal_strlit("hye");
            reveal_strlit("arm");
            reveal_strlit("Armenian");
        },
        LanguageCode::As => {
            reveal_strlit("asm");
            reveal_strlit("Assamese");
        },
        LanguageCode::Av => {
            reveal_strlit("ava");
            reveal_strlit("Avaric");
        },
        LanguageCode::Ae => {
            reveal_strlit("ave");
            reveal_strlit("Avestan");
        },
        LanguageCode::Ay => {
            reveal_strlit("aym");
            reveal_strlit("Aymara");
        },
        LanguageCode::Az => {
            reveal_strlit("aze");
            reveal_strlit("Azerbaijani");
        },
        LanguageCode::Bm => {
            reveal_strlit("bam");
            reveal_strlit("Bambara");
        },
        LanguageCode::Ba => {
            reveal_strlit("bak");
            reveal_strlit("Bashkir");
        },
        LanguageCode::Eu => {
            reveal_strlit("eus");
            reveal_strlit("baq");
            reveal_strlit("Basque");
        },
        LanguageCode::Be => {
            reveal_strlit("bel");
            reveal_strlit("Belarusian");
        },
        LanguageCode::Bn => {
            reveal_strlit("ben");
            reveal_strlit("Bengali");
        },
        LanguageCode::Bh => {
            reveal_strlit("bih");
            reveal_strlit("Bihari languages");
        },
        LanguageCode::Bi => {
            reveal_strlit("bis");
            reveal_strlit("Bislama");
        },
        LanguageCode::Bs => {
            reveal_strlit("bos");
            reveal_strlit("Bosnian");
        },
        LanguageCode::Br => {
            reveal_strlit("bre");
            reveal_strlit("Breton");
        },
        LanguageCode::Bg => {
            reveal_strlit("bul");
            reveal_strlit("Bulgarian");
        },
        LanguageCode::My => {
            reveal_strlit("mya");
            reveal_strlit("bur");
            reveal_strlit("Burmese");
        },
        LanguageCode::Ca => {
            reveal_strlit("cat");
            reveal_strlit("Catalan");
        },
        LanguageCode::Ch => {
            reveal_strlit("cha");
            reveal_strlit("Chamorro");
        },
        LanguageCode::Ce => {
            reveal_strlit("che");
            reveal_strlit("Chechen");
        },
        LanguageCode::Ny => {
            reveal_strlit("nya");
            reveal_strlit("Chichewa");
        },
        LanguageCode::Zh => {
            reveal_strlit("zho");
            reveal_strlit("chi");
            reveal_strlit("Chinese");
        },
        LanguageCode::Cv => {
            reveal_strlit("chv");
            reveal_strlit("Chuvash");
        },
        LanguageCode::Kw => {
            reveal_strlit("cor");
            reveal_strlit("Cornish");
        },
        LanguageCode::Co => {
            reveal_strlit("cos");
            reveal_strlit("Corsican");
        },
        LanguageCode::Cr => {
            reveal_strlit("cre");
            reveal_strlit("Cree");
        },
        LanguageCode::Hr => {
            reveal_strlit("hrv");
            reveal_strlit("Croatian");
        },
        LanguageCode::Cs => {
            reveal_strlit("ces");
            reveal_strlit("cze");
            reveal_strlit("Czech");
        },
        LanguageCode::Da => {
            reveal_strlit("dan");
            reveal_strlit("Danish");
        },
        LanguageCode::Dv => {
            reveal_strlit("div");
            reveal_strlit("Divehi");
        },
        LanguageCode::Nl => {
            reveal_strlit("nld");
            reveal_strlit("dut");
            reveal_strlit("Dutch");
        },
        LanguageCode::Dz => {
            reveal_strlit("dzo");
            reveal_strlit("Dzongkha");
        },
        LanguageCode::En => {
            reveal_strlit("eng");
            reveal_strlit("English");
        },
        LanguageCode::Eo => {
            reveal_strlit("epo");
            reveal_strlit("Esperanto");
        },
        LanguageCode::Et => {
            reveal_strlit("est");
            reveal_strlit("Estonian");
        },
        LanguageCode::Ee => {
            reveal_strlit("ewe");
            reveal_strlit("Ewe");
        },
        LanguageCode::Fo => {
            reveal_strlit("fao");
            reveal_strlit("Faroese");
        },
        LanguageCode::Fj => {
            reveal_strlit("fij");
            reveal_strlit("Fijian");
        },
        LanguageCode::Fi => {
            reveal_strlit("fin");
            reveal_strlit("Finnish");
        },
        LanguageCode::Fr => {
            reveal_strlit("fra");
            reveal_strlit("fre");
            reveal_strlit("French");
        },
        LanguageCode::Ff => {
            reveal_strlit("ful");
            reveal_strlit("Fulah");
        },
        LanguageCode::Gl => {
            reveal_strlit("glg");
            reveal_strlit("Galician");
        },
        LanguageCode::Ka => {
            reveal_strlit("kat");
            reveal_strlit("geo");
            reveal_strlit("Georgian");
        },
        LanguageCode::De => {
            reveal_strlit("deu");
            reveal_strlit("ger");
            reveal_strlit("German");
        },
        LanguageCode::El => {
            reveal_strlit("ell");
            reveal_strlit("gre");
            reveal_strlit("Greek");
        },
        LanguageCode::Gn => {
            reveal_strlit("grn");
            reveal_strlit("Guarani");
        },
        LanguageCode::Gu => {
            reveal_strlit("guj");
            reveal_strlit("Gujarati");
        },
        LanguageCode::Ht => {
            reveal_strlit("hat");
            reveal_strlit("Haitian");
        },
        LanguageCode::Ha => {
            reveal_strlit("hau");
            reveal_strlit("Hausa");
        },
        LanguageCode::He => {
            reveal_strlit("heb");
            reveal_strlit("Hebrew");
        },
        LanguageCode::Hz => {
            reveal_strlit("her");
            reveal_strlit("Herero");
        },
        LanguageCode::Hi => {
            reveal_strlit("hin");
            reveal_strlit("Hindi");
        },
        LanguageCode::Ho => {
            reveal_strlit("hmo");
            reveal_strlit("Hiri Motu");
        },
        LanguageCode::Hu => {
            reveal_strlit("hun");
            reveal_strlit("Hungarian");
        },
        LanguageCode::Ia => {
            reveal_strlit("ina");
            reveal_strlit("Interlingua");
        },
        LanguageCode::Id => {
            reveal_strlit("ind");
            reveal_strlit("Indonesian");
        },
        LanguageCode::Ie => {
            reveal_strlit("ile");
            reveal_strlit("Interlingue");
        },
        LanguageCode::Ga => {
            reveal_strlit("gle");
            reveal_strlit("Irish");
        },
        LanguageCode::Ig => {
            reveal_strlit("ibo");
            reveal_strlit("Igbo");
        },
        LanguageCode::Ik => {
            reveal_strlit("ipk");
            reveal_strlit("Inupiaq");
        },
        LanguageCode::Io => {
            reveal_strlit("ido");
            reveal_strlit("Ido");
        },
        LanguageCode::Is => {
            reveal_strlit("isl");
            reveal_strlit("ice");
            reveal_strlit("Icelandic");
        },
        LanguageCode::It => {
            reveal_strlit("ita");
            reveal_strlit("Italian");
        },
        LanguageCode::Iu => {
            reveal_strlit("iku");
            reveal_strlit("Inuktitut");
        },
        LanguageCode::Ja => {
            reveal_strlit("jpn");
            reveal_strlit("Japanese");
        },
        LanguageCode::Jv => {
            reveal_strlit("jav");
            reveal_strlit("Javanese");
        },
        LanguageCode::Kl => {
            reveal_strlit("kal");
            reveal_strlit("Kalaallisut");
        },
        LanguageCode::Kn => {
            reveal_strlit("kan");
            reveal_strlit("Kannada");
        },
        LanguageCode::Kr => {
            reveal_strlit("kau");
            reveal_strlit("Kanuri");
        },
        LanguageCode::Ks => {
            reveal_strlit("kas");
            reveal_strlit("Kashmiri");
        },
        LanguageCode::Kk => {
            reveal_strlit("kaz");
            reveal_strlit("Kazakh");
        },
        LanguageCode::Km => {
            reveal_strlit("khm");
            reveal_strlit("Central Khmer");
        },
        LanguageCode::Ki => {
            reveal_strlit("kik");
            reveal_strlit("Kikuyu");
        },
        LanguageCode::Rw => {
            reveal_strlit("kin");
            reveal_strlit("Kinyarwanda");
        },
        LanguageCode::Ky => {
            reveal_strlit("kir");
            reveal_strlit("Kirghiz");
        },
        LanguageCode::Kv => {
            reveal_strlit("kom");
            reveal_strlit("Komi");
        },
        LanguageCode::Kg => {
            reveal_strlit("kon");
            reveal_strlit("Kongo");
        },
        LanguageCode::Ko => {
            reveal_strlit("kor");
            reveal_strlit("Korean");
        },
        LanguageCode::Ku => {
            reveal_strlit("kur");
            reveal_strlit("Kurdish");
        },
        LanguageCode::Kj => {
            reveal_strlit("kua");
            reveal_strlit("Kuanyama");
        },
        LanguageCode::La => {
            reveal_strlit("lat");
            reveal_strlit("Latin");
        },
        LanguageCode::Lb => {
            reveal_strlit("ltz");
            reveal_strlit("Luxembourgish");
        },
        LanguageCode::Lg => {
            reveal_strlit("lug");
            reveal_strlit("Ganda");
        },
        LanguageCode::Li => {
            reveal_strlit("lim");
            reveal_strlit("Limburgan");
        },
        LanguageCode::Ln => {
            reveal_strlit("lin");
            reveal_strlit("Lingala");
        },
        LanguageCode::Lo => {
            reveal_strlit("lao");
            reveal_strlit("Lao");
        },
        LanguageCode::Lt => {
            reveal_strlit("lit");
            reveal_strlit("Lithuanian");
        },
        LanguageCode::Lu => {
            reveal_strlit("lub");
            reveal_strlit("Luba-Katanga");
        },
        LanguageCode::Lv => {
            reveal_strlit("lav");
            reveal_strlit("Latvian");
        },
        LanguageCode::Gv => {
            reveal_strlit("glv");
            reveal_strlit("Manx");
        },
        LanguageCode::Mk => {
            reveal_strlit("mkd");
            reveal_strlit("mac");
            reveal_strlit("Macedonian");
        },
        LanguageCode::Mg => {
            reveal_strlit("mlg");
            reveal_strlit("Malagasy");
        },
        LanguageCode::Ms => {
            reveal_strlit("msa");
            reveal_strlit("may");
            reveal_strlit("Malay");
        },
        LanguageCode::Ml => {
            reveal_strlit("mal");
            reveal_strlit("Malayalam");
        },
        LanguageCode::Mt => {
            reveal_strlit("mlt");
            reveal_strlit("Maltese");
        },
        LanguageCode::Mi => {
            reveal_strlit("mri");
            reveal_strlit("mao");
            reveal_strlit("Maori");
        },
        LanguageCode::Mr => {
            reveal_strlit("mar");
            reveal_strlit("Marathi");
        },
        LanguageCode::Mh => {
            reveal_strlit("mah");
            reveal_strlit("Marshallese");
        },
        LanguageCode::Mn => {
            reveal_strlit("mon");
            reveal_strlit("Mongolian");
        },
        LanguageCode::Na => {
            reveal_strlit("nau");
            reveal_strlit("Nauru");
        },
        LanguageCode::Nv => {
            reveal_strlit("nav");
            reveal_strlit("Navajo");
        },
        LanguageCode::Nd => {
            reveal_strlit("nde");
            reveal_strlit("North Ndebele");
        },
        LanguageCode::Ne => {
            reveal_strlit("nep");
            reveal_strlit("Nepali");
        },
        LanguageCode::Ng => {
            reveal_strlit("ndo");
            reveal_strlit("Ndonga");
        },
        LanguageCode::Nb => {
            reveal_strlit("nob");
            reveal_strlit("Norwegian Bokmål");
        },
        LanguageCode::Nn => {
            reveal_strlit("nno");
            reveal_strlit("Norwegian Nynorsk");
        },
        LanguageCode::No => {
            reveal_strlit("nor");
            reveal_strlit("Norwegian");
        },
        LanguageCode::Ii => {
            reveal_strlit("iii");
            reveal_strlit("Sichuan Yi");
        },
        LanguageCode::Nr => {
            reveal_strlit("nbl");
            reveal_strlit("South Ndebele");
        },
        LanguageCode::Oc => {
            reveal_strlit("oci");
            reveal_strlit("Occitan");
        },
        LanguageCode::Oj => {
            reveal_strlit("oji");
            reveal_strlit("Ojibwa");
        },
        LanguageCode::Cu => {
            reveal_strlit("chu");
            reveal_strlit("Church Slavic");
        },
        LanguageCode::Om => {
            reveal_strlit("orm");
            reveal_strlit("Oromo");
        },
        LanguageCode::Or => {
            reveal_strlit("ori");
            reveal_strlit("Oriya");
        },
        LanguageCode::Os => {
            reveal_strlit("oss");
            reveal_strlit("Ossetian");
        },
        LanguageCode::Pa => {
            reveal_strlit("pan");
            reveal_strlit("Punjabi");
        },
        LanguageCode::Pi => {
            reveal_strlit("pli");
            reveal_strlit("Pali");
        },
        LanguageCode::Fa => {
            reveal_strlit("fas");
            reveal_strlit("per");
            reveal_strlit("Persian");
        },
        LanguageCode::Pl => {
            reveal_strlit("pol");
            reveal_strlit("Polish");
        },
        LanguageCode::Ps => {
            reveal_strlit("pus");
            reveal_strlit("Pashto");
        },
        LanguageCode::Pt => {
            reveal_strlit("por");
            reveal_strlit("Portuguese");
        },
        LanguageCode::Qu => {
            reveal_strlit("que");
            reveal_strlit("Quechua");
        },
        LanguageCode::Rm => {
            reveal_strlit("roh");
            reveal_strlit("Romansh");
        },
        LanguageCode::Rn => {
            reveal_strlit("run");
            reveal_strlit("Rundi");
        },
        LanguageCode::Ro => {
            reveal_strlit("ron");
            reveal_strlit("rum");
            reveal_strlit("Romanian");
        },
        LanguageCode::Ru => {
            reveal_strlit("rus");
            reveal_strlit("Russian");
        },
        LanguageCode::Sa => {
            reveal_strlit("san");
            reveal_strlit("Sanskrit");
        },
        LanguageCode::Sc => {
            reveal_strlit("srd");
            reveal_strlit("Sardinian");
        },
        LanguageCode::Sd => {
            reveal_strlit("snd");
            reveal_strlit("Sindhi");
        },
        LanguageCode::Se => {
            reveal_strlit("sme");
            reveal_strlit("Northern Sami");
        },
        LanguageCode::Sm => {
            reveal_strlit("smo");
            reveal_strlit("Samoan");
        },
        LanguageCode::Sg => {
            reveal_strlit("sag");
            reveal_strlit("Sango");
        },
        LanguageCode::Sr => {
            reveal_strlit("srp");
            reveal_strlit("Serbian");
        },
        LanguageCode::Gd => {
            reveal_strlit("gla");
            reveal_strlit("Gaelic");
        },
        LanguageCode::Sn => {
            reveal_strlit("sna");
            reveal_strlit("Shona");
        },
        LanguageCode::Si => {
            reveal_strlit("sin");
            reveal_strlit("Sinhala");
        },
        LanguageCode::Sk => {
            reveal_strlit("slk");
            reveal_strlit("slo");
            reveal_strlit("Slovak");
        },
        LanguageCode::Sl => {
            reveal_strlit("slv");
            reveal_strlit("Slovenian");
        },
        LanguageCode::So => {
            reveal_strlit("som");
            reveal_strlit("Somali");
        },
        LanguageCode::St => {
            reveal_strlit("sot");
            reveal_strlit("Southern Sotho");
        },
        LanguageCode::Es => {
            reveal_strlit("spa");
            reveal_strlit("Spanish");
        },
        LanguageCode::Su => {
            reveal_strlit("sun");
            reveal_strlit("Sundanese");
        },
        LanguageCode::Sw => {
            reveal_strlit("swa");
            reveal_strlit("Swahili");
        },
        LanguageCode::Ss => {
            reveal_strlit("ssw");
            reveal_strlit("Swati");
        },
        LanguageCode::Sv => {
            reveal_strlit("swe");
            reveal_strlit("Swedish");
        },
        LanguageCode::Ta => {
            reveal_strlit("tam");
            reveal_strlit("Tamil");
        },
        LanguageCode::Te => {
            reveal_strlit("tel");
            reveal_strlit("Telugu");
        },
        LanguageCode::Tg => {
            reveal_strlit("tgk");
            reveal_strlit("Tajik");
        },
        LanguageCode::Th => {
            reveal_strlit("tha");
            reveal_strlit("Thai");
        },
        LanguageCode::Ti => {
            reveal_strlit("tir");
            reveal_strlit("Tigrinya");
        },
        LanguageCode::Bo => {
            reveal_strlit("bod");
            reveal_strlit("tib");
            reveal_strlit("Tibetan");
        },
        LanguageCode::Tk => {
            reveal_strlit("tuk");
            reveal_strlit("Turkmen");
        },
        LanguageCode::Tl => {
            reveal_strlit("tgl");
            reveal_strlit("Tagalog");
        },
        LanguageCode::Tn => {
            reveal_strlit("tsn");
            reveal_strlit("Tswana");
        },
        LanguageCode::To => {
            reveal_strlit("ton");
            reveal_strlit("Tonga");
        },
        LanguageCode::Tr => {
            reveal_strlit("tur");
            reveal_strlit("Turkish");
        },
        LanguageCode::Ts => {
            reveal_strlit("tso");
            reveal_strlit("Tsonga");
        },
        LanguageCode::Tt => {
            reveal_strlit("tat");
            reveal_strlit("Tatar");
        },
        LanguageCode::Tw => {
            reveal_strlit("twi");
            reveal_strlit("Twi");
        },
        LanguageCode::Ty => {
            reveal_strlit("tah");
            reveal_strlit("Tahitian");
        },
        LanguageCode::Ug => {
            reveal_strlit("uig");
            reveal_strlit("Uighur");
        },
        LanguageCode::Uk => {
            reveal_strlit("ukr");
            reveal_strlit("Ukrainian");
        },
        LanguageCode::Ur => {
            reveal_strlit("urd");
            reveal_strlit("Urdu");
        },
        LanguageCode::Uz => {
            reveal_strlit("uzb");
            reveal_strlit("Uzbek");
        },
        LanguageCode::Ve => {
            reveal_strlit("ven");
            reveal_strlit("Venda");
        },
        LanguageCode::Vi => {
            reveal_strlit("vie");
            reveal_strlit("Vietnamese");
        },
        LanguageCode::Vo => {
            reveal_strlit("vol");
            reveal_strlit("Volapük");
        },
        LanguageCode::Wa => {
            reveal_strlit("wln");
            reveal_strlit("Walloon");
        },
        LanguageCode::Cy => {
            reveal_strlit("cym");
            reveal_strlit("wel");
            reveal_strlit("Welsh");
        },
        LanguageCode::Wo => {
            reveal_strlit("wol");
            reveal_strlit("Wolof");
        },
        LanguageCode::Fy => {
            reveal_strlit("fry");
            reveal_strlit("Western Frisian");
        },
        LanguageCode::Xh => {
            reveal_strlit("xho");
            reveal_strlit("Xhosa");
        },
        LanguageCode::Yi => {
            reveal_strlit("yid");
            reveal_strlit("Yiddish");
        },
        LanguageCode::Yo => {
            reveal_strlit("yor");
            reveal_strlit("Yoruba");
        },
        LanguageCode::Za => {
            reveal_strlit("zha");
            reveal_strlit("Zhuang");
        },
        LanguageCode::Zu => {
            reveal_strlit("zul");
            reveal_strlit("Zulu");
        },
    }
}

} // verus!
