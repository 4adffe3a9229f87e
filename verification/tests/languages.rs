use isolanguage_1::{Families, LanguageCode, ParseError, FAMILIES, LANGUAGES, LANGUAGE_CODES};
use std::collections::{BTreeSet, HashSet};
use std::convert::TryFrom;

#[test]
fn code_strings() {
    assert_eq!(LanguageCode::Ae.code(), "ae");
    assert_eq!(LanguageCode::Ae.code_t(), "ave");
    assert_eq!(LanguageCode::Ae.code_b(), "ave");

    assert_eq!(LanguageCode::Zh.code(), "zh");
    assert_eq!(LanguageCode::Zh.code_t(), "zho");
    assert_eq!(LanguageCode::Zh.code_b(), "chi");

    assert_eq!(LanguageCode::Sg.code(), "sg");
    assert_eq!(LanguageCode::Sg.code_t(), "sag");
    assert_eq!(LanguageCode::Sg.code_b(), "sag");
}

#[test]
fn names_families() {
    assert_eq!(LanguageCode::Ae.name(), "Avestan");
    assert_eq!(LanguageCode::Ae.family(), "Indo-European");

    assert_eq!(LanguageCode::Zh.name(), "Chinese");
    assert_eq!(LanguageCode::Zh.family(), "Sino-Tibetan");

    assert_eq!(LanguageCode::Sg.name(), "Sango");
    assert_eq!(LanguageCode::Sg.family(), "Creole");
}

#[test]
fn parse() {
    assert_eq!("ae".parse::<LanguageCode>().unwrap(), LanguageCode::Ae);
    assert_eq!("zh".parse::<LanguageCode>().unwrap(), LanguageCode::Zh);
    assert_eq!("sg".parse::<LanguageCode>().unwrap(), LanguageCode::Sg);

    assert!("aE".parse::<LanguageCode>().is_err());
    assert!("Zh".parse::<LanguageCode>().is_err());
    assert!("sag".parse::<LanguageCode>().is_err());
}

#[test]
fn format() {
    assert_eq!(LanguageCode::Ae.to_string(), "Avestan");
    assert_eq!(LanguageCode::Zh.to_string(), "Chinese");
    assert_eq!(LanguageCode::Sg.to_string(), "Sango");
}

#[test]
fn lib_language_codes() {
    let mut codes = LanguageCode::iter();
    assert_eq!(codes.next(), Some(LanguageCode::Ab));
    assert_eq!(codes.next(), Some(LanguageCode::Aa));
}

#[test]
fn lib_codes() {
    let mut codes = LanguageCode::codes();
    assert_eq!(codes.next(), Some("ab"));
    assert_eq!(codes.next(), Some("aa"));
}

#[test]
fn lib_codes_t() {
    let mut codes_t = LanguageCode::codes_t();
    assert_eq!(codes_t.next(), Some("abk"));
    assert_eq!(codes_t.next(), Some("aar"));
}

#[test]
fn lib_codes_b() {
    let mut codes_b = LanguageCode::codes_b();
    assert_eq!(codes_b.next(), Some("abk"));
    assert_eq!(codes_b.next(), Some("aar"));
}

#[test]
fn lib_families() {
    let mut families = Families::default();
    assert_eq!(families.next(), Some("Afro-Asiatic"));
    assert_eq!(families.next(), Some("Algonquian"));
    assert_eq!(families.by_ref().count(), 24);
    assert_eq!(families.next(), None);
}

#[test]
fn more_rows() {
    assert_eq!(LanguageCode::Vi.code(), "vi");
    assert_eq!(LanguageCode::Nl.code_t(), "nld");
    assert_eq!(LanguageCode::Nl.code_b(), "dut");
    assert_eq!(LanguageCode::De.code_t(), "deu");
    assert_eq!(LanguageCode::De.code_b(), "ger");
    assert_eq!(LanguageCode::Fr.code_t(), "fra");
    assert_eq!(LanguageCode::Fr.code_b(), "fre");
    assert_eq!(LanguageCode::Cs.name(), "Czech");
    assert_eq!(LanguageCode::Kk.family(), "Turkic");
    assert_eq!(LanguageCode::Vo.family(), "Constructed");
    assert_eq!(LanguageCode::Vo.name(), "Volapük");
    assert_eq!(LanguageCode::Nb.name(), "Norwegian Bokmål");
    assert_eq!(LanguageCode::Nv.family(), "Dené–Yeniseian");
    assert_eq!(LanguageCode::Ab.code(), "ab");
    assert_eq!(LanguageCode::Ab.family(), "Northwest Caucasian");
    assert_eq!(LanguageCode::Zu.code(), "zu");
    assert_eq!(LanguageCode::Zu.code_t(), "zul");
    assert_eq!(LanguageCode::Zu.name(), "Zulu");
    assert_eq!(LanguageCode::Zu.family(), "Niger–Congo");
}

#[test]
fn parse_gives_the_code_back() {
    for language in LANGUAGE_CODES {
        assert_eq!(LanguageCode::parse(language.code()).unwrap(), language);
        assert_eq!(LanguageCode::try_from(language.code()).unwrap(), language);
        assert_eq!(language.code().parse::<LanguageCode>().unwrap(), language);
    }
}

#[test]
fn display_text_is_the_name() {
    for language in LANGUAGE_CODES {
        assert_eq!(language.to_string(), language.name());
        assert!(!language.name().is_empty());
    }
}

#[test]
fn parse_is_exact() {
    let inputs = [
        "EN", "en ", "eng", "En", "eN", " en", "e", "", "zho", "chi", "Zh", "xx", "a1", "éé",
        "ab\0",
    ];
    for input in inputs {
        let error = LanguageCode::parse(input).unwrap_err();
        assert_eq!(error.language, input);
        assert!(LanguageCode::try_from(input).is_err());
        assert!(input.parse::<LanguageCode>().is_err());
    }
    assert_eq!(LanguageCode::parse("zh").unwrap(), LanguageCode::Zh);
    assert_eq!(LanguageCode::parse("en").unwrap(), LanguageCode::En);
}

#[test]
fn parse_accepts_only_the_184_codes() {
    let mut accepted = 0;
    for first in 'a'..='z' {
        for second in 'a'..='z' {
            let input: String = [first, second].iter().collect();
            if let Ok(language) = LanguageCode::parse(&input) {
                assert_eq!(language.code(), input);
                accepted += 1;
            }
        }
    }
    assert_eq!(accepted, 184);
}

#[test]
fn error_message() {
    let error: ParseError = LanguageCode::parse("eng").unwrap_err();
    assert_eq!(error.language, "eng");
    assert_eq!(
        error.to_string(),
        "eng is not a valid ISO 639-1 2 letter language code"
    );
    let empty = LanguageCode::parse("").unwrap_err();
    assert_eq!(
        empty.to_string(),
        " is not a valid ISO 639-1 2 letter language code"
    );
    let copy = error.clone();
    assert_eq!(copy.language, "eng");
}

#[test]
fn tables_are_aligned() {
    assert_eq!(LANGUAGE_CODES.len(), 184);
    assert_eq!(LANGUAGES.len(), 184);
    for (i, language) in LANGUAGE_CODES.iter().enumerate() {
        assert_eq!(language.index(), i);
        let row = LANGUAGES[i];
        assert_eq!(row.0, *language);
        assert_eq!(row.1, language.code());
        assert_eq!(row.2, language.code_t());
        assert_eq!(row.3, language.code_b());
        assert_eq!(row.4, language.name());
        assert_eq!(row.5, language.family());
    }
    assert_eq!(LanguageCode::Ab.index(), 0);
    assert_eq!(LanguageCode::Zh.index(), 29);
    assert_eq!(LanguageCode::Zu.index(), 183);
}

#[test]
fn codes_have_their_shape_and_are_unique() {
    let mut codes = HashSet::new();
    for language in LANGUAGE_CODES {
        let code = language.code();
        assert_eq!(code.len(), 2);
        assert!(code.chars().all(|c| c.is_ascii_lowercase()));
        assert_eq!(language.code_t().len(), 3);
        assert!(language.code_t().chars().all(|c| c.is_ascii_lowercase()));
        assert_eq!(language.code_b().len(), 3);
        assert!(language.code_b().chars().all(|c| c.is_ascii_lowercase()));
        assert!(codes.insert(code));
    }
    assert_eq!(codes.len(), 184);
    let differing = LANGUAGE_CODES
        .iter()
        .filter(|language| language.code_t() != language.code_b())
        .count();
    assert_eq!(differing, 20);
}

#[test]
fn families_are_sorted_and_distinct() {
    assert_eq!(FAMILIES.len(), 26);
    for pair in FAMILIES.windows(2) {
        assert!(pair[0] < pair[1]);
    }
    let listed: Vec<&str> = LanguageCode::families().collect();
    assert_eq!(listed, FAMILIES.to_vec());
    assert_eq!(listed[0], "Afro-Asiatic");
    assert_eq!(listed[1], "Algonquian");
    assert_eq!(listed[25], "Uralic");
}

#[test]
fn every_family_is_listed_and_used() {
    let used: BTreeSet<&str> = LANGUAGE_CODES.iter().map(|language| language.family()).collect();
    let listed: BTreeSet<&str> = FAMILIES.iter().copied().collect();
    assert_eq!(used, listed);
    assert_eq!(listed.len(), 26);
}

#[test]
fn languages_are_ordered_by_their_place() {
    assert!(LanguageCode::Ab < LanguageCode::Aa);
    assert!(LanguageCode::Aa < LanguageCode::Af);
    assert!(LanguageCode::Za < LanguageCode::Zu);
    assert_eq!(LanguageCode::Zh, LanguageCode::Zh);
    assert_ne!(LanguageCode::Zh, LanguageCode::Za);
    for pair in LANGUAGE_CODES.windows(2) {
        assert!(pair[0] < pair[1]);
    }
    let set: HashSet<LanguageCode> = LANGUAGE_CODES.iter().copied().collect();
    assert_eq!(set.len(), 184);
}
