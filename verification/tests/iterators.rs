use isolanguage_1::iter;
use isolanguage_1::LanguageCode;

#[test]
fn iter_language_codes() {
    let mut codes = iter::Iter::default();
    assert_eq!(codes.next(), Some(LanguageCode::Ab));
    assert_eq!(codes.next(), Some(LanguageCode::Aa));
}

#[test]
fn iter_codes() {
    let mut codes = iter::Codes::default();
    assert_eq!(codes.next(), Some("ab"));
    assert_eq!(codes.next(), Some("aa"));

    let mut codes = iter::Iter::default().into_codes();
    assert_eq!(codes.next(), Some("ab"));
    assert_eq!(codes.next(), Some("aa"));
}

#[test]
fn iter_codes_t() {
    let mut codes_t = iter::CodesT::default();
    assert_eq!(codes_t.next(), Some("abk"));
    assert_eq!(codes_t.next(), Some("aar"));

    let mut codes_t = iter::Iter::default().into_codes_t();
    assert_eq!(codes_t.next(), Some("abk"));
    assert_eq!(codes_t.next(), Some("aar"));
}

#[test]
fn iter_codes_b() {
    let mut codes_b = iter::CodesB::default();
    assert_eq!(codes_b.next(), Some("abk"));
    assert_eq!(codes_b.next(), Some("aar"));

    let mut codes_b = iter::Iter::default().into_codes_b();
    assert_eq!(codes_b.next(), Some("abk"));
    assert_eq!(codes_b.next(), Some("aar"));
}

#[test]
fn iter_families() {
    let mut families = iter::Families::default();
    assert_eq!(families.next(), Some("Afro-Asiatic"));
    assert_eq!(families.next(), Some("Algonquian"));
}

#[test]
fn conversion_keeps_the_place() {
    let mut iter = iter::Iter::default();
    assert_eq!(iter.next(), Some(LanguageCode::Ab));
    let mut codes = iter.into_codes();
    assert_eq!(codes.next(), Some("aa"));

    let mut iter = iter::Iter::default();
    assert_eq!(iter.next(), Some(LanguageCode::Ab));
    assert_eq!(iter.next(), Some(LanguageCode::Aa));
    let mut codes = iter.into_codes_t();
    assert_eq!(codes.next(), Some("afr"));

    let mut iter = iter::Iter::default();
    assert_eq!(iter.next(), Some(LanguageCode::Ab));
    assert_eq!(iter.next(), Some(LanguageCode::Aa));
    assert_eq!(iter.next(), Some(LanguageCode::Af));
    let mut codes = iter.into_codes_b();
    assert_eq!(codes.next(), Some("aka"));
}

#[test]
fn every_cursor_gives_184_items_in_step() {
    let all: Vec<LanguageCode> = LanguageCode::iter().collect();
    let codes: Vec<&str> = LanguageCode::codes().collect();
    let codes_t: Vec<&str> = LanguageCode::codes_t().collect();
    let codes_b: Vec<&str> = LanguageCode::codes_b().collect();
    assert_eq!(all.len(), 184);
    assert_eq!(codes.len(), 184);
    assert_eq!(codes_t.len(), 184);
    assert_eq!(codes_b.len(), 184);
    for i in 0..184 {
        assert_eq!(codes[i], all[i].code());
        assert_eq!(codes_t[i], all[i].code_t());
        assert_eq!(codes_b[i], all[i].code_b());
    }
    assert_eq!(all[0], LanguageCode::Ab);
    assert_eq!(all[183], LanguageCode::Zu);
    assert_eq!(codes[29], "zh");
    assert_eq!(codes_t[29], "zho");
    assert_eq!(codes_b[29], "chi");
}

#[test]
fn cursors_are_independent() {
    let mut first = LanguageCode::iter();
    assert_eq!(first.next(), Some(LanguageCode::Ab));
    assert_eq!(first.next(), Some(LanguageCode::Aa));
    let mut second = LanguageCode::iter();
    assert_eq!(second.next(), Some(LanguageCode::Ab));
    assert_eq!(first.next(), Some(LanguageCode::Af));

    let mut copy = first.clone();
    assert_eq!(copy.next(), Some(LanguageCode::Ak));
    assert_eq!(copy.next(), Some(LanguageCode::Sq));
    assert_eq!(first.next(), Some(LanguageCode::Ak));

    let mut families = LanguageCode::families();
    assert_eq!(families.next(), Some("Afro-Asiatic"));
    let mut again = families.clone();
    assert_eq!(again.next(), Some("Algonquian"));
    assert_eq!(families.next(), Some("Algonquian"));

    let mut codes = LanguageCode::codes();
    assert_eq!(codes.next(), Some("ab"));
    let mut other = codes.clone();
    assert_eq!(other.next(), Some("aa"));
    assert_eq!(codes.next(), Some("aa"));
}

#[test]
fn cursor_ends_and_stays_ended() {
    let mut iter = LanguageCode::iter();
    let mut n = 0;
    while iter.next().is_some() {
        n += 1;
    }
    assert_eq!(n, 184);
    assert_eq!(iter.next(), None);
    assert_eq!(iter.next(), None);
    assert_eq!(iter.next_back(), None);
    assert_eq!(iter.len(), 0);

    let mut families = LanguageCode::families();
    assert_eq!(families.by_ref().count(), 26);
    assert_eq!(families.next(), None);
    assert_eq!(families.next_back(), None);
}

#[test]
fn lengths_and_hints() {
    let mut iter = LanguageCode::iter();
    assert_eq!(iter.len(), 184);
    assert_eq!(iter.size_hint(), (184, Some(184)));
    iter.next();
    iter.next_back();
    assert_eq!(iter.len(), 182);
    assert_eq!(iter.size_hint(), (182, Some(182)));
    assert_eq!(iter.count(), 182);

    let mut codes = LanguageCode::codes_t();
    assert_eq!(codes.len(), 184);
    codes.next();
    assert_eq!(codes.size_hint(), (183, Some(183)));
    assert_eq!(codes.count(), 183);

    assert_eq!(LanguageCode::codes().count(), 184);
    assert_eq!(LanguageCode::codes_b().count(), 184);

    let mut families = LanguageCode::families();
    assert_eq!(families.len(), 26);
    families.next();
    assert_eq!(families.size_hint(), (25, Some(25)));
    assert_eq!(families.count(), 25);
}

#[test]
fn from_the_back() {
    let mut iter = LanguageCode::iter();
    assert_eq!(iter.next_back(), Some(LanguageCode::Zu));
    assert_eq!(iter.next_back(), Some(LanguageCode::Za));
    assert_eq!(iter.next(), Some(LanguageCode::Ab));
    assert_eq!(iter.last(), Some(LanguageCode::Yo));

    let mut codes = LanguageCode::codes();
    assert_eq!(codes.next_back(), Some("zu"));
    assert_eq!(codes.next_back(), Some("za"));
    assert_eq!(LanguageCode::codes().last(), Some("zu"));

    let mut codes_t = LanguageCode::codes_t();
    assert_eq!(codes_t.next_back(), Some("zul"));
    assert_eq!(LanguageCode::codes_t().last(), Some("zul"));

    let mut codes_b = LanguageCode::codes_b();
    assert_eq!(codes_b.next_back(), Some("zul"));
    assert_eq!(codes_b.next_back(), Some("zha"));
    assert_eq!(LanguageCode::codes_b().last(), Some("zul"));

    let mut families = LanguageCode::families();
    assert_eq!(families.next_back(), Some("Uralic"));
    assert_eq!(families.next_back(), Some("Turkic"));
    assert_eq!(LanguageCode::families().last(), Some("Uralic"));

    let reversed: Vec<&str> = LanguageCode::families().rev().take(3).collect();
    assert_eq!(reversed, vec!["Uralic", "Turkic", "Tupian"]);
    assert_eq!(LanguageCode::iter().rev().next(), Some(LanguageCode::Zu));

    let mut done = LanguageCode::families();
    assert_eq!(done.by_ref().count(), 26);
    assert_eq!(done.last(), None);
}

#[test]
fn skipping() {
    let mut iter = LanguageCode::iter();
    assert_eq!(iter.nth(0), Some(LanguageCode::Ab));
    assert_eq!(iter.nth(2), Some(LanguageCode::Ak));
    assert_eq!(iter.next(), Some(LanguageCode::Sq));
    assert_eq!(iter.nth_back(0), Some(LanguageCode::Zu));
    assert_eq!(iter.nth_back(1), Some(LanguageCode::Yo));
    assert_eq!(iter.len(), 176);
    assert_eq!(iter.nth(176), None);
    assert_eq!(iter.len(), 0);
    assert_eq!(iter.next(), None);

    let mut iter = LanguageCode::iter();
    assert_eq!(iter.nth(183), Some(LanguageCode::Zu));
    assert_eq!(iter.next(), None);
    let mut iter = LanguageCode::iter();
    assert_eq!(iter.nth(usize::MAX), None);
    assert_eq!(iter.next(), None);
    let mut iter = LanguageCode::iter();
    assert_eq!(iter.nth_back(183), Some(LanguageCode::Ab));
    assert_eq!(iter.next_back(), None);
    let mut iter = LanguageCode::iter();
    assert_eq!(iter.nth_back(184), None);
    assert_eq!(iter.next(), None);

    let mut codes = LanguageCode::codes();
    assert_eq!(codes.nth(29), Some("zh"));
    assert_eq!(codes.next(), Some("cv"));
    assert_eq!(codes.nth_back(1), Some("za"));
    assert_eq!(codes.nth(500), None);
    assert_eq!(codes.next_back(), None);

    let mut codes_t = LanguageCode::codes_t();
    assert_eq!(codes_t.nth(51), Some("deu"));
    assert_eq!(codes_t.nth_back(183), None);
    assert_eq!(codes_t.next(), None);

    let mut codes_b = LanguageCode::codes_b();
    assert_eq!(codes_b.nth(51), Some("ger"));
    assert_eq!(codes_b.nth_back(0), Some("zul"));

    let mut families = LanguageCode::families();
    assert_eq!(families.nth(6), Some("Creole"));
    assert_eq!(families.nth_back(24), None);
    assert_eq!(families.next(), None);
    let mut families = LanguageCode::families();
    assert_eq!(families.nth_back(25), Some("Afro-Asiatic"));
    assert_eq!(families.next(), None);
    let mut families = LanguageCode::families();
    assert_eq!(families.nth(26), None);
    assert_eq!(families.next_back(), None);
}

#[test]
fn factories_start_afresh() {
    let mut codes = LanguageCode::codes();
    assert_eq!(codes.next(), Some("ab"));
    assert_eq!(LanguageCode::codes().next(), Some("ab"));
    assert_eq!(LanguageCode::codes_t().next(), Some("abk"));
    assert_eq!(LanguageCode::codes_b().next(), Some("abk"));
    assert_eq!(LanguageCode::iter().next(), Some(LanguageCode::Ab));
    assert_eq!(LanguageCode::families().next(), Some("Afro-Asiatic"));
    assert!(LanguageCode::iter().any(|code| code == LanguageCode::Wo));
    assert!(LanguageCode::codes().any(|code| code == "en"));
    assert!(LanguageCode::codes_t().any(|code| code == "ave"));
    assert!(LanguageCode::codes_b().any(|code| code == "chi"));
    assert!(LanguageCode::families().any(|family| family == "Algonquian"));
}
