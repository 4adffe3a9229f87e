//! The language families and the order they are listed in.

use crate::language::{LanguageCode, LANGUAGES};
use vstd::prelude::*;

verus! {

/// How many language families there are.
pub const FAMILY_COUNT: usize = 26;

/// Every language family, in alphabetical order.
pub const FAMILIES: [&'static str; 26] = [
    "Afro-Asiatic",
    "Algonquian",
    "Austroasiatic",
    "Austronesian",
    "Aymaran",
    "Constructed",
    "Creole",
    "Dené–Yeniseian",
    "Dravidian",
    "Eskimo–Aleut",
    "Indo-European",
    "Japonic",
    "Kartvelian",
    "Koreanic",
    "Language isolate",
    "Mongolic",
    "Niger–Congo",
    "Nilo-Saharan",
    "Northeast Caucasian",
    "Northwest Caucasian",
    "Quechuan",
    "Sino-Tibetan",
    "Tai–Kadai",
    "Tupian",
    "Turkic",
    "Uralic",
];

/// The names of the families as sequences of characters, in the order of
/// [`FAMILIES`].
pub open spec fn family_names() -> Seq<Seq<char>> {
    Seq::new(26, |i: int| FAMILIES@[i]@)
}

/// The two sequences agree on their first `k` characters, and `a` ends there
/// or goes on with a character of a smaller code point than `b` does.
pub open spec fn precedes_at(a: Seq<char>, b: Seq<char>, k: int) -> bool {
    &&& 0 <= k <= a.len()
    &&& k <= b.len()
    &&& a.subrange(0, k) == b.subrange(0, k)
    &&& if k == a.len() {
        k < b.len()
    } else {
        k < b.len() && a[k] < b[k]
    }
}

/// Alphabetical order: `a` comes strictly before `b` when the two are
/// compared character by character, a proper prefix coming first.
pub open spec fn precedes(a: Seq<char>, b: Seq<char>) -> bool {
    exists|k: int| precedes_at(a, b, k)
}

/// Nothing comes before itself.
pub proof fn lemma_precedes_irreflexive(a: Seq<char>)
    ensures
        !precedes(a, a),
{
}

/// What comes before something that comes before a third comes before the
/// third.
pub proof fn lemma_precedes_transitive(a: Seq<char>, b: Seq<char>, c: Seq<char>)
    requires
        precedes(a, b),
        precedes(b, c),
    ensures
        precedes(a, c),
{
    let j = choose|k: int| precedes_at(a, b, k);
    let k = choose|k: int| precedes_at(b, c, k);
    let m = if j <= k { j } else { k };
    assert(a.subrange(0, m) =~= c.subrange(0, m)) by {
        assert forall|i: int| 0 <= i < m implies a[i] == c[i] by {
            assert(a[i] == a.subrange(0, j)[i]);
            assert(b[i] == b.subrange(0, j)[i]);
            assert(b[i] == b.subrange(0, k)[i]);
            assert(c[i] == c.subrange(0, k)[i]);
        }
    }
    if j < k {
        assert(b[j] == b.subrange(0, k)[j]);
        assert(c[j] == c.subrange(0, k)[j]);
    } else if k < j {
        assert(a[k] == a.subrange(0, j)[k]);
        assert(b[k] == b.subrange(0, j)[k]);
    }
    assert(precedes_at(a, c, m));
}

/// Each family comes before the one listed after it.
proof fn lemma_neighbours_sorted(i: int)
    requires
        0 <= i < 25,
    ensures
        precedes(family_names()[i], family_names()[i + 1]),
{
    if i == 0 {
        reveal_strlit("Afro-Asiatic");
        reveal_strlit("Algonquian");
        assert("Afro-Asiatic"@.subrange(0, 1) =~= "Algonquian"@.subrange(0, 1));
        assert(precedes_at("Afro-Asiatic"@, "Algonquian"@, 1));
    } else if i == 1 {
        reveal_strlit("Algonquian");
        reveal_strlit("Austroasiatic");
        assert("Algonquian"@.subrange(0, 1) =~= "Austroasiatic"@.subrange(0, 1));
        assert(precedes_at("Algonquian"@, "Austroasiatic"@, 1));
    } else if i == 2 {
        reveal_strlit("Austroasiatic");
        reveal_strlit("Austronesian");
        assert("Austroasiatic"@.subrange(0, 6) =~= "Austronesian"@.subrange(0, 6));
        assert(precedes_at("Austroasiatic"@, "Austronesian"@, 6));
    } else if i == 3 {
        reveal_strlit("Austronesian");
        reveal_strlit("Aymaran");
        assert("Austronesian"@.subrange(0, 1) =~= "Aymaran"@.subrange(0, 1));
        assert(precedes_at("Austronesian"@, "Aymaran"@, 1));
    } else if i == 4 {
        reveal_strlit("Aymaran");
        reveal_strlit("Constructed");
        assert("Aymaran"@.subrange(0, 0) =~= "Constructed"@.subrange(0, 0));
        assert(precedes_at("Aymaran"@, "Constructed"@, 0));
    } else if i == 5 {
        reveal_strlit("Constructed");
        reveal_strlit("Creole");
        assert("Constructed"@.subrange(0, 1) =~= "Creole"@.subrange(0, 1));
        assert(precedes_at("Constructed"@, "Creole"@, 1));
    } else if i == 6 {
        reveal_strlit("Creole");
        reveal_strlit("Dené–Yeniseian");
        assert("Creole"@.subrange(0, 0) =~= "Dené–Yeniseian"@.subrange(0, 0));
        assert(precedes_at("Creole"@, "Dené–Yeniseian"@, 0));
    } else if i == 7 {
        reveal_strlit("Dené–Yeniseian");
        reveal_strlit("Dravidian");
        assert("Dené–Yeniseian"@.subrange(0, 1) =~= "Dravidian"@.subrange(0, 1));
        assert(precedes_at("Dené–Yeniseian"@, "Dravidian"@, 1));
    } else if i == 8 {
        reveal_strlit("Dravidian");
        reveal_strlit("Eskimo–Aleut");
        assert("Dravidian"@.subrange(0, 0) =~= "Eskimo–Aleut"@.subrange(0, 0));
        assert(precedes_at("Dravidian"@, "Eskimo–Aleut"@, 0));
    } else if i == 9 {
        reveal_strlit("Eskimo–Aleut");
        reveal_strlit("Indo-European");
        assert("Eskimo–Aleut"@.subrange(0, 0) =~= "Indo-European"@.subrange(0, 0));
        assert(precedes_at("Eskimo–Aleut"@, "Indo-European"@, 0));
    } else if i == 10 {
        reveal_strlit("Indo-European");
        reveal_strlit("Japonic");
        assert("Indo-European"@.subrange(0, 0) =~= "Japonic"@.subrange(0, 0));
        assert(precedes_at("Indo-European"@, "Japonic"@, 0));
    } else if i == 11 {
        reveal_strlit("Japonic");
        reveal_strlit("Kartvelian");
        assert("Japonic"@.subrange(0, 0) =~= "Kartvelian"@.subrange(0, 0));
        assert(precedes_at("Japonic"@, "Kartvelian"@, 0));
    } else if i == 12 {
        reveal_strlit("Kartvelian");
        reveal_strlit("Koreanic");
        assert("Kartvelian"@.subrange(0, 1) =~= "Koreanic"@.subrange(0, 1));
        assert(precedes_at("Kartvelian"@, "Koreanic"@, 1));
    } else if i == 13 {
        reveal_strlit("Koreanic");
        reveal_strlit("Language isolate");
        assert("Koreanic"@.subrange(0, 0) =~= "Language isolate"@.subrange(0, 0));
        assert(precedes_at("Koreanic"@, "Language isolate"@, 0));
    } else if i == 14 {
        reveal_strlit("Language isolate");
        reveal_strlit("Mongolic");
        assert("Language isolate"@.subrange(0, 0) =~= "Mongolic"@.subrange(0, 0));
        assert(precedes_at("Language isolate"@, "Mongolic"@, 0));
    } else if i == 15 {
        reveal_strlit("Mongolic");
        reveal_strlit("Niger–Congo");
        assert("Mongolic"@.subrange(0, 0) =~= "Niger–Congo"@.subrange(0, 0));
        assert(precedes_at("Mongolic"@, "Niger–Congo"@, 0));
    } else if i == 16 {
        reveal_strlit("Niger–Congo");
        reveal_strlit("Nilo-Saharan");
        assert("Niger–Congo"@.subrange(0, 2) =~= "Nilo-Saharan"@.subrange(0, 2));
        assert(precedes_at("Niger–Congo"@, "Nilo-Saharan"@, 2));
    } else if i == 17 {
        reveal_strlit("Nilo-Saharan");
        reveal_strlit("Northeast Caucasian");
        assert("Nilo-Saharan"@.subrange(0, 1) =~= "Northeast Caucasian"@.subrange(0, 1));
        assert(precedes_at("Nilo-Saharan"@, "Northeast Caucasian"@, 1));
    } else if i == 18 {
        reveal_strlit("Northeast Caucasian");
        reveal_strlit("Northwest Caucasian");
        assert("Northeast Caucasian"@.subrange(0, 5) =~= "Northwest Caucasian"@.subrange(0, 5));
        assert(precedes_at("Northeast Caucasian"@, "Northwest Caucasian"@, 5));
    } else if i == 19 {
        reveal_strlit("Northwest Caucasian");
        reveal_strlit("Quechuan");
        assert("Northwest Caucasian"@.subrange(0, 0) =~= "Quechuan"@.subrange(0, 0));
        assert(precedes_at("Northwest Caucasian"@, "Quechuan"@, 0));
    } else if i == 20 {
        reveal_strlit("Quechuan");
        reveal_strlit("Sino-Tibetan");
        assert("Quechuan"@.subrange(0, 0) =~= "Sino-Tibetan"@.subrange(0, 0));
        assert(precedes_at("Quechuan"@, "Sino-Tibetan"@, 0));
    } else if i == 21 {
        reveal_strlit("Sino-Tibetan");
        reveal_strlit("Tai–Kadai");
        assert("Sino-Tibetan"@.subrange(0, 0) =~= "Tai–Kadai"@.subrange(0, 0));
        assert(precedes_at("Sino-Tibetan"@, "Tai–Kadai"@, 0));
    } else if i == 22 {
        reveal_strlit("Tai–Kadai");
        reveal_strlit("Tupian");
        assert("Tai–Kadai"@.subrange(0, 1) =~= "Tupian"@.subrange(0, 1));
        assert(precedes_at("Tai–Kadai"@, "Tupian"@, 1));
    } else if i == 23 {
        reveal_strlit("Tupian");
        reveal_strlit("Turkic");
        assert("Tupian"@.subrange(0, 2) =~= "Turkic"@.subrange(0, 2));
        assert(precedes_at("Tupian"@, "Turkic"@, 2));
    } else if i == 24 {
        reveal_strlit("Turkic");
        reveal_strlit("Uralic");
        assert("Turkic"@.subrange(0, 0) =~= "Uralic"@.subrange(0, 0));
        assert(precedes_at("Turkic"@, "Uralic"@, 0));
    }
}

/// The families are listed in alphabetical order.
pub proof fn lemma_families_sorted(i: int, j: int)
    requires
        0 <= i < j < 26,
    ensures
        precedes(family_names()[i], family_names()[j]),
    decreases j - i,
{
    lemma_neighbours_sorted(j - 1);
    if i < j - 1 {
        lemma_families_sorted(i, j - 1);
        lemma_precedes_transitive(
            family_names()[i],
            family_names()[j - 1],
            family_names()[j],
        );
    }
}

/// No family is listed twice.
pub proof fn lemma_families_distinct(i: int, j: int)
    requires
        0 <= i < 26,
        0 <= j < 26,
        i != j,
    ensures
        family_names()[i] != family_names()[j],
{
    if i < j {
        lemma_families_sorted(i, j);
        lemma_precedes_irreflexive(family_names()[i]);
    } else {
        lemma_families_sorted(j, i);
        lemma_precedes_irreflexive(family_names()[j]);
    }
}

/// There are exactly 26 families.
pub proof fn lemma_family_count()
    ensures
        family_names().len() == 26,
        family_names().no_duplicates(),
        family_names().to_set().len() == 26,
{
    assert forall|i: int, j: int|
        0 <= i < family_names().len() && 0 <= j < family_names().len() && i != j
        implies family_names()[i] != family_names()[j] by {
        lemma_families_distinct(i, j);
    }
    family_names().unique_seq_to_set();
}

impl LanguageCode {
    /// The place of the language's family in [`FAMILIES`].
    pub open spec fn family_position(self) -> int {
        match self {
            LanguageCode::Ab => 19,
            LanguageCode::Aa => 0,
            LanguageCode::Af => 10,
            LanguageCode::Ak => 16,
            LanguageCode::Sq => 10,
            LanguageCode::Am => 0,
            LanguageCode::Ar => 0,
            LanguageCode::An => 10,
            LanguageCode::Hy => 10,
            LanguageCode::As => 10,
            LanguageCode::Av => 18,
            LanguageCode::Ae => 10,
            LanguageCode::Ay => 4,
            LanguageCode::Az => 24,
            LanguageCode::Bm => 16,
            LanguageCode::Ba => 24,
            LanguageCode::Eu => 14,
            LanguageCode::Be => 10,
            LanguageCode::Bn => 10,
            LanguageCode::Bh => 10,
            LanguageCode::Bi => 6,
            LanguageCode::Bs => 10,
            LanguageCode::Br => 10,
            LanguageCode::Bg => 10,
            LanguageCode::My => 21,
            LanguageCode::Ca => 10,
            LanguageCode::Ch => 3,
            LanguageCode::Ce => 18,
            LanguageCode::Ny => 16,
            LanguageCode::Zh => 21,
            LanguageCode::Cv => 24,
            LanguageCode::Kw => 10,
            LanguageCode::Co => 10,
            LanguageCode::Cr => 1,
            LanguageCode::Hr => 10,
            LanguageCode::Cs => 10,
            LanguageCode::Da => 10,
            LanguageCode::Dv => 10,
            LanguageCode::Nl => 10,
            LanguageCode::Dz => 21,
            LanguageCode::En => 10,
            LanguageCode::Eo => 5,
            LanguageCode::Et => 25,
            LanguageCode::Ee => 16,
            LanguageCode::Fo => 10,
            LanguageCode::Fj => 3,
            LanguageCode::Fi => 25,
            LanguageCode::Fr => 10,
            LanguageCode::Ff => 16,
            LanguageCode::Gl => 10,
            LanguageCode::Ka => 12,
            LanguageCode::De => 10,
            LanguageCode::El => 10,
            LanguageCode::Gn => 23,
            LanguageCode::Gu => 10,
            LanguageCode::Ht => 6,
            LanguageCode::Ha => 0,
            LanguageCode::He => 0,
            LanguageCode::Hz => 16,
            LanguageCode::Hi => 10,
            LanguageCode::Ho => 3,
            LanguageCode::Hu => 25,
            LanguageCode::Ia => 5,
            LanguageCode::Id => 3,
            LanguageCode::Ie => 5,
            LanguageCode::Ga => 10,
            LanguageCode::Ig => 16,
            LanguageCode::Ik => 9,
            LanguageCode::Io => 5,
            LanguageCode::Is => 10,
            LanguageCode::It => 10,
            LanguageCode::Iu => 9,
            LanguageCode::Ja => 11,
            LanguageCode::Jv => 3,
            LanguageCode::Kl => 9,
            LanguageCode::Kn => 8,
            LanguageCode::Kr => 17,
            LanguageCode::Ks => 10,
            LanguageCode::Kk => 24,
            LanguageCode::Km => 2,
            LanguageCode::Ki => 16,
            LanguageCode::Rw => 16,
            LanguageCode::Ky => 24,
            LanguageCode::Kv => 25,
            LanguageCode::Kg => 16,
            LanguageCode::Ko => 13,
            LanguageCode::Ku => 10,
            LanguageCode::Kj => 16,
            LanguageCode::La => 10,
            LanguageCode::Lb => 10,
            LanguageCode::Lg => 16,
            LanguageCode::Li => 10,
            LanguageCode::Ln => 16,
            LanguageCode::Lo => 22,
            LanguageCode::Lt => 10,
            LanguageCode::Lu => 16,
            LanguageCode::Lv => 10,
            LanguageCode::Gv => 10,
            LanguageCode::Mk => 10,
            LanguageCode::Mg => 3,
            LanguageCode::Ms => 3,
            LanguageCode::Ml => 8,
            LanguageCode::Mt => 0,
            LanguageCode::Mi => 3,
            LanguageCode::Mr => 10,
            LanguageCode::Mh => 3,
            LanguageCode::Mn => 15,
            LanguageCode::Na => 3,
            LanguageCode::Nv => 7,
            LanguageCode::Nd => 16,
            LanguageCode::Ne => 10,
            LanguageCode::Ng => 16,
            LanguageCode::Nb => 10,
            LanguageCode::Nn => 10,
            LanguageCode::No => 10,
            LanguageCode::Ii => 21,
            LanguageCode::Nr => 16,
            LanguageCode::Oc => 10,
            LanguageCode::Oj => 1,
            LanguageCode::Cu => 10,
            LanguageCode::Om => 0,
            LanguageCode::Or => 10,
            LanguageCode::Os => 10,
            LanguageCode::Pa => 10,
            LanguageCode::Pi => 10,
            LanguageCode::Fa => 10,
            LanguageCode::Pl => 10,
            LanguageCode::Ps => 10,
            LanguageCode::Pt => 10,
            LanguageCode::Qu => 20,
            LanguageCode::Rm => 10,
            LanguageCode::Rn => 16,
            LanguageCode::Ro => 10,
            LanguageCode::Ru => 10,
            LanguageCode::Sa => 10,
            LanguageCode::Sc => 10,
            LanguageCode::Sd => 10,
            LanguageCode::Se => 25,
            LanguageCode::Sm => 3,
            LanguageCode::Sg => 6,
            LanguageCode::Sr => 10,
            LanguageCode::Gd => 10,
            LanguageCode::Sn => 16,
            LanguageCode::Si => 10,
            LanguageCode::Sk => 10,
            LanguageCode::Sl => 10,
            LanguageCode::So => 0,
            LanguageCode::St => 16,
            LanguageCode::Es => 10,
            LanguageCode::Su => 3,
            LanguageCode::Sw => 16,
            LanguageCode::Ss => 16,
            LanguageCode::Sv => 10,
            LanguageCode::Ta => 8,
            LanguageCode::Te => 8,
            LanguageCode::Tg => 10,
            LanguageCode::Th => 22,
            LanguageCode::Ti => 0,
            LanguageCode::Bo => 21,
            LanguageCode::Tk => 24,
            LanguageCode::Tl => 3,
            LanguageCode::Tn => 16,
            LanguageCode::To => 3,
            LanguageCode::Tr => 24,
            LanguageCode::Ts => 16,
            LanguageCode::Tt => 24,
            LanguageCode::Tw => 16,
            LanguageCode::Ty => 3,
            LanguageCode::Ug => 24,
            LanguageCode::Uk => 10,
            LanguageCode::Ur => 10,
            LanguageCode::Uz => 24,
            LanguageCode::Ve => 16,
            LanguageCode::Vi => 2,
            LanguageCode::Vo => 5,
            LanguageCode::Wa => 10,
            LanguageCode::Cy => 10,
            LanguageCode::Wo => 16,
            LanguageCode::Fy => 10,
            LanguageCode::Xh => 16,
            LanguageCode::Yi => 10,
            LanguageCode::Yo => 16,
            LanguageCode::Za => 22,
            LanguageCode::Zu => 16,
        }
    }
}

/// The family of every language is one of the 26 families.
pub proof fn lemma_family_listed(c: LanguageCode)
    ensures
        0 <= c.family_position() < 26,
        family_names()[c.family_position()] == c.family_spec(),
        family_names().contains(c.family_spec()),
{
    let i = c.family_position();
    assert(FAMILIES@[i] == LANGUAGES@[c.position()].5);
    assert(family_names()[i] == c.family_spec());
}

/// Every family has a language that belongs to it.
pub proof fn lemma_family_used(i: int) -> (c: LanguageCode)
    requires
        0 <= i < 26,
    ensures
        c.family_spec() == family_names()[i],
{
    if i == 0 {
        LanguageCode::Aa
    } else if i == 1 {
        LanguageCode::Cr
    } else if i == 2 {
        LanguageCode::Km
    } else if i == 3 {
        LanguageCode::Ch
    } else if i == 4 {
        LanguageCode::Ay
    } else if i == 5 {
        LanguageCode::Eo
    } else if i == 6 {
        LanguageCode::Bi
    } else if i == 7 {
        LanguageCode::Nv
    } else if i == 8 {
        LanguageCode::Kn
    } else if i == 9 {
        LanguageCode::Ik
    } else if i == 10 {
        LanguageCode::Af
    } else if i == 11 {
        LanguageCode::Ja
    } else if i == 12 {
        LanguageCode::Ka
    } else if i == 13 {
        LanguageCode::Ko
    } else if i == 14 {
        LanguageCode::Eu
    } else if i == 15 {
        LanguageCode::Mn
    } else if i == 16 {
        LanguageCode::Ak
    } else if i == 17 {
        LanguageCode::Kr
    } else if i == 18 {
        LanguageCode::Av
    } else if i == 19 {
        LanguageCode::Ab
    } else if i == 20 {
        LanguageCode::Qu
    } else if i == 21 {
        LanguageCode::My
    } else if i == 22 {
        LanguageCode::Lo
    } else if i == 23 {
        LanguageCode::Gn
    } else if i == 24 {
        LanguageCode::Az
    } else {
        LanguageCode::Et
    }
}

} // verus!
