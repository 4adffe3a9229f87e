//! Reading a language from its two-letter code.

use crate::language::{is_lower_letter, LanguageCode};
use vstd::prelude::*;
use vstd::string::StringExecFns;

verus! {

/// The error of reading a language from a string that is no two-letter
/// language code.
#[derive(Debug, Clone)]
pub struct ParseError {
    /// The string that could not be read.
    pub language: String,
}

impl ParseError {
    /// Returns the message of the error: the rejected string, then what it
    /// was expected to be.
    #[must_use]
    pub fn to_string(&self) -> (s: String)
        ensures
            s@ == self.language@ + " is not a valid ISO 639-1 2 letter language code"@,
    {
        self.language.clone().concat(" is not a valid ISO 639-1 2 letter language code")
    }
}

impl LanguageCode {
    /// The language whose two-letter code is `s`, if there is one.
    pub open spec fn parse_spec(s: Seq<char>) -> Option<LanguageCode> {
        if exists|c: LanguageCode| c.code_spec() == s {
            Some(choose|c: LanguageCode| c.code_spec() == s)
        } else {
            None
        }
    }

    /// Reads a language from its two-letter ISO 639-1 code. The string has to
    /// be the code exactly: nothing is trimmed and no case is folded. Any
    /// other string comes back in the error.
    pub fn parse(s: &str) -> (r: Result<LanguageCode, ParseError>)
        ensures
            match r {
                Ok(c) => c.code_spec() == s@ && Self::parse_spec(s@) == Some(c),
                Err(e) => e.language@ == s@ && Self::parse_spec(s@) is None,
            },
    {
        if s.unicode_len() == 2 {
            let found = Self::from_letters(s.get_char(0), s.get_char(1));
            assert(s@ =~= seq![s@[0], s@[1]]);
            match found {
                Some(c) => {
                    proof {
                        lemma_parse_code(c);
                    }
                    Ok(c)
                },
                None => Err(ParseError { language: s.to_owned() }),
            }
        } else {
            proof {
                lemma_parse_exact(s@);
            }
            Err(ParseError { language: s.to_owned() })
        }
    }

    /// The language whose code is the two given letters, if there is one.
    fn from_letters(first: char, second: char) -> (r: Option<LanguageCode>)
        ensures
            match r {
                Some(c) => c.code_spec() == seq![first, second],
                None => forall|c: LanguageCode| c.code_spec() != seq![first, second],
            },
    {
        let r = match (first, second) {
            ('a', 'b') => Some(LanguageCode::Ab),
            ('a', 'a') => Some(LanguageCode::Aa),
            ('a', 'f') => Some(LanguageCode::Af),
            ('a', 'k') => Some(LanguageCode::Ak),
            ('s', 'q') => Some(LanguageCode::Sq),
            ('a', 'm') => Some(LanguageCode::Am),
            ('a', 'r') => Some(LanguageCode::Ar),
            ('a', 'n') => Some(LanguageCode::An),
            ('h', 'y') => Some(LanguageCode::Hy),
            ('a', 's') => Some(LanguageCode::As),
            ('a', 'v') => Some(LanguageCode::Av),
            ('a', 'e') => Some(LanguageCode::Ae),
            ('a', 'y') => Some(LanguageCode::Ay),
            ('a', 'z') => Some(LanguageCode::Az),
            ('b', 'm') => Some(LanguageCode::Bm),
            ('b', 'a') => Some(LanguageCode::Ba),
            ('e', 'u') => Some(LanguageCode::Eu),
            ('b', 'e') => Some(LanguageCode::Be),
            ('b', 'n') => Some(LanguageCode::Bn),
            ('b', 'h') => Some(LanguageCode::Bh),
            ('b', 'i') => Some(LanguageCode::Bi),
            ('b', 's') => Some(LanguageCode::Bs),
            ('b', 'r') => Some(LanguageCode::Br),
            ('b', 'g') => Some(LanguageCode::Bg),
            ('m', 'y') => Some(LanguageCode::My),
            ('c', 'a') => Some(LanguageCode::Ca),
            ('c', 'h') => Some(LanguageCode::Ch),
            ('c', 'e') => Some(LanguageCode::Ce),
            ('n', 'y') => Some(LanguageCode::Ny),
            ('z', 'h') => Some(LanguageCode::Zh),
            ('c', 'v') => Some(LanguageCode::Cv),
            ('k', 'w') => Some(LanguageCode::Kw),
            ('c', 'o') => Some(LanguageCode::Co),
            ('c', 'r') => Some(LanguageCode::Cr),
            ('h', 'r') => Some(LanguageCode::Hr),
            ('c', 's') => Some(LanguageCode::Cs),
            ('d', 'a') => Some(LanguageCode::Da),
            ('d', 'v') => Some(LanguageCode::Dv),
            ('n', 'l') => Some(LanguageCode::Nl),
            ('d', 'z') => Some(LanguageCode::Dz),
            ('e', 'n') => Some(LanguageCode::En),
            ('e', 'o') => Some(LanguageCode::Eo),
            ('e', 't') => Some(LanguageCode::Et),
            ('e', 'e') => Some(LanguageCode::Ee),
            ('f', 'o') => Some(LanguageCode::Fo),
            ('f', 'j') => Some(LanguageCode::Fj),
            ('f', 'i') => Some(LanguageCode::Fi),
            ('f', 'r') => Some(LanguageCode::Fr),
            ('f', 'f') => Some(LanguageCode::Ff),
            ('g', 'l') => Some(LanguageCode::Gl),
            ('k', 'a') => Some(LanguageCode::Ka),
            ('d', 'e') => Some(LanguageCode::De),
            ('e', 'l') => Some(LanguageCode::El),
            ('g', 'n') => Some(LanguageCode::Gn),
            ('g', 'u') => Some(LanguageCode::Gu),
            ('h', 't') => Some(LanguageCode::Ht),
            ('h', 'a') => Some(LanguageCode::Ha),
            ('h', 'e') => Some(LanguageCode::He),
            ('h', 'z') => Some(LanguageCode::Hz),
            ('h', 'i') => Some(LanguageCode::Hi),
            ('h', 'o') => Some(LanguageCode::Ho),
            ('h', 'u') => Some(LanguageCode::Hu),
            ('i', 'a') => Some(LanguageCode::Ia),
            ('i', 'd') => Some(LanguageCode::Id),
            ('i', 'e') => Some(LanguageCode::Ie),
            ('g', 'a') => Some(LanguageCode::Ga),
            ('i', 'g') => Some(LanguageCode::Ig),
            ('i', 'k') => Some(LanguageCode::Ik),
            ('i', 'o') => Some(LanguageCode::Io),
            ('i', 's') => Some(LanguageCode::Is),
            ('i', 't') => Some(LanguageCode::It),
            ('i', 'u') => Some(LanguageCode::Iu),
            ('j', 'a') => Some(LanguageCode::Ja),
            ('j', 'v') => Some(LanguageCode::Jv),
            ('k', 'l') => Some(LanguageCode::Kl),
            ('k', 'n') => Some(LanguageCode::Kn),
            ('k', 'r') => Some(LanguageCode::Kr),
            ('k', 's') => Some(LanguageCode::Ks),
            ('k', 'k') => Some(LanguageCode::Kk),
            ('k', 'm') => Some(LanguageCode::Km),
            ('k', 'i') => Some(LanguageCode::Ki),
            ('r', 'w') => Some(LanguageCode::Rw),
            ('k', 'y') => Some(LanguageCode::Ky),
            ('k', 'v') => Some(LanguageCode::Kv),
            ('k', 'g') => Some(LanguageCode::Kg),
            ('k', 'o') => Some(LanguageCode::Ko),
            ('k', 'u') => Some(LanguageCode::Ku),
            ('k', 'j') => Some(LanguageCode::Kj),
            ('l', 'a') => Some(LanguageCode::La),
            ('l', 'b') => Some(LanguageCode::Lb),
            ('l', 'g') => Some(LanguageCode::Lg),
            ('l', 'i') => Some(LanguageCode::Li),
            ('l', 'n') => Some(LanguageCode::Ln),
            ('l', 'o') => Some(LanguageCode::Lo),
            ('l', 't') => Some(LanguageCode::Lt),
            ('l', 'u') => Some(LanguageCode::Lu),
            ('l', 'v') => Some(LanguageCode::Lv),
            ('g', 'v') => Some(LanguageCode::Gv),
            ('m', 'k') => Some(LanguageCode::Mk),
            ('m', 'g') => Some(LanguageCode::Mg),
            ('m', 's') => Some(LanguageCode::Ms),
            ('m', 'l') => Some(LanguageCode::Ml),
            ('m', 't') => Some(LanguageCode::Mt),
            ('m', 'i') => Some(LanguageCode::Mi),
            ('m', 'r') => Some(LanguageCode::Mr),
            ('m', 'h') => Some(LanguageCode::Mh),
            ('m', 'n') => Some(LanguageCode::Mn),
            ('n', 'a') => Some(LanguageCode::Na),
            ('n', 'v') => Some(LanguageCode::Nv),
            ('n', 'd') => Some(LanguageCode::Nd),
            ('n', 'e') => Some(LanguageCode::Ne),
            ('n', 'g') => Some(LanguageCode::Ng),
            ('n', 'b') => Some(LanguageCode::Nb),
            ('n', 'n') => Some(LanguageCode::Nn),
            ('n', 'o') => Some(LanguageCode::No),
            ('i', 'i') => Some(LanguageCode::Ii),
            ('n', 'r') => Some(LanguageCode::Nr),
            ('o', 'c') => Some(LanguageCode::Oc),
            ('o', 'j') => Some(LanguageCode::Oj),
            ('c', 'u') => Some(LanguageCode::Cu),
            ('o', 'm') => Some(LanguageCode::Om),
            ('o', 'r') => Some(LanguageCode::Or),
            ('o', 's') => Some(LanguageCode::Os),
            ('p', 'a') => Some(LanguageCode::Pa),
            ('p', 'i') => Some(LanguageCode::Pi),
            ('f', 'a') => Some(LanguageCode::Fa),
            ('p', 'l') => Some(LanguageCode::Pl),
            ('p', 's') => Some(LanguageCode::Ps),
            ('p', 't') => Some(LanguageCode::Pt),
            ('q', 'u') => Some(LanguageCode::Qu),
            ('r', 'm') => Some(LanguageCode::Rm),
            ('r', 'n') => Some(LanguageCode::Rn),
            ('r', 'o') => Some(LanguageCode::Ro),
            ('r', 'u') => Some(LanguageCode::Ru),
            ('s', 'a') => Some(LanguageCode::Sa),
            ('s', 'c') => Some(LanguageCode::Sc),
            ('s', 'd') => Some(LanguageCode::Sd),
            ('s', 'e') => Some(LanguageCode::Se),
            ('s', 'm') => Some(LanguageCode::Sm),
            ('s', 'g') => Some(LanguageCode::Sg),
            ('s', 'r') => Some(LanguageCode::Sr),
            ('g', 'd') => Some(LanguageCode::Gd),
            ('s', 'n') => Some(LanguageCode::Sn),
            ('s', 'i') => Some(LanguageCode::Si),
            ('s', 'k') => Some(LanguageCode::Sk),
            ('s', 'l') => Some(LanguageCode::Sl),
            ('s', 'o') => Some(LanguageCode::So),
            ('s', 't') => Some(LanguageCode::St),
            ('e', 's') => Some(LanguageCode::Es),
            ('s', 'u') => Some(LanguageCode::Su),
            ('s', 'w') => Some(LanguageCode::Sw),
            ('s', 's') => Some(LanguageCode::Ss),
            ('s', 'v') => Some(LanguageCode::Sv),
            ('t', 'a') => Some(LanguageCode::Ta),
            ('t', 'e') => Some(LanguageCode::Te),
            ('t', 'g') => Some(LanguageCode::Tg),
            ('t', 'h') => Some(LanguageCode::Th),
            ('t', 'i') => Some(LanguageCode::Ti),
            ('b', 'o') => Some(LanguageCode::Bo),
            ('t', 'k') => Some(LanguageCode::Tk),
            ('t', 'l') => Some(LanguageCode::Tl),
            ('t', 'n') => Some(LanguageCode::Tn),
            ('t', 'o') => Some(LanguageCode::To),
            ('t', 'r') => Some(LanguageCode::Tr),
            ('t', 's') => Some(LanguageCode::Ts),
            ('t', 't') => Some(LanguageCode::Tt),
            ('t', 'w') => Some(LanguageCode::Tw),
            ('t', 'y') => Some(LanguageCode::Ty),
            ('u', 'g') => Some(LanguageCode::Ug),
            ('u', 'k') => Some(LanguageCode::Uk),
            ('u', 'r') => Some(LanguageCode::Ur),
            ('u', 'z') => Some(LanguageCode::Uz),
            ('v', 'e') => Some(LanguageCode::Ve),
            ('v', 'i') => Some(LanguageCode::Vi),
            ('v', 'o') => Some(LanguageCode::Vo),
            ('w', 'a') => Some(LanguageCode::Wa),
            ('c', 'y') => Some(LanguageCode::Cy),
            ('w', 'o') => Some(LanguageCode::Wo),
            ('f', 'y') => Some(LanguageCode::Fy),
            ('x', 'h') => Some(LanguageCode::Xh),
            ('y', 'i') => Some(LanguageCode::Yi),
            ('y', 'o') => Some(LanguageCode::Yo),
            ('z', 'a') => Some(LanguageCode::Za),
            ('z', 'u') => Some(LanguageCode::Zu),
            _ => None,
        };
        proof {
            match r {
                Some(c) => {
                    assert(c.letters() == (first, second));
                    lemma_spelling(c);
                },
                None => {
                    assert forall|c: LanguageCode| c.code_spec() != seq![first, second] by {
                        lemma_spelling(c);
                        assert(c.letters() != (first, second));
                    }
                },
            }
        }
        r
    }

    /// The two letters of the code.
    pub open spec fn letters(self) -> (char, char) {
        match self {
            LanguageCode::Ab => ('a', 'b'),
            LanguageCode::Aa => ('a', 'a'),
            LanguageCode::Af => ('a', 'f'),
            LanguageCode::Ak => ('a', 'k'),
            LanguageCode::Sq => ('s', 'q'),
            LanguageCode::Am => ('a', 'm'),
            LanguageCode::Ar => ('a', 'r'),
            LanguageCode::An => ('a', 'n'),
            LanguageCode::Hy => ('h', 'y'),
            LanguageCode::As => ('a', 's'),
            LanguageCode::Av => ('a', 'v'),
            LanguageCode::Ae => ('a', 'e'),
            LanguageCode::Ay => ('a', 'y'),
            LanguageCode::Az => ('a', 'z'),
            LanguageCode::Bm => ('b', 'm'),
            LanguageCode::Ba => ('b', 'a'),
            LanguageCode::Eu => ('e', 'u'),
            LanguageCode::Be => ('b', 'e'),
            LanguageCode::Bn => ('b', 'n'),
            LanguageCode::Bh => ('b', 'h'),
            LanguageCode::Bi => ('b', 'i'),
            LanguageCode::Bs => ('b', 's'),
            LanguageCode::Br => ('b', 'r'),
            LanguageCode::Bg => ('b', 'g'),
            LanguageCode::My => ('m', 'y'),
            LanguageCode::Ca => ('c', 'a'),
            LanguageCode::Ch => ('c', 'h'),
            LanguageCode::Ce => ('c', 'e'),
            LanguageCode::Ny => ('n', 'y'),
            LanguageCode::Zh => ('z', 'h'),
            LanguageCode::Cv => ('c', 'v'),
            LanguageCode::Kw => ('k', 'w'),
            LanguageCode::Co => ('c', 'o'),
            LanguageCode::Cr => ('c', 'r'),
            LanguageCode::Hr => ('h', 'r'),
            LanguageCode::Cs => ('c', 's'),
            LanguageCode::Da => ('d', 'a'),
            LanguageCode::Dv => ('d', 'v'),
            LanguageCode::Nl => ('n', 'l'),
            LanguageCode::Dz => ('d', 'z'),
            LanguageCode::En => ('e', 'n'),
            LanguageCode::Eo => ('e', 'o'),
            LanguageCode::Et => ('e', 't'),
            LanguageCode::Ee => ('e', 'e'),
            LanguageCode::Fo => ('f', 'o'),
            LanguageCode::Fj => ('f', 'j'),
            LanguageCode::Fi => ('f', 'i'),
            LanguageCode::Fr => ('f', 'r'),
            LanguageCode::Ff => ('f', 'f'),
            LanguageCode::Gl => ('g', 'l'),
            LanguageCode::Ka => ('k', 'a'),
            LanguageCode::De => ('d', 'e'),
            LanguageCode::El => ('e', 'l'),
            LanguageCode::Gn => ('g', 'n'),
            LanguageCode::Gu => ('g', 'u'),
            LanguageCode::Ht => ('h', 't'),
            LanguageCode::Ha => ('h', 'a'),
            LanguageCode::He => ('h', 'e'),
            LanguageCode::Hz => ('h', 'z'),
            LanguageCode::Hi => ('h', 'i'),
            LanguageCode::Ho => ('h', 'o'),
            LanguageCode::Hu => ('h', 'u'),
            LanguageCode::Ia => ('i', 'a'),
            LanguageCode::Id => ('i', 'd'),
            LanguageCode::Ie => ('i', 'e'),
            LanguageCode::Ga => ('g', 'a'),
            LanguageCode::Ig => ('i', 'g'),
            LanguageCode::Ik => ('i', 'k'),
            LanguageCode::Io => ('i', 'o'),
            LanguageCode::Is => ('i', 's'),
            LanguageCode::It => ('i', 't'),
            LanguageCode::Iu => ('i', 'u'),
            LanguageCode::Ja => ('j', 'a'),
            LanguageCode::Jv => ('j', 'v'),
            LanguageCode::Kl => ('k', 'l'),
            LanguageCode::Kn => ('k', 'n'),
            LanguageCode::Kr => ('k', 'r'),
            LanguageCode::Ks => ('k', 's'),
            LanguageCode::Kk => ('k', 'k'),
            LanguageCode::Km => ('k', 'm'),
            LanguageCode::Ki => ('k', 'i'),
            LanguageCode::Rw => ('r', 'w'),
            LanguageCode::Ky => ('k', 'y'),
            LanguageCode::Kv => ('k', 'v'),
            LanguageCode::Kg => ('k', 'g'),
            LanguageCode::Ko => ('k', 'o'),
            LanguageCode::Ku => ('k', 'u'),
            LanguageCode::Kj => ('k', 'j'),
            LanguageCode::La => ('l', 'a'),
            LanguageCode::Lb => ('l', 'b'),
            LanguageCode::Lg => ('l', 'g'),
            LanguageCode::Li => ('l', 'i'),
            LanguageCode::Ln => ('l', 'n'),
            LanguageCode::Lo => ('l', 'o'),
            LanguageCode::Lt => ('l', 't'),
            LanguageCode::Lu => ('l', 'u'),
            LanguageCode::Lv => ('l', 'v'),
            LanguageCode::Gv => ('g', 'v'),
            LanguageCode::Mk => ('m', 'k'),
            LanguageCode::Mg => ('m', 'g'),
            LanguageCode::Ms => ('m', 's'),
            LanguageCode::Ml => ('m', 'l'),
            LanguageCode::Mt => ('m', 't'),
            LanguageCode::Mi => ('m', 'i'),
            LanguageCode::Mr => ('m', 'r'),
            LanguageCode::Mh => ('m', 'h'),
            LanguageCode::Mn => ('m', 'n'),
            LanguageCode::Na => ('n', 'a'),
            LanguageCode::Nv => ('n', 'v'),
            LanguageCode::Nd => ('n', 'd'),
            LanguageCode::Ne => ('n', 'e'),
            LanguageCode::Ng => ('n', 'g'),
            LanguageCode::Nb => ('n', 'b'),
            LanguageCode::Nn => ('n', 'n'),
            LanguageCode::No => ('n', 'o'),
            LanguageCode::Ii => ('i', 'i'),
            LanguageCode::Nr => ('n', 'r'),
            LanguageCode::Oc => ('o', 'c'),
            LanguageCode::Oj => ('o', 'j'),
            LanguageCode::Cu => ('c', 'u'),
            LanguageCode::Om => ('o', 'm'),
            LanguageCode::Or => ('o', 'r'),
            LanguageCode::Os => ('o', 's'),
            LanguageCode::Pa => ('p', 'a'),
            LanguageCode::Pi => ('p', 'i'),
            LanguageCode::Fa => ('f', 'a'),
            LanguageCode::Pl => ('p', 'l'),
            LanguageCode::Ps => ('p', 's'),
            LanguageCode::Pt => ('p', 't'),
            LanguageCode::Qu => ('q', 'u'),
            LanguageCode::Rm => ('r', 'm'),
            LanguageCode::Rn => ('r', 'n'),
            LanguageCode::Ro => ('r', 'o'),
            LanguageCode::Ru => ('r', 'u'),
            LanguageCode::Sa => ('s', 'a'),
            LanguageCode::Sc => ('s', 'c'),
            LanguageCode::Sd => ('s', 'd'),
            LanguageCode::Se => ('s', 'e'),
            LanguageCode::Sm => ('s', 'm'),
            LanguageCode::Sg => ('s', 'g'),
            LanguageCode::Sr => ('s', 'r'),
            LanguageCode::Gd => ('g', 'd'),
            LanguageCode::Sn => ('s', 'n'),
            LanguageCode::Si => ('s', 'i'),
            LanguageCode::Sk => ('s', 'k'),
            LanguageCode::Sl => ('s', 'l'),
            LanguageCode::So => ('s', 'o'),
            LanguageCode::St => ('s', 't'),
            LanguageCode::Es => ('e', 's'),
            LanguageCode::Su => ('s', 'u'),
            LanguageCode::Sw => ('s', 'w'),
            LanguageCode::Ss => ('s', 's'),
            LanguageCode::Sv => ('s', 'v'),
            LanguageCode::Ta => ('t', 'a'),
            LanguageCode::Te => ('t', 'e'),
            LanguageCode::Tg => ('t', 'g'),
            LanguageCode::Th => ('t', 'h'),
            LanguageCode::Ti => ('t', 'i'),
            LanguageCode::Bo => ('b', 'o'),
            LanguageCode::Tk => ('t', 'k'),
            LanguageCode::Tl => ('t', 'l'),
            LanguageCode::Tn => ('t', 'n'),
            LanguageCode::To => ('t', 'o'),
            LanguageCode::Tr => ('t', 'r'),
            LanguageCode::Ts => ('t', 's'),
            LanguageCode::Tt => ('t', 't'),
            LanguageCode::Tw => ('t', 'w'),
            LanguageCode::Ty => ('t', 'y'),
            LanguageCode::Ug => ('u', 'g'),
            LanguageCode::Uk => ('u', 'k'),
            LanguageCode::Ur => ('u', 'r'),
            LanguageCode::Uz => ('u', 'z'),
            LanguageCode::Ve => ('v', 'e'),
            LanguageCode::Vi => ('v', 'i'),
            LanguageCode::Vo => ('v', 'o'),
            LanguageCode::Wa => ('w', 'a'),
            LanguageCode::Cy => ('c', 'y'),
            LanguageCode::Wo => ('w', 'o'),
            LanguageCode::Fy => ('f', 'y'),
            LanguageCode::Xh => ('x', 'h'),
            LanguageCode::Yi => ('y', 'i'),
            LanguageCode::Yo => ('y', 'o'),
            LanguageCode::Za => ('z', 'a'),
            LanguageCode::Zu => ('z', 'u'),
        }
    }
}

/// The code of a language is spelled by its two letters.
pub proof fn lemma_spelling(c: LanguageCode)
    ensures
        c.code_spec() == seq![c.letters().0, c.letters().1],
{
    match c {
        LanguageCode::Ab => reveal_strlit("ab"),
        LanguageCode::Aa => reveal_strlit("aa"),
        LanguageCode::Af => reveal_strlit("af"),
        LanguageCode::Ak => reveal_strlit("ak"),
        LanguageCode::Sq => reveal_strlit("sq"),
        LanguageCode::Am => reveal_strlit("am"),
        LanguageCode::Ar => reveal_strlit("ar"),
        LanguageCode::An => reveal_strlit("an"),
        LanguageCode::Hy => reveal_strlit("hy"),
        LanguageCode::As => reveal_strlit("as"),
        LanguageCode::Av => reveal_strlit("av"),
        LanguageCode::Ae => reveal_strlit("ae"),
        LanguageCode::Ay => reveal_strlit("ay"),
        LanguageCode::Az => reveal_strlit("az"),
        LanguageCode::Bm => reveal_strlit("bm"),
        LanguageCode::Ba => reveal_strlit("ba"),
        LanguageCode::Eu => reveal_strlit("eu"),
        LanguageCode::Be => reveal_strlit("be"),
        LanguageCode::Bn => reveal_strlit("bn"),
        LanguageCode::Bh => reveal_strlit("bh"),
        LanguageCode::Bi => reveal_strlit("bi"),
        LanguageCode::Bs => reveal_strlit("bs"),
        LanguageCode::Br => reveal_strlit("br"),
        LanguageCode::Bg => reveal_strlit("bg"),
        LanguageCode::My => reveal_strlit("my"),
        LanguageCode::Ca => reveal_strlit("ca"),
        LanguageCode::Ch => reveal_strlit("ch"),
        LanguageCode::Ce => reveal_strlit("ce"),
        LanguageCode::Ny => reveal_strlit("ny"),
        LanguageCode::Zh => reveal_strlit("zh"),
        LanguageCode::Cv => reveal_strlit("cv"),
        LanguageCode::Kw => reveal_strlit("kw"),
        LanguageCode::Co => reveal_strlit("co"),
        LanguageCode::Cr => reveal_strlit("cr"),
        LanguageCode::Hr => reveal_strlit("hr"),
        LanguageCode::Cs => reveal_strlit("cs"),
        LanguageCode::Da => reveal_strlit("da"),
        LanguageCode::Dv => reveal_strlit("dv"),
        LanguageCode::Nl => reveal_strlit("nl"),
        LanguageCode::Dz => reveal_strlit("dz"),
        LanguageCode::En => reveal_strlit("en"),
        LanguageCode::Eo => reveal_strlit("eo"),
        LanguageCode::Et => reveal_strlit("et"),
        LanguageCode::Ee => reveal_strlit("ee"),
        LanguageCode::Fo => reveal_strlit("fo"),
        LanguageCode::Fj => reveal_strlit("fj"),
        LanguageCode::Fi => reveal_strlit("fi"),
        LanguageCode::Fr => reveal_strlit("fr"),
        LanguageCode::Ff => reveal_strlit("ff"),
        LanguageCode::Gl => reveal_strlit("gl"),
        LanguageCode::Ka => reveal_strlit("ka"),
        LanguageCode::De => reveal_strlit("de"),
        LanguageCode::El => reveal_strlit("el"),
        LanguageCode::Gn => reveal_strlit("gn"),
        LanguageCode::Gu => reveal_strlit("gu"),
        LanguageCode::Ht => reveal_strlit("ht"),
        LanguageCode::Ha => reveal_strlit("ha"),
        LanguageCode::He => reveal_strlit("he"),
        LanguageCode::Hz => reveal_strlit("hz"),
        LanguageCode::Hi => reveal_strlit("hi"),
        LanguageCode::Ho => reveal_strlit("ho"),
        LanguageCode::Hu => reveal_strlit("hu"),
        LanguageCode::Ia => reveal_strlit("ia"),
        LanguageCode::Id => reveal_strlit("id"),
        LanguageCode::Ie => reveal_strlit("ie"),
        LanguageCode::Ga => reveal_strlit("ga"),
        LanguageCode::Ig => reveal_strlit("ig"),
        LanguageCode::Ik => reveal_strlit("ik"),
        LanguageCode::Io => reveal_strlit("io"),
        LanguageCode::Is => reveal_strlit("is"),
        LanguageCode::It => reveal_strlit("it"),
        LanguageCode::Iu => reveal_strlit("iu"),
        LanguageCode::Ja => reveal_strlit("ja"),
        LanguageCode::Jv => reveal_strlit("jv"),
        LanguageCode::Kl => reveal_strlit("kl"),
        LanguageCode::Kn => reveal_strlit("kn"),
        LanguageCode::Kr => reveal_strlit("kr"),
        LanguageCode::Ks => reveal_strlit("ks"),
        LanguageCode::Kk => reveal_strlit("kk"),
        LanguageCode::Km => reveal_strlit("km"),
        LanguageCode::Ki => reveal_strlit("ki"),
        LanguageCode::Rw => reveal_strlit("rw"),
        LanguageCode::Ky => reveal_strlit("ky"),
        LanguageCode::Kv => reveal_strlit("kv"),
        LanguageCode::Kg => reveal_strlit("kg"),
        LanguageCode::Ko => reveal_strlit("ko"),
        LanguageCode::Ku => reveal_strlit("ku"),
        LanguageCode::Kj => reveal_strlit("kj"),
        LanguageCode::La => reveal_strlit("la"),
        LanguageCode::Lb => reveal_strlit("lb"),
        LanguageCode::Lg => reveal_strlit("lg"),
        LanguageCode::Li => reveal_strlit("li"),
        LanguageCode::Ln => reveal_strlit("ln"),
        LanguageCode::Lo => reveal_strlit("lo"),
        LanguageCode::Lt => reveal_strlit("lt"),
        LanguageCode::Lu => reveal_strlit("lu"),
        LanguageCode::Lv => reveal_strlit("lv"),
        LanguageCode::Gv => reveal_strlit("gv"),
        LanguageCode::Mk => reveal_strlit("mk"),
        LanguageCode::Mg => reveal_strlit("mg"),
        LanguageCode::Ms => reveal_strlit("ms"),
        LanguageCode::Ml => reveal_strlit("ml"),
        LanguageCode::Mt => reveal_strlit("mt"),
        LanguageCode::Mi => reveal_strlit("mi"),
        LanguageCode::Mr => reveal_strlit("mr"),
        LanguageCode::Mh => reveal_strlit("mh"),
        LanguageCode::Mn => reveal_strlit("mn"),
        LanguageCode::Na => reveal_strlit("na"),
        LanguageCode::Nv => reveal_strlit("nv"),
        LanguageCode::Nd => reveal_strlit("nd"),
        LanguageCode::Ne => reveal_strlit("ne"),
        LanguageCode::Ng => reveal_strlit("ng"),
        LanguageCode::Nb => reveal_strlit("nb"),
        LanguageCode::Nn => reveal_strlit("nn"),
        LanguageCode::No => reveal_strlit("no"),
        LanguageCode::Ii => reveal_strlit("ii"),
        LanguageCode::Nr => reveal_strlit("nr"),
        LanguageCode::Oc => reveal_strlit("oc"),
        LanguageCode::Oj => reveal_strlit("oj"),
        LanguageCode::Cu => reveal_strlit("cu"),
        LanguageCode::Om => reveal_strlit("om"),
        LanguageCode::Or => reveal_strlit("or"),
        LanguageCode::Os => reveal_strlit("os"),
        LanguageCode::Pa => reveal_strlit("pa"),
        LanguageCode::Pi => reveal_strlit("pi"),
        LanguageCode::Fa => reveal_strlit("fa"),
        LanguageCode::Pl => reveal_strlit("pl"),
        LanguageCode::Ps => reveal_strlit("ps"),
        LanguageCode::Pt => reveal_strlit("pt"),
        LanguageCode::Qu => reveal_strlit("qu"),
        LanguageCode::Rm => reveal_strlit("rm"),
        LanguageCode::Rn => reveal_strlit("rn"),
        LanguageCode::Ro => reveal_strlit("ro"),
        LanguageCode::Ru => reveal_strlit("ru"),
        LanguageCode::Sa => reveal_strlit("sa"),
        LanguageCode::Sc => reveal_strlit("sc"),
        LanguageCode::Sd => reveal_strlit("sd"),
        LanguageCode::Se => reveal_strlit("se"),
        LanguageCode::Sm => reveal_strlit("sm"),
        LanguageCode::Sg => reveal_strlit("sg"),
        LanguageCode::Sr => reveal_strlit("sr"),
        LanguageCode::Gd => reveal_strlit("gd"),
        LanguageCode::Sn => reveal_strlit("sn"),
        LanguageCode::Si => reveal_strlit("si"),
        LanguageCode::Sk => reveal_strlit("sk"),
        LanguageCode::Sl => reveal_strlit("sl"),
        LanguageCode::So => reveal_strlit("so"),
        LanguageCode::St => reveal_strlit("st"),
        LanguageCode::Es => reveal_strlit("es"),
        LanguageCode::Su => reveal_strlit("su"),
        LanguageCode::Sw => reveal_strlit("sw"),
        LanguageCode::Ss => reveal_strlit("ss"),
        LanguageCode::Sv => reveal_strlit("sv"),
        LanguageCode::Ta => reveal_strlit("ta"),
        LanguageCode::Te => reveal_strlit("te"),
        LanguageCode::Tg => reveal_strlit("tg"),
        LanguageCode::Th => reveal_strlit("th"),
        LanguageCode::Ti => reveal_strlit("ti"),
        LanguageCode::Bo => reveal_strlit("bo"),
        LanguageCode::Tk => reveal_strlit("tk"),
        LanguageCode::Tl => reveal_strlit("tl"),
        LanguageCode::Tn => reveal_strlit("tn"),
        LanguageCode::To => reveal_strlit("to"),
        LanguageCode::Tr => reveal_strlit("tr"),
        LanguageCode::Ts => reveal_strlit("ts"),
        LanguageCode::Tt => reveal_strlit("tt"),
        LanguageCode::Tw => reveal_strlit("tw"),
        LanguageCode::Ty => reveal_strlit("ty"),
        LanguageCode::Ug => reveal_strlit("ug"),
        LanguageCode::Uk => reveal_strlit("uk"),
        LanguageCode::Ur => reveal_strlit("ur"),
        LanguageCode::Uz => reveal_strlit("uz"),
        LanguageCode::Ve => reveal_strlit("ve"),
        LanguageCode::Vi => reveal_strlit("vi"),
        LanguageCode::Vo => reveal_strlit("vo"),
        LanguageCode::Wa => reveal_strlit("wa"),
        LanguageCode::Cy => reveal_strlit("cy"),
        LanguageCode::Wo => reveal_strlit("wo"),
        LanguageCode::Fy => reveal_strlit("fy"),
        LanguageCode::Xh => reveal_strlit("xh"),
        LanguageCode::Yi => reveal_strlit("yi"),
        LanguageCode::Yo => reveal_strlit("yo"),
        LanguageCode::Za => reveal_strlit("za"),
        LanguageCode::Zu => reveal_strlit("zu"),
    }
    assert(c.code_spec() =~= seq![c.letters().0, c.letters().1]);
}

impl TryFrom<&str> for LanguageCode {
    type Error = ParseError;

    /// Reads a language from its two-letter code, as [`LanguageCode::parse`]
    /// does.
    fn try_from(s: &str) -> (r: Result<Self, ParseError>)
        ensures
            match r {
                Ok(c) => c.code_spec() == s@ && LanguageCode::parse_spec(s@) == Some(c),
                Err(e) => e.language@ == s@ && LanguageCode::parse_spec(s@) is None,
            },
    {
        LanguageCode::parse(s)
    }
}

impl vstd::std_specs::convert::TryFromSpecImpl<&str> for LanguageCode {
    /// The error owns a copy of the input, and a ghost value cannot name the
    /// copy: what `try_from` returns is stated on `try_from` itself.
    open spec fn obeys_try_from_spec() -> bool {
        false
    }

    open spec fn try_from_spec(s: &str) -> Result<Self, ParseError> {
        match LanguageCode::parse_spec(s@) {
            Some(c) => Ok(c),
            None => Err(choose|e: ParseError| e.language@ == s@),
        }
    }
}

impl core::str::FromStr for LanguageCode {
    type Err = ParseError;

    /// Reads a language from its two-letter code, as [`LanguageCode::parse`]
    /// does.
    fn from_str(s: &str) -> (r: Result<Self, ParseError>)
        ensures
            match r {
                Ok(c) => c.code_spec() == s@ && LanguageCode::parse_spec(s@) == Some(c),
                Err(e) => e.language@ == s@ && LanguageCode::parse_spec(s@) is None,
            },
    {
        LanguageCode::parse(s)
    }
}

/// The code of every language is two lower-case letters.
pub proof fn lemma_code_shape(c: LanguageCode)
    ensures
        c.code_spec().len() == 2,
        is_lower_letter(c.code_spec()[0]),
        is_lower_letter(c.code_spec()[1]),
{
    lemma_spelling(c);
    assert(is_lower_letter(c.letters().0) && is_lower_letter(c.letters().1));
}

/// No two languages share a code.
pub proof fn lemma_code_unique(a: LanguageCode, b: LanguageCode)
    requires
        a.code_spec() == b.code_spec(),
    ensures
        a == b,
{
    lemma_spelling(a);
    lemma_spelling(b);
    assert(a.letters().0 == b.letters().0 && a.letters().1 == b.letters().1);
    assert(a.letters() == b.letters());
}

/// Reading the code of a language gives that language back.
pub proof fn lemma_parse_code(c: LanguageCode)
    ensures
        LanguageCode::parse_spec(c.code_spec()) == Some(c),
{
    let found = choose|d: LanguageCode| d.code_spec() == c.code_spec();
    lemma_code_unique(found, c);
}

/// What is read from a string is the one language with that code, and a
/// string is read exactly when some language has it as its code.
pub proof fn lemma_parse_finds(s: Seq<char>, c: LanguageCode)
    ensures
        LanguageCode::parse_spec(s) == Some(c) <==> c.code_spec() == s,
{
    if c.code_spec() == s {
        lemma_parse_code(c);
    }
}

/// Only a string of two lower-case letters is read as a language: reading is
/// exact and tells upper case from lower case.
pub proof fn lemma_parse_exact(s: Seq<char>)
    ensures
        LanguageCode::parse_spec(s) is Some ==> s.len() == 2 && is_lower_letter(s[0])
            && is_lower_letter(s[1]),
{
    if LanguageCode::parse_spec(s) is Some {
        lemma_code_shape(LanguageCode::parse_spec(s).unwrap());
    }
}

} // verus!
