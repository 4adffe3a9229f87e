//! Cursors over the languages, over their codes and over the families.
//!
//! Every cursor is a small value of its own: it holds the places of a table
//! that it has yet to visit, and advancing one cursor leaves every other
//! cursor where it was.

use crate::family::{family_names, FAMILIES, FAMILY_COUNT};
use crate::language::{LanguageCode, LANGUAGE_CODES, LANGUAGE_COUNT};
use vstd::prelude::*;

verus! {

/// The places `front..back` of a table that a cursor has yet to visit.
#[derive(Debug, Clone, Copy)]
struct Window {
    front: usize,
    back: usize,
}

impl Window {
    #[verifier::type_invariant]
    spec fn ordered(self) -> bool {
        self.front <= self.back
    }

    /// All the places of a table of `len` rows.
    fn new(len: usize) -> (w: Window)
        ensures
            w.front == 0,
            w.back == len,
    {
        Window { front: 0, back: len }
    }

    /// How many places are left.
    fn len(&self) -> (n: usize)
        ensures
            n == self.back - self.front,
            self.front <= self.back,
    {
        proof {
            use_type_invariant(self);
        }
        self.back - self.front
    }

    /// Takes the first place that is left.
    fn pop_front(&mut self) -> (r: Option<usize>)
        ensures
            final(self).back == old(self).back,
            old(self).front <= old(self).back,
            match r {
                Some(i) => i == old(self).front && i < old(self).back && final(self).front == i + 1,
                None => old(self).front == old(self).back && final(self).front == old(self).front,
            },
        no_unwind
    {
        proof {
            use_type_invariant(&*self);
        }
        if self.front < self.back {
            let i = self.front;
            self.front = i + 1;
            Some(i)
        } else {
            None
        }
    }

    /// Takes the last place that is left.
    fn pop_back(&mut self) -> (r: Option<usize>)
        ensures
            final(self).front == old(self).front,
            old(self).front <= old(self).back,
            match r {
                Some(i) => i == old(self).back - 1 && old(self).front <= i && final(self).back == i,
                None => old(self).front == old(self).back && final(self).back == old(self).back,
            },
        no_unwind
    {
        proof {
            use_type_invariant(&*self);
        }
        if self.front < self.back {
            self.back = self.back - 1;
            Some(self.back)
        } else {
            None
        }
    }

    /// Passes over the first `n` places that are left and takes the one after
    /// them; where fewer than `n + 1` are left, none is left afterwards.
    fn skip_front(&mut self, n: usize) -> (r: Option<usize>)
        ensures
            final(self).back == old(self).back,
            old(self).front <= old(self).back,
            match r {
                Some(i) => i == old(self).front + n && i < old(self).back && final(self).front == i
                    + 1,
                None => old(self).front + n >= old(self).back && final(self).front == old(
                    self,
                ).back,
            },
        no_unwind
    {
        proof {
            use_type_invariant(&*self);
        }
        if n < self.back - self.front {
            let i = self.front + n;
            self.front = i + 1;
            Some(i)
        } else {
            self.front = self.back;
            None
        }
    }

    /// Passes over the last `n` places that are left and takes the one before
    /// them; where fewer than `n + 1` are left, none is left afterwards.
    fn skip_back(&mut self, n: usize) -> (r: Option<usize>)
        ensures
            final(self).front == old(self).front,
            old(self).front <= old(self).back,
            match r {
                Some(i) => i == old(self).back - 1 - n && old(self).front <= i && final(self).back
                    == i,
                None => old(self).front + n >= old(self).back && final(self).back == old(
                    self,
                ).front,
            },
        no_unwind
    {
        proof {
            use_type_invariant(&*self);
        }
        if n < self.back - self.front {
            self.back = self.back - 1 - n;
            Some(self.back)
        } else {
            self.back = self.front;
            None
        }
    }
}

/// A cursor over every language, in canonical order.
#[derive(Debug)]
pub struct Iter {
    window: Window,
}

impl View for Iter {
    type V = Seq<LanguageCode>;

    /// The languages that the cursor has yet to give, in the order in which
    /// `next` gives them.
    closed spec fn view(&self) -> Seq<LanguageCode> {
        LANGUAGE_CODES@.subrange(self.window.front as int, self.window.back as int)
    }
}

impl Iter {
    #[verifier::type_invariant]
    spec fn in_table(self) -> bool {
        self.window.front <= self.window.back <= 184
    }

    /// How many languages the cursor has yet to give.
    fn remaining_len(&self) -> (n: usize)
        ensures
            n == self@.len(),
    {
        proof {
            use_type_invariant(self);
        }
        self.window.len()
    }
}

impl Clone for Iter {
    /// A second cursor at the same place, which moves on its own.
    fn clone(&self) -> (it: Self)
        ensures
            it@ == self@,
    {
        proof {
            use_type_invariant(self);
        }
        Iter { window: self.window }
    }
}

impl Default for Iter {
    /// A cursor that has every language yet to give.
    fn default() -> (it: Self)
        ensures
            it@ == LANGUAGE_CODES@,
    {
        let it = Iter { window: Window::new(LANGUAGE_COUNT) };
        assert(it@ =~= LANGUAGE_CODES@);
        it
    }
}

impl Iterator for Iter {
    type Item = LanguageCode;

    /// Gives the first language that is left.
    fn next(&mut self) -> (r: Option<LanguageCode>)
        ensures
            r == (if old(self)@.len() > 0 { Some(old(self)@[0]) } else { None }),
            final(self)@ == (if old(self)@.len() > 0 {
                old(self)@.drop_first()
            } else {
                old(self)@
            }),
    {
        proof {
            use_type_invariant(&*self);
        }
        match self.window.pop_front() {
            Some(i) => {
                assert(self@ =~= old(self)@.drop_first());
                Some(LANGUAGE_CODES[i])
            },
            None => None,
        }
    }

    /// Passes over `n` languages and gives the one after them.
    fn nth(&mut self, n: usize) -> (r: Option<LanguageCode>)
        ensures
            r == (if n < old(self)@.len() { Some(old(self)@[n as int]) } else { None }),
            final(self)@ == (if n < old(self)@.len() {
                old(self)@.skip(n + 1)
            } else {
                Seq::empty()
            }),
    {
        proof {
            use_type_invariant(&*self);
        }
        match self.window.skip_front(n) {
            Some(i) => {
                assert(self@ =~= old(self)@.skip(n + 1));
                Some(LANGUAGE_CODES[i])
            },
            None => {
                assert(self@ =~= Seq::empty());
                None
            },
        }
    }

    /// The number of languages that are left, as both bounds.
    fn size_hint(&self) -> (r: (usize, Option<usize>))
        ensures
            r.0 == self@.len(),
            r.1 == Some(r.0),
    {
        let n = self.remaining_len();
        (n, Some(n))
    }

    /// The number of languages that are left.
    fn count(self) -> (n: usize)
        ensures
            n == self@.len(),
    {
        self.remaining_len()
    }

    /// The last language that is left.
    fn last(self) -> (r: Option<LanguageCode>)
        ensures
            r == (if self@.len() > 0 { Some(self@.last()) } else { None }),
    {
        let mut it = self;
        it.next_back()
    }
}

impl vstd::std_specs::iter::IteratorSpecImpl for Iter {
    open spec fn obeys_prophetic_iter_laws(&self) -> bool {
        true
    }

    open spec fn remaining(&self) -> Seq<LanguageCode> {
        self@
    }

    open spec fn will_return_none(&self) -> bool {
        true
    }

    open spec fn decrease(&self) -> Option<nat> {
        Some(self@.len())
    }

    open spec fn initial_value_relation(&self, init: &Self) -> bool {
        self@ == init@
    }

    open spec fn peek(&self, index: int) -> Option<LanguageCode> {
        if 0 <= index < self@.len() {
            Some(self@[index])
        } else {
            None
        }
    }
}

impl DoubleEndedIterator for Iter {
    /// Gives the last language that is left.
    fn next_back(&mut self) -> (r: Option<LanguageCode>)
        ensures
            r == (if old(self)@.len() > 0 { Some(old(self)@.last()) } else { None }),
            final(self)@ == (if old(self)@.len() > 0 {
                old(self)@.drop_last()
            } else {
                old(self)@
            }),
    {
        proof {
            use_type_invariant(&*self);
        }
        match self.window.pop_back() {
            Some(i) => {
                assert(self@ =~= old(self)@.drop_last());
                Some(LANGUAGE_CODES[i])
            },
            None => None,
        }
    }

    /// Passes over the last `n` languages and gives the one before them.
    fn nth_back(&mut self, n: usize) -> (r: Option<LanguageCode>)
        ensures
            r == (if n < old(self)@.len() {
                Some(old(self)@[old(self)@.len() - 1 - n])
            } else {
                None
            }),
            final(self)@ == (if n < old(self)@.len() {
                old(self)@.take(old(self)@.len() - 1 - n)
            } else {
                Seq::empty()
            }),
    {
        proof {
            use_type_invariant(&*self);
        }
        match self.window.skip_back(n) {
            Some(i) => {
                assert(self@ =~= old(self)@.take(old(self)@.len() - 1 - n));
                Some(LANGUAGE_CODES[i])
            },
            None => {
                assert(self@ =~= Seq::empty());
                None
            },
        }
    }
}

impl vstd::std_specs::iter::DoubleEndedIteratorSpecImpl for Iter {
    open spec fn peek_back(&self, index: int) -> Option<LanguageCode> {
        if 0 <= index < self@.len() {
            Some(self@[self@.len() - 1 - index])
        } else {
            None
        }
    }
}

impl ExactSizeIterator for Iter {
    /// The number of languages that are left.
    fn len(&self) -> (n: usize)
        ensures
            n == self@.len(),
    {
        self.remaining_len()
    }
}

impl core::iter::FusedIterator for Iter {}

impl Iter {
    /// Turns the cursor into one over the two-letter codes of the languages
    /// that it has yet to give.
    pub fn into_codes(self) -> (codes: Codes)
        ensures
            codes@ == codes_of(self@),
    {
        let codes = Codes { inner: self };
        assert(codes@ =~= codes_of(self@));
        codes
    }

    /// Turns the cursor into one over the ISO 639-2/T codes of the languages
    /// that it has yet to give.
    pub fn into_codes_t(self) -> (codes: CodesT)
        ensures
            codes@ == codes_t_of(self@),
    {
        let codes = CodesT { inner: self };
        assert(codes@ =~= codes_t_of(self@));
        codes
    }

    /// Turns the cursor into one over the ISO 639-2/B codes of the languages
    /// that it has yet to give.
    pub fn into_codes_b(self) -> (codes: CodesB)
        ensures
            codes@ == codes_b_of(self@),
    {
        let codes = CodesB { inner: self };
        assert(codes@ =~= codes_b_of(self@));
        codes
    }
}

/// The two-letter codes of the given languages, in their order.
pub open spec fn codes_of(languages: Seq<LanguageCode>) -> Seq<Seq<char>> {
    languages.map_values(|c: LanguageCode| c.code_spec())
}

/// A cursor over the two-letter codes of every language, in canonical order.
#[derive(Debug)]
pub struct Codes {
    inner: Iter,
}

impl Codes {
    /// The codes that the cursor has yet to give, as the strings that `next`
    /// gives.
    pub closed spec fn items(self) -> Seq<&'static str> {
        self.inner@.map_values(|c: LanguageCode| c.entry().1)
    }
}

impl View for Codes {
    type V = Seq<Seq<char>>;

    /// The codes that the cursor has yet to give, in the order in which
    /// `next` gives them.
    open spec fn view(&self) -> Seq<Seq<char>> {
        self.items().map_values(|s: &'static str| s@)
    }
}

impl Clone for Codes {
    /// A second cursor at the same place, which moves on its own.
    fn clone(&self) -> (it: Self)
        ensures
            it@ == self@,
    {
        Codes { inner: self.inner.clone() }
    }
}

impl Default for Codes {
    /// A cursor that has the code of every language yet to give.
    fn default() -> (it: Self)
        ensures
            it@ == codes_of(LANGUAGE_CODES@),
    {
        Iter::default().into_codes()
    }
}

impl Iterator for Codes {
    type Item = &'static str;

    /// Gives the first code that is left.
    fn next(&mut self) -> (r: Option<&'static str>)
        ensures
            match r {
                Some(s) => old(self)@.len() > 0 && s@ == old(self)@[0] && final(self)@ == old(
                    self,
                )@.drop_first(),
                None => old(self)@.len() == 0 && final(self)@ == old(self)@,
            },
    {
        match self.inner.next() {
            Some(c) => {
                assert(self.items() =~= old(self).items().drop_first());
                assert(self@ =~= old(self)@.drop_first());
                Some(c.code())
            },
            None => None,
        }
    }

    /// Passes over `n` codes and gives the one after them.
    fn nth(&mut self, n: usize) -> (r: Option<&'static str>)
        ensures
            match r {
                Some(s) => n < old(self)@.len() && s@ == old(self)@[n as int] && final(self)@
                    == old(self)@.skip(n + 1),
                None => n >= old(self)@.len() && final(self)@ == Seq::<Seq<char>>::empty(),
            },
    {
        match self.inner.nth(n) {
            Some(c) => {
                assert(self@ =~= old(self)@.skip(n + 1));
                Some(c.code())
            },
            None => {
                assert(self@ =~= Seq::<Seq<char>>::empty());
                None
            },
        }
    }

    /// The number of codes that are left, as both bounds.
    fn size_hint(&self) -> (r: (usize, Option<usize>))
        ensures
            r.0 == self@.len(),
            r.1 == Some(r.0),
    {
        self.inner.size_hint()
    }

    /// The number of codes that are left.
    fn count(self) -> (n: usize)
        ensures
            n == self@.len(),
    {
        self.inner.count()
    }

    /// The last code that is left.
    fn last(self) -> (r: Option<&'static str>)
        ensures
            match r {
                Some(s) => self@.len() > 0 && s@ == self@.last(),
                None => self@.len() == 0,
            },
    {
        match self.inner.last() {
            Some(c) => Some(c.code()),
            None => None,
        }
    }
}

impl vstd::std_specs::iter::IteratorSpecImpl for Codes {
    open spec fn obeys_prophetic_iter_laws(&self) -> bool {
        true
    }

    open spec fn remaining(&self) -> Seq<&'static str> {
        self.items()
    }

    open spec fn will_return_none(&self) -> bool {
        true
    }

    open spec fn decrease(&self) -> Option<nat> {
        Some(self.items().len())
    }

    open spec fn initial_value_relation(&self, init: &Self) -> bool {
        self.items() == init.items()
    }

    open spec fn peek(&self, index: int) -> Option<&'static str> {
        if 0 <= index < self.items().len() {
            Some(self.items()[index])
        } else {
            None
        }
    }
}

impl DoubleEndedIterator for Codes {
    /// Gives the last code that is left.
    fn next_back(&mut self) -> (r: Option<&'static str>)
        ensures
            match r {
                Some(s) => old(self)@.len() > 0 && s@ == old(self)@.last() && final(self)@ == old(
                    self,
                )@.drop_last(),
                None => old(self)@.len() == 0 && final(self)@ == old(self)@,
            },
    {
        match self.inner.next_back() {
            Some(c) => {
                assert(self.items() =~= old(self).items().drop_last());
                assert(self@ =~= old(self)@.drop_last());
                Some(c.code())
            },
            None => None,
        }
    }

    /// Passes over the last `n` codes and gives the one before them.
    fn nth_back(&mut self, n: usize) -> (r: Option<&'static str>)
        ensures
            match r {
                Some(s) => n < old(self)@.len() && s@ == old(self)@[old(self)@.len() - 1 - n]
                    && final(self)@ == old(self)@.take(old(self)@.len() - 1 - n),
                None => n >= old(self)@.len() && final(self)@ == Seq::<Seq<char>>::empty(),
            },
    {
        match self.inner.nth_back(n) {
            Some(c) => {
                assert(self@ =~= old(self)@.take(old(self)@.len() - 1 - n));
                Some(c.code())
            },
            None => {
                assert(self@ =~= Seq::<Seq<char>>::empty());
                None
            },
        }
    }
}

impl vstd::std_specs::iter::DoubleEndedIteratorSpecImpl for Codes {
    open spec fn peek_back(&self, index: int) -> Option<&'static str> {
        if 0 <= index < self.items().len() {
            Some(self.items()[self.items().len() - 1 - index])
        } else {
            None
        }
    }
}

impl ExactSizeIterator for Codes {
    /// The number of codes that are left.
    fn len(&self) -> (n: usize)
        ensures
            n == self@.len(),
    {
        self.inner.len()
    }
}

impl core::iter::FusedIterator for Codes {}

/// The ISO 639-2/T codes of the given languages, in their order.
pub open spec fn codes_t_of(languages: Seq<LanguageCode>) -> Seq<Seq<char>> {
    languages.map_values(|c: LanguageCode| c.code_t_spec())
}

/// A cursor over the ISO 639-2/T codes of every language, in canonical order.
#[derive(Debug)]
pub struct CodesT {
    inner: Iter,
}

impl CodesT {
    /// The codes that the cursor has yet to give, as the strings that `next`
    /// gives.
    pub closed spec fn items(self) -> Seq<&'static str> {
        self.inner@.map_values(|c: LanguageCode| c.entry().2)
    }
}

impl View for CodesT {
    type V = Seq<Seq<char>>;

    /// The codes that the cursor has yet to give, in the order in which
    /// `next` gives them.
    open spec fn view(&self) -> Seq<Seq<char>> {
        self.items().map_values(|s: &'static str| s@)
    }
}

impl Clone for CodesT {
    /// A second cursor at the same place, which moves on its own.
    fn clone(&self) -> (it: Self)
        ensures
            it@ == self@,
    {
        CodesT { inner: self.inner.clone() }
    }
}

impl Default for CodesT {
    /// A cursor that has the code of every language yet to give.
    fn default() -> (it: Self)
        ensures
            it@ == codes_t_of(LANGUAGE_CODES@),
    {
        Iter::default().into_codes_t()
    }
}

impl Iterator for CodesT {
    type Item = &'static str;

    /// Gives the first code that is left.
    fn next(&mut self) -> (r: Option<&'static str>)
        ensures
            match r {
                Some(s) => old(self)@.len() > 0 && s@ == old(self)@[0] && final(self)@ == old(
                    self,
                )@.drop_first(),
                None => old(self)@.len() == 0 && final(self)@ == old(self)@,
            },
    {
        match self.inner.next() {
            Some(c) => {
                assert(self.items() =~= old(self).items().drop_first());
                assert(self@ =~= old(self)@.drop_first());
                Some(c.code_t())
            },
            None => None,
        }
    }

    /// Passes over `n` codes and gives the one after them.
    fn nth(&mut self, n: usize) -> (r: Option<&'static str>)
        ensures
            match r {
                Some(s) => n < old(self)@.len() && s@ == old(self)@[n as int] && final(self)@
                    == old(self)@.skip(n + 1),
                None => n >= old(self)@.len() && final(self)@ == Seq::<Seq<char>>::empty(),
            },
    {
        match self.inner.nth(n) {
            Some(c) => {
                assert(self@ =~= old(self)@.skip(n + 1));
                Some(c.code_t())
            },
            None => {
                assert(self@ =~= Seq::<Seq<char>>::empty());
                None
            },
        }
    }

    /// The number of codes that are left, as both bounds.
    fn size_hint(&self) -> (r: (usize, Option<usize>))
        ensures
            r.0 == self@.len(),
            r.1 == Some(r.0),
    {
        self.inner.size_hint()
    }

    /// The number of codes that are left.
    fn count(self) -> (n: usize)
        ensures
            n == self@.len(),
    {
        self.inner.count()
    }

    /// The last code that is left.
    fn last(self) -> (r: Option<&'static str>)
        ensures
            match r {
                Some(s) => self@.len() > 0 && s@ == self@.last(),
                None => self@.len() == 0,
            },
    {
        match self.inner.last() {
            Some(c) => Some(c.code_t()),
            None => None,
        }
    }
}

impl vstd::std_specs::iter::IteratorSpecImpl for CodesT {
    open spec fn obeys_prophetic_iter_laws(&self) -> bool {
        true
    }

    open spec fn remaining(&self) -> Seq<&'static str> {
        self.items()
    }

    open spec fn will_return_none(&self) -> bool {
        true
    }

    open spec fn decrease(&self) -> Option<nat> {
        Some(self.items().len())
    }

    open spec fn initial_value_relation(&self, init: &Self) -> bool {
        self.items() == init.items()
    }

    open spec fn peek(&self, index: int) -> Option<&'static str> {
        if 0 <= index < self.items().len() {
            Some(self.items()[index])
        } else {
            None
        }
    }
}

impl DoubleEndedIterator for CodesT {
    /// Gives the last code that is left.
    fn next_back(&mut self) -> (r: Option<&'static str>)
        ensures
            match r {
                Some(s) => old(self)@.len() > 0 && s@ == old(self)@.last() && final(self)@ == old(
                    self,
                )@.drop_last(),
                None => old(self)@.len() == 0 && final(self)@ == old(self)@,
            },
    {
        match self.inner.next_back() {
            Some(c) => {
                assert(self.items() =~= old(self).items().drop_last());
                assert(self@ =~= old(self)@.drop_last());
                Some(c.code_t())
            },
            None => None,
        }
    }

    /// Passes over the last `n` codes and gives the one before them.
    fn nth_back(&mut self, n: usize) -> (r: Option<&'static str>)
        ensures
            match r {
                Some(s) => n < old(self)@.len() && s@ == old(self)@[old(self)@.len() - 1 - n]
                    && final(self)@ == old(self)@.take(old(self)@.len() - 1 - n),
                None => n >= old(self)@.len() && final(self)@ == Seq::<Seq<char>>::empty(),
            },
    {
        match self.inner.nth_back(n) {
            Some(c) => {
                assert(self@ =~= old(self)@.take(old(self)@.len() - 1 - n));
                Some(c.code_t())
            },
            None => {
                assert(self@ =~= Seq::<Seq<char>>::empty());
                None
            },
        }
    }
}

impl vstd::std_specs::iter::DoubleEndedIteratorSpecImpl for CodesT {
    open spec fn peek_back(&self, index: int) -> Option<&'static str> {
        if 0 <= index < self.items().len() {
            Some(self.items()[self.items().len() - 1 - index])
        } else {
            None
        }
    }
}

impl ExactSizeIterator for CodesT {
    /// The number of codes that are left.
    fn len(&self) -> (n: usize)
        ensures
            n == self@.len(),
    {
        self.inner.len()
    }
}

impl core::iter::FusedIterator for CodesT {}

/// The ISO 639-2/B codes of the given languages, in their order.
pub open spec fn codes_b_of(languages: Seq<LanguageCode>) -> Seq<Seq<char>> {
    languages.map_values(|c: LanguageCode| c.code_b_spec())
}

/// A cursor over the ISO 639-2/B codes of every language, in canonical order.
#[derive(Debug)]
pub struct CodesB {
    inner: Iter,
}

impl CodesB {
    /// The codes that the cursor has yet to give, as the strings that `next`
    /// gives.
    pub closed spec fn items(self) -> Seq<&'static str> {
        self.inner@.map_values(|c: LanguageCode| c.entry().3)
    }
}

impl View for CodesB {
    type V = Seq<Seq<char>>;

    /// The codes that the cursor has yet to give, in the order in which
    /// `next` gives them.
    open spec fn view(&self) -> Seq<Seq<char>> {
        self.items().map_values(|s: &'static str| s@)
    }
}

impl Clone for CodesB {
    /// A second cursor at the same place, which moves on its own.
    fn clone(&self) -> (it: Self)
        ensures
            it@ == self@,
    {
        CodesB { inner: self.inner.clone() }
    }
}

impl Default for CodesB {
    /// A cursor that has the code of every language yet to give.
    fn default() -> (it: Self)
        ensures
            it@ == codes_b_of(LANGUAGE_CODES@),
    {
        Iter::default().into_codes_b()
    }
}

impl Iterator for CodesB {
    type Item = &'static str;

    /// Gives the first code that is left.
    fn next(&mut self) -> (r: Option<&'static str>)
        ensures
            match r {
                Some(s) => old(self)@.len() > 0 && s@ == old(self)@[0] && final(self)@ == old(
                    self,
                )@.drop_first(),
                None => old(self)@.len() == 0 && final(self)@ == old(self)@,
            },
    {
        match self.inner.next() {
            Some(c) => {
                assert(self.items() =~= old(self).items().drop_first());
                assert(self@ =~= old(self)@.drop_first());
                Some(c.code_b())
            },
            None => None,
        }
    }

    /// Passes over `n` codes and gives the one after them.
    fn nth(&mut self, n: usize) -> (r: Option<&'static str>)
        ensures
            match r {
                Some(s) => n < old(self)@.len() && s@ == old(self)@[n as int] && final(self)@
                    == old(self)@.skip(n + 1),
                None => n >= old(self)@.len() && final(self)@ == Seq::<Seq<char>>::empty(),
            },
    {
        match self.inner.nth(n) {
            Some(c) => {
                assert(self@ =~= old(self)@.skip(n + 1));
                Some(c.code_b())
            },
            None => {
                assert(self@ =~= Seq::<Seq<char>>::empty());
                None
            },
        }
    }

    /// The number of codes that are left, as both bounds.
    fn size_hint(&self) -> (r: (usize, Option<usize>))
        ensures
            r.0 == self@.len(),
            r.1 == Some(r.0),
    {
        self.inner.size_hint()
    }

    /// The number of codes that are left.
    fn count(self) -> (n: usize)
        ensures
            n == self@.len(),
    {
        self.inner.count()
    }

    /// The last code that is left.
    fn last(self) -> (r: Option<&'static str>)
        ensures
            match r {
                Some(s) => self@.len() > 0 && s@ == self@.last(),
                None => self@.len() == 0,
            },
    {
        match self.inner.last() {
            Some(c) => Some(c.code_b()),
            None => None,
        }
    }
}

impl vstd::std_specs::iter::IteratorSpecImpl for CodesB {
    open spec fn obeys_prophetic_iter_laws(&self) -> bool {
        true
    }

    open spec fn remaining(&self) -> Seq<&'static str> {
        self.items()
    }

    open spec fn will_return_none(&self) -> bool {
        true
    }

    open spec fn decrease(&self) -> Option<nat> {
        Some(self.items().len())
    }

    open spec fn initial_value_relation(&self, init: &Self) -> bool {
        self.items() == init.items()
    }

    open spec fn peek(&self, index: int) -> Option<&'static str> {
        if 0 <= index < self.items().len() {
            Some(self.items()[index])
        } else {
            None
        }
    }
}

impl DoubleEndedIterator for CodesB {
    /// Gives the last code that is left.
    fn next_back(&mut self) -> (r: Option<&'static str>)
        ensures
            match r {
                Some(s) => old(self)@.len() > 0 && s@ == old(self)@.last() && final(self)@ == old(
                    self,
                )@.drop_last(),
                None => old(self)@.len() == 0 && final(self)@ == old(self)@,
            },
    {
        match self.inner.next_back() {
            Some(c) => {
                assert(self.items() =~= old(self).items().drop_last());
                assert(self@ =~= old(self)@.drop_last());
                Some(c.code_b())
            },
            None => None,
        }
    }

    /// Passes over the last `n` codes and gives the one before them.
    fn nth_back(&mut self, n: usize) -> (r: Option<&'static str>)
        ensures
            match r {
                Some(s) => n < old(self)@.len() && s@ == old(self)@[old(self)@.len() - 1 - n]
                    && final(self)@ == old(self)@.take(old(self)@.len() - 1 - n),
                None => n >= old(self)@.len() && final(self)@ == Seq::<Seq<char>>::empty(),
            },
    {
        match self.inner.nth_back(n) {
            Some(c) => {
                assert(self@ =~= old(self)@.take(old(self)@.len() - 1 - n));
                Some(c.code_b())
            },
            None => {
                assert(self@ =~= Seq::<Seq<char>>::empty());
                None
            },
        }
    }
}

impl vstd::std_specs::iter::DoubleEndedIteratorSpecImpl for CodesB {
    open spec fn peek_back(&self, index: int) -> Option<&'static str> {
        if 0 <= index < self.items().len() {
            Some(self.items()[self.items().len() - 1 - index])
        } else {
            None
        }
    }
}

impl ExactSizeIterator for CodesB {
    /// The number of codes that are left.
    fn len(&self) -> (n: usize)
        ensures
            n == self@.len(),
    {
        self.inner.len()
    }
}

impl core::iter::FusedIterator for CodesB {}

/// A cursor over every language family, in alphabetical order.
#[derive(Debug)]
pub struct Families {
    window: Window,
}

impl Families {
    #[verifier::type_invariant]
    spec fn in_table(self) -> bool {
        self.window.front <= self.window.back <= 26
    }

    /// The names that the cursor has yet to give, as the strings that `next`
    /// gives.
    pub closed spec fn items(self) -> Seq<&'static str> {
        FAMILIES@.subrange(self.window.front as int, self.window.back as int)
    }
}

impl View for Families {
    type V = Seq<Seq<char>>;

    /// The names that the cursor has yet to give, in the order in which
    /// `next` gives them.
    open spec fn view(&self) -> Seq<Seq<char>> {
        self.items().map_values(|s: &'static str| s@)
    }
}

impl Clone for Families {
    /// A second cursor at the same place, which moves on its own.
    fn clone(&self) -> (it: Self)
        ensures
            it@ == self@,
    {
        proof {
            use_type_invariant(self);
        }
        Families { window: self.window }
    }
}

impl Default for Families {
    /// A cursor that has every family yet to give.
    fn default() -> (it: Self)
        ensures
            it@ == family_names(),
    {
        let it = Families { window: Window::new(FAMILY_COUNT) };
        assert(it.items() =~= FAMILIES@);
        assert(it@ =~= family_names());
        it
    }
}

impl Iterator for Families {
    type Item = &'static str;

    /// Gives the first name that is left.
    fn next(&mut self) -> (r: Option<&'static str>)
        ensures
            match r {
                Some(s) => old(self)@.len() > 0 && s@ == old(self)@[0] && final(self)@ == old(
                    self,
                )@.drop_first(),
                None => old(self)@.len() == 0 && final(self)@ == old(self)@,
            },
    {
        proof {
            use_type_invariant(&*self);
        }
        match self.window.pop_front() {
            Some(i) => {
                assert(self.items() =~= old(self).items().drop_first());
                assert(self@ =~= old(self)@.drop_first());
                Some(FAMILIES[i])
            },
            None => None,
        }
    }

    /// Passes over `n` names and gives the one after them.
    fn nth(&mut self, n: usize) -> (r: Option<&'static str>)
        ensures
            match r {
                Some(s) => n < old(self)@.len() && s@ == old(self)@[n as int] && final(self)@
                    == old(self)@.skip(n + 1),
                None => n >= old(self)@.len() && final(self)@ == Seq::<Seq<char>>::empty(),
            },
    {
        proof {
            use_type_invariant(&*self);
        }
        match self.window.skip_front(n) {
            Some(i) => {
                assert(self.items() =~= old(self).items().skip(n + 1));
                assert(self@ =~= old(self)@.skip(n + 1));
                Some(FAMILIES[i])
            },
            None => {
                assert(self@ =~= Seq::<Seq<char>>::empty());
                None
            },
        }
    }

    /// The number of names that are left, as both bounds.
    fn size_hint(&self) -> (r: (usize, Option<usize>))
        ensures
            r.0 == self@.len(),
            r.1 == Some(r.0),
    {
        let n = self.len();
        (n, Some(n))
    }

    /// The number of names that are left.
    fn count(self) -> (n: usize)
        ensures
            n == self@.len(),
    {
        self.len()
    }

    /// The last name that is left.
    fn last(self) -> (r: Option<&'static str>)
        ensures
            match r {
                Some(s) => self@.len() > 0 && s@ == self@.last(),
                None => self@.len() == 0,
            },
    {
        let mut it = self;
        it.next_back()
    }
}

impl vstd::std_specs::iter::IteratorSpecImpl for Families {
    open spec fn obeys_prophetic_iter_laws(&self) -> bool {
        true
    }

    open spec fn remaining(&self) -> Seq<&'static str> {
        self.items()
    }

    open spec fn will_return_none(&self) -> bool {
        true
    }

    open spec fn decrease(&self) -> Option<nat> {
        Some(self.items().len())
    }

    open spec fn initial_value_relation(&self, init: &Self) -> bool {
        self.items() == init.items()
    }

    open spec fn peek(&self, index: int) -> Option<&'static str> {
        if 0 <= index < self.items().len() {
            Some(self.items()[index])
        } else {
            None
        }
    }
}

impl DoubleEndedIterator for Families {
    /// Gives the last name that is left.
    fn next_back(&mut self) -> (r: Option<&'static str>)
        ensures
            match r {
                Some(s) => old(self)@.len() > 0 && s@ == old(self)@.last() && final(self)@ == old(
                    self,
                )@.drop_last(),
                None => old(self)@.len() == 0 && final(self)@ == old(self)@,
            },
    {
        proof {
            use_type_invariant(&*self);
        }
        match self.window.pop_back() {
            Some(i) => {
                assert(self.items() =~= old(self).items().drop_last());
                assert(self@ =~= old(self)@.drop_last());
                Some(FAMILIES[i])
            },
            None => None,
        }
    }

    /// Passes over the last `n` names and gives the one before them.
    fn nth_back(&mut self, n: usize) -> (r: Option<&'static str>)
        ensures
            match r {
                Some(s) => n < old(self)@.len() && s@ == old(self)@[old(self)@.len() - 1 - n]
                    && final(self)@ == old(self)@.take(old(self)@.len() - 1 - n),
                None => n >= old(self)@.len() && final(self)@ == Seq::<Seq<char>>::empty(),
            },
    {
        proof {
            use_type_invariant(&*self);
        }
        match self.window.skip_back(n) {
            Some(i) => {
                assert(self@ =~= old(self)@.take(old(self)@.len() - 1 - n));
                Some(FAMILIES[i])
            },
            None => {
                assert(self@ =~= Seq::<Seq<char>>::empty());
                None
            },
        }
    }
}

impl vstd::std_specs::iter::DoubleEndedIteratorSpecImpl for Families {
    open spec fn peek_back(&self, index: int) -> Option<&'static str> {
        if 0 <= index < self.items().len() {
            Some(self.items()[self.items().len() - 1 - index])
        } else {
            None
        }
    }
}

impl ExactSizeIterator for Families {
    /// The number of names that are left.
    fn len(&self) -> (n: usize)
        ensures
            n == self@.len(),
    {
        proof {
            use_type_invariant(self);
        }
        self.window.len()
    }
}

impl core::iter::FusedIterator for Families {}

impl LanguageCode {
    /// Returns a cursor over every language, in canonical order.
    pub fn iter() -> (it: Iter)
        ensures
            it@ == LANGUAGE_CODES@,
    {
        Iter::default()
    }

    /// Returns a cursor over the two-letter code of every language, in
    /// canonical order.
    pub fn codes() -> (it: Codes)
        ensures
            it@ == codes_of(LANGUAGE_CODES@),
    {
        Codes::default()
    }

    /// Returns a cursor over the ISO 639-2/T code of every language, in
    /// canonical order.
    pub fn codes_t() -> (it: CodesT)
        ensures
            it@ == codes_t_of(LANGUAGE_CODES@),
    {
        CodesT::default()
    }

    /// Returns a cursor over the ISO 639-2/B code of every language, in
    /// canonical order.
    pub fn codes_b() -> (it: CodesB)
        ensures
            it@ == codes_b_of(LANGUAGE_CODES@),
    {
        CodesB::default()
    }

    /// Returns a cursor over every language family, in alphabetical order.
    pub fn families() -> (it: Families)
        ensures
            it@ == family_names(),
    {
        Families::default()
    }
}

/// Each of the three sequences of codes has one item for each of the 184
/// languages, and its item at a place is the code of the language at that
/// place.
pub proof fn lemma_codes_aligned(i: int)
    requires
        0 <= i < 184,
    ensures
        LANGUAGE_CODES@.len() == 184,
        codes_of(LANGUAGE_CODES@).len() == 184,
        codes_t_of(LANGUAGE_CODES@).len() == 184,
        codes_b_of(LANGUAGE_CODES@).len() == 184,
        codes_of(LANGUAGE_CODES@)[i] == LANGUAGE_CODES@[i].code_spec(),
        codes_t_of(LANGUAGE_CODES@)[i] == LANGUAGE_CODES@[i].code_t_spec(),
        codes_b_of(LANGUAGE_CODES@)[i] == LANGUAGE_CODES@[i].code_b_spec(),
{
}
} // verus!
