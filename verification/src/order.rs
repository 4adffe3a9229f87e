//! The order of the languages: canonical order.

use crate::language::LanguageCode;
use core::cmp::Ordering;
use vstd::prelude::*;
use vstd::std_specs::cmp::PartialOrdSpec;

verus! {

impl PartialOrd for LanguageCode {
    /// Compares two languages by their places in canonical order.
    fn partial_cmp(&self, other: &Self) -> (r: Option<Ordering>) {
        let a = self.index();
        let b = other.index();
        if a < b {
            Some(Ordering::Less)
        } else if a == b {
            Some(Ordering::Equal)
        } else {
            Some(Ordering::Greater)
        }
    }
}

impl vstd::std_specs::cmp::PartialOrdSpecImpl for LanguageCode {
    open spec fn obeys_partial_cmp_spec() -> bool {
        true
    }

    /// A language is less than another when it stands before it in canonical
    /// order.
    open spec fn partial_cmp_spec(&self, other: &Self) -> Option<Ordering> {
        if self.position() < other.position() {
            Some(Ordering::Less)
        } else if self.position() == other.position() {
            Some(Ordering::Equal)
        } else {
            Some(Ordering::Greater)
        }
    }
}

/// Two languages at the same place in canonical order are the same language,
/// so of two different languages one is less than the other.
pub proof fn lemma_order_total(a: LanguageCode, b: LanguageCode)
    ensures
        a.position() == b.position() <==> a == b,
        a.partial_cmp_spec(&b) == Some(Ordering::Equal) <==> a == b,
{
    crate::language::lemma_language_listed(a);
    crate::language::lemma_language_listed(b);
}

} // verus!
