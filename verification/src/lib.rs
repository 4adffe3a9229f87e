//! The languages of ISO 639-1: their two-letter codes, their three-letter
//! ISO 639-2 codes in the T and the B form, their English names and the
//! families they belong to.
//!
//! [`LanguageCode`] names a language. Its methods look its row up in the
//! registry, [`LanguageCode::parse`] reads it from its two-letter code, and the
//! cursors of [`iter`] walk the languages, their codes and the families.

pub mod family;
pub mod iter;
pub mod language;
pub mod order;
pub mod parse;

pub use crate::family::{FAMILIES, FAMILY_COUNT};
pub use crate::iter::{Codes, CodesB, CodesT, Families, Iter};
pub use crate::language::{LanguageCode, LanguageEntry, LANGUAGES, LANGUAGE_CODES, LANGUAGE_COUNT};
pub use crate::parse::ParseError;
