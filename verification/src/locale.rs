//! The closed set of locales the documentation build supports.

use vstd::prelude::*;

verus! {

/// A supported language/region tag. The set is closed; [`Locale::spec_default`]
/// names the locale used whenever a caller supplies none.
#[derive(Clone, Copy, PartialEq, Eq, Structural, Debug)]
pub enum Locale {
    EnUs,
    De,
    Es,
    Fr,
    Ja,
    Ko,
    PtBr,
    Ru,
    ZhCn,
    ZhTw,
}

impl Locale {
    /// The process-wide default locale.
    pub open spec fn spec_default() -> Locale {
        Locale::EnUs
    }
}

impl Default for Locale {
    fn default() -> (r: Locale)
        ensures
            r == Locale::spec_default(),
    {
        Locale::EnUs
    }
}

/// The locale a call actually uses: the one supplied, or the process default.
pub open spec fn spec_resolve_locale(locale: Option<Locale>) -> Locale {
    match locale {
        Some(l) => l,
        None => Locale::spec_default(),
    }
}

/// Resolves an optional locale to a concrete one before any localized lookup.
pub fn resolve_locale(locale: Option<Locale>) -> (r: Locale)
    ensures
        r == spec_resolve_locale(locale),
{
    match locale {
        Some(l) => l,
        None => Locale::default(),
    }
}

} // verus!
