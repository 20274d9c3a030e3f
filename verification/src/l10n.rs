//! The localized string catalog boundary.
//!
//! The catalog data is an external input; this module models the one slice
//! of it this subsystem reads: the per-locale "summary" string the link
//! renderer uses as the title of a placeholder for a missing page.

use vstd::prelude::*;
use crate::locale::Locale;

verus! {

/// One catalog entry: the "summary" string for one locale.
pub struct L10nEntry {
    pub locale: Locale,
    pub summary: String,
}

/// The localized string catalog, consulted read-only. The first entry for a
/// locale decides its summary string.
pub struct L10nCatalog {
    pub entries: Vec<L10nEntry>,
}

/// The summary of the first entry of `entries` for `locale`, if any.
pub open spec fn summary_from(entries: Seq<L10nEntry>, locale: Locale) -> Option<Seq<char>>
    decreases entries.len(),
{
    if entries.len() == 0 {
        None
    } else if entries[0].locale == locale {
        Some(entries[0].summary@)
    } else {
        summary_from(entries.drop_first(), locale)
    }
}

impl L10nCatalog {
    /// The "summary" string this catalog holds for `locale`, if any.
    pub open spec fn spec_summary(self, locale: Locale) -> Option<Seq<char>> {
        summary_from(self.entries@, locale)
    }

    /// The localized placeholder title for `locale`: the catalog's summary
    /// string, or the empty string when the lookup is absent.
    pub open spec fn spec_summary_or_empty(self, locale: Locale) -> Seq<char> {
        match self.spec_summary(locale) {
            Some(s) => s,
            None => Seq::empty(),
        }
    }

    /// Looks up the "summary" string for `locale`.
    pub fn summary(&self, locale: Locale) -> (r: Option<&String>)
        ensures
            match r {
                Some(s) => self.spec_summary(locale) == Some(s@),
                None => self.spec_summary(locale) is None,
            },
    {
        let n = self.entries.len();
        let mut i: usize = 0;
        proof {
            assert(self.entries@.skip(0) =~= self.entries@);
        }
        while i < n
            invariant
                n == self.entries@.len(),
                i <= n,
                self.spec_summary(locale) == summary_from(self.entries@.skip(i as int), locale),
            decreases n - i,
        {
            proof {
                let tail = self.entries@.skip(i as int);
                assert(tail[0] == self.entries@[i as int]);
                assert(tail.drop_first() =~= self.entries@.skip(i + 1));
            }
            if self.entries[i].locale == locale {
                return Some(&self.entries[i].summary);
            }
            i = i + 1;
        }
        proof {
            assert(self.entries@.skip(n as int) =~= Seq::<L10nEntry>::empty());
        }
        None
    }
}

} // verus!
