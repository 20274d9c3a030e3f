//! The page store boundary: resolving a URL path to a page handle.
//!
//! Loading and caching page content is owned by an external collaborator;
//! this module models that collaborator at its interface: a table of what
//! the store answers for each URL path. A lookup either finds the page,
//! fails for an infrastructure (I/O) reason, or finds nothing.

use vstd::prelude::*;

verus! {

/// A resolved document: its canonical URL and its title. Produced by the
/// page store, consumed read-only here.
#[derive(Debug)]
pub struct Page {
    pub url: String,
    pub title: String,
}

impl Page {
    /// A copy of this page, equal to it field by field.
    pub fn duplicate(&self) -> (p: Page)
        ensures
            p == *self,
    {
        Page { url: self.url.clone(), title: self.title.clone() }
    }
}

/// What the page store answers for one URL path: the page, an
/// infrastructure failure, or nothing.
#[derive(Debug)]
pub enum StoreOutcome {
    /// The store loaded the page.
    Found(Page),
    /// The store failed for an infrastructure (I/O) reason.
    IoFail,
    /// The store has no page at the path.
    Missing,
}

impl StoreOutcome {
    /// A copy of this outcome, equal to it field by field.
    pub fn duplicate(&self) -> (o: StoreOutcome)
        ensures
            o == *self,
    {
        match self {
            StoreOutcome::Found(page) => StoreOutcome::Found(page.duplicate()),
            StoreOutcome::IoFail => StoreOutcome::IoFail,
            StoreOutcome::Missing => StoreOutcome::Missing,
        }
    }
}

/// One answer of the page store: a URL path and what loading it yields.
pub struct StoreEntry {
    pub url: String,
    pub outcome: StoreOutcome,
}

/// The page store at its interface boundary: what it answers for each URL
/// path. The first entry whose `url` matches decides; a path with no entry
/// has no page.
pub struct PageStore {
    pub entries: Vec<StoreEntry>,
}

/// The outcome of the first entry of `entries` whose `url` is `url`, or
/// `Missing` when none matches.
pub open spec fn load_from(entries: Seq<StoreEntry>, url: Seq<char>) -> StoreOutcome
    decreases entries.len(),
{
    if entries.len() == 0 {
        StoreOutcome::Missing
    } else if entries[0].url@ == url {
        entries[0].outcome
    } else {
        load_from(entries.drop_first(), url)
    }
}

impl PageStore {
    /// What this store answers for `url`.
    pub open spec fn spec_load(self, url: Seq<char>) -> StoreOutcome {
        load_from(self.entries@, url)
    }

    /// Loads the page at `url`: the store's answer for that path.
    pub fn load(&self, url: &str) -> (r: StoreOutcome)
        ensures
            r == self.spec_load(url@),
    {
        let target: String = url.to_owned();
        let n = self.entries.len();
        let mut i: usize = 0;
        proof {
            assert(self.entries@.skip(0) =~= self.entries@);
        }
        while i < n
            invariant
                n == self.entries@.len(),
                i <= n,
                target@ == url@,
                self.spec_load(url@) == load_from(self.entries@.skip(i as int), url@),
            decreases n - i,
        {
            proof {
                let tail = self.entries@.skip(i as int);
                assert(tail[0] == self.entries@[i as int]);
                assert(tail.drop_first() =~= self.entries@.skip(i + 1));
            }
            if self.entries[i].url.eq(&target) {
                return self.entries[i].outcome.duplicate();
            }
            i = i + 1;
        }
        proof {
            assert(self.entries@.skip(n as int) =~= Seq::<StoreEntry>::empty());
        }
        StoreOutcome::Missing
    }
}

} // verus!
