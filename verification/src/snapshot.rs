//! A snapshot of a repository: the facts read about each path that was
//! looked at. A path that was never recorded counts as missing.

use vstd::prelude::*;
use crate::inspect::FactsView;
use crate::inspect::PathFacts;

verus! {

/// The facts read about one path.
#[derive(Debug, Clone)]
pub struct PathRecord {
    pub path: String,
    pub facts: PathFacts,
}

/// The facts read about the paths of one repository, in the order in which
/// they were recorded. Of two records for one path the later one counts.
#[derive(Debug)]
pub struct RepositorySnapshot {
    pub records: Vec<PathRecord>,
}

/// The facts by path that `records` hold.
pub open spec fn recorded(records: Seq<PathRecord>) -> Map<Seq<char>, FactsView>
    decreases records.len(),
{
    if records.len() == 0 {
        Map::empty()
    } else {
        recorded(records.drop_last()).insert(records.last().path@, records.last().facts@)
    }
}

/// The facts that `files` holds about `path`: those recorded, or those of a
/// missing path.
pub open spec fn facts_at(files: Map<Seq<char>, FactsView>, path: Seq<char>) -> FactsView {
    if files.dom().contains(path) {
        files[path]
    } else {
        FactsView::missing()
    }
}

impl View for RepositorySnapshot {
    type V = Map<Seq<char>, FactsView>;

    open spec fn view(&self) -> Map<Seq<char>, FactsView> {
        recorded(self.records@)
    }
}

impl RepositorySnapshot {
    /// The snapshot of a repository in which nothing was found.
    pub fn new() -> (snapshot: Self)
        ensures
            snapshot@ == Map::<Seq<char>, FactsView>::empty(),
    {
        RepositorySnapshot { records: Vec::new() }
    }

    /// Record what was read about `path`, in place of anything recorded
    /// about it before.
    pub fn record(&mut self, path: String, facts: PathFacts)
        ensures
            final(self)@ == old(self)@.insert(path@, facts@),
    {
        self.records.push(PathRecord { path, facts });
        assert(self.records@.drop_last() == old(self).records@);
    }

    /// The facts recorded about `path`; those of a missing path where none
    /// were.
    pub fn facts_for(&self, path: &str) -> (facts: PathFacts)
        ensures
            facts@ == facts_at(self@, path@),
    {
        let wanted = path.to_owned();
        let mut i: usize = self.records.len();
        assert(self.records@.take(i as int) == self.records@);
        while i > 0
            invariant
                i <= self.records.len(),
                wanted@ == path@,
                facts_at(recorded(self.records@.take(i as int)), path@) == facts_at(
                    self@,
                    path@,
                ),
            decreases i,
        {
            assert(self.records@.take(i as int).drop_last() == self.records@.take(i - 1));
            if self.records[i - 1].path == wanted {
                return self.records[i - 1].facts.duplicate();
            }
            i -= 1;
        }
        PathFacts::missing()
    }
}

} // verus!
