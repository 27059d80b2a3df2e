//! The checks of a report gathered by category.

use vstd::prelude::*;
use crate::report::CheckResult;
use crate::report::CheckView;
use crate::report::ComplianceReport;

verus! {

/// The checks of one category, in the order of the report.
#[derive(Debug, Clone)]
pub struct CategoryChecks<'a> {
    pub category: String,
    pub checks: Vec<&'a CheckResult>,
}

/// The checks of `checks` that stand under `category`, in order.
pub open spec fn in_category(checks: Seq<CheckView>, category: Seq<char>) -> Seq<CheckView> {
    checks.filter(|c: CheckView| c.category == category)
}

/// The categories of `checks`, each once, in the order in which they
/// first appear.
pub open spec fn categories_in_order(checks: Seq<CheckView>) -> Seq<Seq<char>>
    decreases checks.len(),
{
    if checks.len() == 0 {
        Seq::empty()
    } else {
        let before = categories_in_order(checks.drop_last());
        if before.contains(checks.last().category) {
            before
        } else {
            before.push(checks.last().category)
        }
    }
}

/// Whether a check of `checks` stands under `category`.
pub open spec fn has_category(checks: Seq<CheckView>, category: Seq<char>) -> bool {
    exists|k: int| 0 <= k < checks.len() && (#[trigger] checks[k]).category == category
}

/// The checks that `checks` refers to, each by its view.
pub open spec fn referred_views(checks: Seq<&CheckResult>) -> Seq<CheckView> {
    checks.map_values(|c: &CheckResult| c@)
}

/// Whether `groups` gathers `checks` by category: one group for each
/// category, in the order in which the categories first appear, and in
/// each group the checks of its category, in their order.
pub open spec fn gathers(groups: Seq<CategoryChecks>, checks: Seq<CheckView>) -> bool {
    &&& groups.len() == categories_in_order(checks).len()
    &&& forall|i: int|
        0 <= i < groups.len() ==> (#[trigger] groups[i]).category@ == categories_in_order(
            checks,
        )[i]
    &&& forall|i: int|
        0 <= i < groups.len() ==> referred_views((#[trigger] groups[i]).checks@) == in_category(
            checks,
            categories_in_order(checks)[i],
        )
}

/// No category is listed twice, every listed category is that of a check,
/// and the category of every check is listed.
pub proof fn law_categories_once(checks: Seq<CheckView>)
    ensures
        forall|i: int, j: int|
            0 <= i < j < categories_in_order(checks).len() ==> categories_in_order(checks)[i]
                != categories_in_order(checks)[j],
        forall|i: int|
            0 <= i < categories_in_order(checks).len() ==> has_category(
                checks,
                #[trigger] categories_in_order(checks)[i],
            ),
        forall|k: int|
            0 <= k < checks.len() ==> categories_in_order(checks).contains(
                (#[trigger] checks[k]).category,
            ),
    decreases checks.len(),
{
    if checks.len() > 0 {
        let rest = checks.drop_last();
        law_categories_once(rest);
        let before = categories_in_order(rest);
        let all = categories_in_order(checks);
        assert forall|i: int| 0 <= i < all.len() implies has_category(
            checks,
            #[trigger] all[i],
        ) by {
            if i < before.len() {
                assert(has_category(rest, before[i]));
                let k = choose|k: int|
                    0 <= k < rest.len() && (#[trigger] rest[k]).category == before[i];
                assert(checks[k].category == all[i]);
            } else {
                assert(checks[checks.len() - 1].category == all[i]);
            }
        }
        assert forall|k: int| 0 <= k < checks.len() implies all.contains(
            (#[trigger] checks[k]).category,
        ) by {
            if k < rest.len() {
                assert(before.contains(rest[k].category));
                let at = choose|at: int| 0 <= at < before.len() && before[at] == rest[k].category;
                assert(all[at] == checks[k].category);
            } else if before.contains(checks.last().category) {
            } else {
                assert(all[all.len() - 1] == checks[k].category);
            }
        }
    }
}

/// A category that no check stands under holds no checks.
proof fn lemma_unlisted_category_is_empty(checks: Seq<CheckView>, category: Seq<char>)
    requires
        !categories_in_order(checks).contains(category),
    ensures
        in_category(checks, category).len() == 0,
    decreases checks.len(),
{
    reveal(Seq::filter);
    law_categories_once(checks);
    if checks.len() > 0 {
        let rest = checks.drop_last();
        law_categories_once(rest);
        assert(categories_in_order(checks).contains(checks[checks.len() - 1].category));
        if categories_in_order(rest).contains(category) {
            let at = choose|at: int|
                0 <= at < categories_in_order(rest).len() && categories_in_order(rest)[at]
                    == category;
            assert(categories_in_order(checks)[at] == category);
        }
        lemma_unlisted_category_is_empty(rest, category);
    }
}

/// What a further check adds to the checks of a category.
proof fn lemma_in_category_push(checks: Seq<CheckView>, check: CheckView, category: Seq<char>)
    ensures
        in_category(checks.push(check), category) == if check.category == category {
            in_category(checks, category).push(check)
        } else {
            in_category(checks, category)
        },
{
    checks.lemma_filter_push(check, |c: CheckView| c.category == category);
}

/// Where the group of `category` stands in `groups`, if it is there.
fn find_group(groups: &Vec<CategoryChecks<'_>>, category: &String) -> (found: Option<usize>)
    ensures
        match found {
            Some(at) => at < groups.len() && groups[at as int].category@ == category@,
            None => forall|h: int|
                0 <= h < groups.len() ==> (#[trigger] groups[h]).category@ != category@,
        },
{
    let mut g: usize = 0;
    while g < groups.len()
        invariant
            g <= groups.len(),
            forall|h: int| 0 <= h < g ==> (#[trigger] groups[h]).category@ != category@,
        decreases groups.len() - g,
    {
        if groups[g].category == *category {
            return Some(g);
        }
        g += 1;
    }
    None
}

impl ComplianceReport {
    /// Get checks by category: one group for each category, in the order
    /// in which the categories first appear.
    pub fn checks_by_category(&self) -> (groups: Vec<CategoryChecks<'_>>)
        ensures
            gathers(groups@, self@.checks),
    {
        let mut groups: Vec<CategoryChecks<'_>> = Vec::new();
        let mut i: usize = 0;
        while i < self.checks.len()
            invariant
                i <= self.checks.len(),
                gathers(groups@, self@.checks.take(i as int)),
            decreases self.checks.len() - i,
        {
            let check = &self.checks[i];
            let ghost done = self@.checks.take(i as int);
            let ghost listed = categories_in_order(done);
            proof {
                assert(self@.checks.take(i + 1) == done.push(check@));
                assert(done.push(check@).drop_last() == done);
                law_categories_once(done);
            }
            match find_group(&groups, &check.category) {
                Some(at) => {
                    assert(listed[at as int] == check@.category);
                    assert(listed.contains(check@.category));
                    let mut group = groups.remove(at);
                    let ghost before = referred_views(group.checks@);
                    group.checks.push(check);
                    assert(referred_views(group.checks@) =~= before.push(check@));
                    groups.insert(at, group);
                    proof {
                        let next = done.push(check@);
                        assert(categories_in_order(next) == listed);
                        assert forall|h: int| 0 <= h < groups.len() implies referred_views(
                            (#[trigger] groups[h]).checks@,
                        ) == in_category(next, listed[h]) by {
                            lemma_in_category_push(done, check@, listed[h]);
                        }
                    }
                },
                None => {
                    proof {
                        assert(!listed.contains(check@.category)) by {
                            if listed.contains(check@.category) {
                                let at = choose|at: int|
                                    0 <= at < listed.len() && listed[at] == check@.category;
                                assert(groups[at].category@ == listed[at]);
                            }
                        }
                        lemma_unlisted_category_is_empty(done, check@.category);
                    }
                    let mut members: Vec<&CheckResult> = Vec::new();
                    members.push(check);
                    assert(referred_views(members@) =~= seq![check@]);
                    groups.push(
                        CategoryChecks { category: check.category.clone(), checks: members },
                    );
                    proof {
                        let next = done.push(check@);
                        assert(categories_in_order(next) == listed.push(check@.category));
                        assert forall|h: int| 0 <= h < groups.len() implies referred_views(
                            (#[trigger] groups[h]).checks@,
                        ) == in_category(next, categories_in_order(next)[h]) by {
                            lemma_in_category_push(done, check@, categories_in_order(next)[h]);
                            if h == groups.len() - 1 {
                                assert(in_category(done, check@.category) =~= Seq::empty());
                            }
                        }
                    }
                },
            }
            i += 1;
        }
        assert(self@.checks.take(i as int) == self@.checks);
        groups
    }
}

} // verus!
