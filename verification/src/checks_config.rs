//! The configuration of a scoring run: which checks it holds, in which
//! order, and how many points they are worth together.

use crate::check::{Check, CheckView};
use crate::models::{FileExists, FileLineContains};
use vstd::prelude::*;

verus! {

/// The checks of a configuration, by category. A category that the
/// configuration does not name is `None` and counts as empty.
#[derive(Debug)]
pub struct ChecksConfig {
    pub file_exists: Option<Vec<FileExists>>,
    pub file_line_contains: Option<Vec<FileLineContains>>,
}

/// The records of one category: those listed, or none where the category is
/// absent.
pub open spec fn listed<T>(category: Option<Vec<T>>) -> Seq<T> {
    match category {
        Some(records) => records@,
        None => Seq::<T>::empty(),
    }
}

impl ChecksConfig {
    /// The checks that the configuration describes: those on a file's
    /// presence first, then those on a line of a file, each category in the
    /// order in which it lists them.
    pub open spec fn checks(self) -> Seq<CheckView> {
        listed(self.file_exists).map_values(|record: FileExists| record.check()) + listed(
            self.file_line_contains,
        ).map_values(|record: FileLineContains| record.check())
    }
}

/// The sum of the points of all checks, met or not.
pub open spec fn max_points(checks: Seq<CheckView>) -> int
    decreases checks.len(),
{
    if checks.len() == 0 {
        0
    } else {
        max_points(checks.drop_last()) + checks.last().points
    }
}

/// The points of all checks, summed in a type wide enough for any number of
/// them.
fn points_sum(checks: &Vec<Check>) -> (total: i128)
    ensures
        total == max_points(checks.deep_view()),
{
    let mut total: i128 = 0;
    let mut at: usize = 0;
    proof {
        assert(checks.deep_view().take(0) =~= Seq::<CheckView>::empty());
    }
    while at < checks.len()
        invariant
            at <= checks@.len(),
            total == max_points(checks.deep_view().take(at as int)),
            at * i32::MIN <= total <= at * i32::MAX,
        decreases checks@.len() - at,
    {
        proof {
            let models = checks.deep_view();
            assert(models.take(at + 1).drop_last() =~= models.take(at as int));
            assert(models.take(at + 1).last() == checks@[at as int]@);
        }
        total = total + checks[at].points as i128;
        at += 1;
    }
    proof {
        assert(checks.deep_view().take(at as int) =~= checks.deep_view());
    }
    total
}

/// The most points that the checks can earn: the sum of their points,
/// whether they are met or not. The sum has to fit the result.
pub fn get_max_points(checks: &Vec<Check>) -> (max: i32)
    requires
        i32::MIN <= max_points(checks.deep_view()) <= i32::MAX,
    ensures
        max == max_points(checks.deep_view()),
{
    points_sum(checks) as i32
}

/// The most points that the checks can earn, or `None` where the sum does
/// not fit the result.
pub fn checked_max_points(checks: &Vec<Check>) -> (max: Option<i32>)
    ensures
        max is Some <==> i32::MIN <= max_points(checks.deep_view()) <= i32::MAX,
        max matches Some(sum) ==> sum == max_points(checks.deep_view()),
{
    let total = points_sum(checks);
    if total < i32::MIN as i128 || total > i32::MAX as i128 {
        None
    } else {
        Some(total as i32)
    }
}

/// The checks of a configuration, none of them met yet: those on a file's
/// presence first, then those on a line of a file, each category in its own
/// order.
pub fn get_checks(checks_config: ChecksConfig) -> (checks: Vec<Check>)
    ensures
        checks.deep_view() == checks_config.checks(),
{
    let ghost presence = listed(checks_config.file_exists).map_values(
        |record: FileExists| record.check(),
    );
    let ghost lines = listed(checks_config.file_line_contains).map_values(
        |record: FileLineContains| record.check(),
    );
    let mut checks: Vec<Check> = Vec::new();
    if let Some(file_exists) = checks_config.file_exists {
        for record in it: file_exists
            invariant
                it.seq().map_values(|record: FileExists| record.check()) == presence,
                checks.deep_view() == presence.take(it.index()),
        {
            let ghost before = checks.deep_view();
            assert(before.len() == checks@.len());
            checks.push(record.into_check());
            assert(checks.deep_view() =~= before.push(presence[it.index()]));
            assert(checks.deep_view() =~= presence.take(it.index() + 1));
        }
    }
    assert(checks.deep_view() =~= presence);
    if let Some(file_line_contains) = checks_config.file_line_contains {
        for record in it: file_line_contains
            invariant
                it.seq().map_values(|record: FileLineContains| record.check()) == lines,
                checks.deep_view() == presence + lines.take(it.index()),
        {
            let ghost before = checks.deep_view();
            assert(before.len() == checks@.len());
            checks.push(record.into_check());
            assert(checks.deep_view() =~= before.push(lines[it.index()]));
            assert(checks.deep_view() =~= presence + lines.take(it.index() + 1));
        }
    }
    assert(checks.deep_view() =~= presence + lines);
    checks
}

/// The points of two lists taken together are the points of the one plus
/// the points of the other.
pub proof fn lemma_max_points_of_concatenation(first: Seq<CheckView>, second: Seq<CheckView>)
    ensures
        max_points(first + second) == max_points(first) + max_points(second),
    decreases second.len(),
{
    if second.len() == 0 {
        assert(first + second =~= first);
    } else {
        assert((first + second).drop_last() =~= first + second.drop_last());
        lemma_max_points_of_concatenation(first, second.drop_last());
    }
}

/// The most points that can be earned depend on the points of the checks
/// alone: not on which checks are met, nor on anything else about them.
pub proof fn lemma_max_points_depends_on_points_only(
    checks: Seq<CheckView>,
    others: Seq<CheckView>,
)
    requires
        checks.len() == others.len(),
        forall|i: int| 0 <= i < checks.len() ==> checks[i].points == others[i].points,
    ensures
        max_points(checks) == max_points(others),
    decreases checks.len(),
{
    if checks.len() > 0 {
        lemma_max_points_depends_on_points_only(checks.drop_last(), others.drop_last());
    }
}

} // verus!
