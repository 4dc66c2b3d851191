use vstd::prelude::*;

use crate::cell::{views_of, Cell, CellModel};

verus! {

/// The predicate by which a validator scopes its jurisdiction: a cell is
/// matched either by lock identity alone, or by lock identity together
/// with a required type identity.
pub enum MatchRule<'a> {
    Lock(&'a [u8]),
    LockAndType(&'a [u8], &'a [u8]),
}

/// Mathematical image of a [`MatchRule`].
pub ghost enum MatchRuleModel {
    Lock(Seq<u8>),
    LockAndType(Seq<u8>, Seq<u8>),
}

impl<'a> View for MatchRule<'a> {
    type V = MatchRuleModel;

    open spec fn view(&self) -> MatchRuleModel {
        match self {
            MatchRule::Lock(l) => MatchRuleModel::Lock(l@),
            MatchRule::LockAndType(l, t) => MatchRuleModel::LockAndType(l@, t@),
        }
    }
}

/// Whether one cell satisfies the rule.
pub open spec fn rule_matches(rule: MatchRuleModel, c: CellModel) -> bool {
    match rule {
        MatchRuleModel::Lock(l) => c.lock_hash == l,
        MatchRuleModel::LockAndType(l, t) => c.lock_hash == l && c.type_hash == Some(t),
    }
}

/// How many cells of the list satisfy the rule.
pub open spec fn match_count(rule: MatchRuleModel, cells: Seq<CellModel>) -> nat
    decreases cells.len(),
{
    if cells.len() == 0 {
        0
    } else {
        match_count(rule, cells.drop_last()) + if rule_matches(rule, cells.last()) {
            1nat
        } else {
            0nat
        }
    }
}

/// The set of indices whose cells satisfy the rule: the cells under the
/// executing script's jurisdiction.
pub open spec fn matching_indices(rule: MatchRuleModel, cells: Seq<CellModel>) -> Set<int> {
    Set::new(|i: int| 0 <= i < cells.len() && rule_matches(rule, cells[i]))
}

/// [`match_count`] is the number of matching indices, so a count other
/// than one means the rule singled out zero cells, or two or more.
pub proof fn lemma_match_count_is_indices_len(rule: MatchRuleModel, cells: Seq<CellModel>)
    ensures
        matching_indices(rule, cells).finite(),
        match_count(rule, cells) == matching_indices(rule, cells).len(),
    decreases cells.len(),
{
    if cells.len() == 0 {
        broadcast use vstd::set::axiom_set_empty_len;

        assert(matching_indices(rule, cells) =~= Set::<int>::empty());
    } else {
        let prefix = cells.drop_last();
        let last: int = cells.len() - 1;
        lemma_match_count_is_indices_len(rule, prefix);
        if rule_matches(rule, cells.last()) {
            assert(matching_indices(rule, cells) =~= matching_indices(rule, prefix).insert(last));
            vstd::set::axiom_set_insert_len(matching_indices(rule, prefix), last);
        } else {
            assert(matching_indices(rule, cells) =~= matching_indices(rule, prefix));
        }
    }
}

/// The index of the matching cell, meaningful when exactly one matches.
pub open spec fn the_match(rule: MatchRuleModel, cells: Seq<CellModel>) -> int {
    choose|i: int| 0 <= i < cells.len() && rule_matches(rule, cells[i])
}

/// A list with a matching cell has a positive match count.
pub proof fn lemma_match_count_at_least_one(rule: MatchRuleModel, cells: Seq<CellModel>, i: int)
    requires
        0 <= i < cells.len(),
        rule_matches(rule, cells[i]),
    ensures
        match_count(rule, cells) >= 1,
    decreases cells.len(),
{
    if i == cells.len() - 1 {
    } else {
        assert(cells.drop_last()[i] == cells[i]);
        lemma_match_count_at_least_one(rule, cells.drop_last(), i);
    }
}

/// A list with matching cells at two distinct indices has a match count
/// of at least two.
pub proof fn lemma_match_count_at_least_two(
    rule: MatchRuleModel,
    cells: Seq<CellModel>,
    i: int,
    j: int,
)
    requires
        0 <= i < j < cells.len(),
        rule_matches(rule, cells[i]),
        rule_matches(rule, cells[j]),
    ensures
        match_count(rule, cells) >= 2,
    decreases cells.len(),
{
    if j == cells.len() - 1 {
        assert(cells.drop_last()[i] == cells[i]);
        lemma_match_count_at_least_one(rule, cells.drop_last(), i);
    } else {
        assert(cells.drop_last()[i] == cells[i]);
        assert(cells.drop_last()[j] == cells[j]);
        lemma_match_count_at_least_two(rule, cells.drop_last(), i, j);
    }
}

/// When exactly one cell matches, any matching index is [`the_match`].
pub proof fn lemma_unique_match(rule: MatchRuleModel, cells: Seq<CellModel>, i: int)
    requires
        0 <= i < cells.len(),
        rule_matches(rule, cells[i]),
        match_count(rule, cells) == 1,
    ensures
        the_match(rule, cells) == i,
        0 <= the_match(rule, cells) < cells.len(),
        rule_matches(rule, cells[the_match(rule, cells)]),
{
    assert(exists|k: int| 0 <= k < cells.len() && rule_matches(rule, cells[k]));
    let t = the_match(rule, cells);
    if t < i {
        lemma_match_count_at_least_two(rule, cells, t, i);
    } else if i < t {
        lemma_match_count_at_least_two(rule, cells, i, t);
    }
}

/// Whether one cell satisfies the rule.
pub fn cell_matches(rule: &MatchRule<'_>, c: &Cell) -> (r: bool)
    ensures
        r == rule_matches(rule@, c@),
{
    match rule {
        MatchRule::Lock(l) => crate::cell::bytes_eq(c.lock_hash.as_slice(), l),
        MatchRule::LockAndType(l, t) => {
            let type_ok: bool = match &c.type_hash {
                Some(h) => crate::cell::bytes_eq(h.as_slice(), t),
                None => false,
            };
            crate::cell::bytes_eq(c.lock_hash.as_slice(), l) && type_ok
        },
    }
}

/// Linear scan for the single cell under the rule's jurisdiction.
///
/// Returns the index of the unique matching cell, or `None` when the
/// match count is anything other than one.
pub fn find_unique_match(rule: &MatchRule<'_>, cells: &Vec<Cell>) -> (r: Option<usize>)
    ensures
        match r {
            Some(i) => {
                &&& i < cells@.len()
                &&& rule_matches(rule@, views_of(cells@)[i as int])
                &&& match_count(rule@, views_of(cells@)) == 1
                &&& the_match(rule@, views_of(cells@)) == i
            },
            None => match_count(rule@, views_of(cells@)) != 1,
        },
{
    let ghost views = views_of(cells@);
    let n: usize = cells.len();
    let mut found: Option<usize> = None;
    let mut count: usize = 0;
    let mut i: usize = 0;
    while i < n
        invariant
            n == cells@.len(),
            views == views_of(cells@),
            views.len() == n,
            i <= n,
            count <= i,
            count == match_count(rule@, views.take(i as int)),
            match found {
                Some(j) => j < i && rule_matches(rule@, views[j as int]) && count >= 1,
                None => count == 0,
            },
        decreases n - i,
    {
        proof {
            assert(views.take(i + 1).drop_last() =~= views.take(i as int));
            assert(views.take(i + 1).last() == views[i as int]);
        }
        if cell_matches(rule, &cells[i]) {
            if count == 0 {
                found = Some(i);
            }
            count += 1;
        }
        i += 1;
    }
    proof {
        assert(views.take(n as int) =~= views);
    }
    if count == 1 {
        proof {
            let j = found->Some_0 as int;
            lemma_unique_match(rule@, views, j);
        }
        found
    } else {
        None
    }
}

} // verus!
