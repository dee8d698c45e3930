//! The walk through the hierarchy of groups: a list of the groups that are
//! still to visit, worked off from its end.

use vstd::prelude::*;
use crate::types::Group;

verus! {

/// The groups that are known and not visited yet. The walk assumes that the
/// hierarchy is a tree: a group that two groups list as their subgroup is
/// visited twice.
pub struct Walker {
    to_visit: Vec<Group>,
}

impl Walker {
    /// The groups that are still to visit; the last one is visited next.
    pub closed spec fn pending(&self) -> Seq<Group> {
        self.to_visit@
    }

    /// A walk that starts at `root`.
    pub fn new(root: Group) -> (walker: Walker)
        ensures
            walker.pending() == seq![root],
    {
        let mut to_visit: Vec<Group> = Vec::new();
        to_visit.push(root);
        Walker { to_visit }
    }

    /// Whether every known group has been visited.
    pub fn is_done(&self) -> (done: bool)
        ensures
            done == (self.pending().len() == 0),
    {
        self.to_visit.len() == 0
    }

    /// How many groups are still to visit.
    pub fn remaining(&self) -> (count: usize)
        ensures
            count == self.pending().len(),
    {
        self.to_visit.len()
    }

    /// The group to visit next, which is then no longer pending; none where
    /// the walk is done.
    pub fn next_group(&mut self) -> (group: Option<Group>)
        ensures
            old(self).pending().len() == 0 ==> group is None && final(self).pending() == old(
                self,
            ).pending(),
            old(self).pending().len() > 0 ==> group == Some(old(self).pending().last())
                && final(self).pending() == old(self).pending().drop_last(),
    {
        self.to_visit.pop()
    }

    /// Makes the subgroups of the group just visited known: they are visited
    /// before any group that was pending, the last of them first.
    pub fn add_subgroups(&mut self, subgroups: Vec<Group>)
        ensures
            final(self).pending() == old(self).pending() + subgroups@,
    {
        let mut subgroups = subgroups;
        self.to_visit.append(&mut subgroups);
    }
}

/// A hierarchy of groups: a group, and the hierarchies of its subgroups.
pub struct Hierarchy {
    pub group: Group,
    pub subgroups: Seq<Hierarchy>,
}

/// The groups of a hierarchy, each listed once, in the order of a walk: the
/// group itself, then the hierarchies of its subgroups, the last one first.
pub open spec fn groups_in(hierarchy: Hierarchy) -> Seq<Group>
    decreases hierarchy,
{
    seq![hierarchy.group] + groups_in_all(hierarchy.subgroups)
}

/// The groups of several hierarchies, the last hierarchy first.
pub open spec fn groups_in_all(hierarchies: Seq<Hierarchy>) -> Seq<Group>
    decreases hierarchies,
{
    if hierarchies.len() == 0 {
        Seq::empty()
    } else {
        groups_in(hierarchies.last()) + groups_in_all(hierarchies.drop_last())
    }
}

/// The groups of hierarchies listed one after the other are those of the
/// later ones, then those of the earlier ones.
pub proof fn lemma_groups_in_all_of_both(earlier: Seq<Hierarchy>, later: Seq<Hierarchy>)
    ensures
        groups_in_all(earlier + later) == groups_in_all(later) + groups_in_all(earlier),
    decreases later.len(),
{
    if later.len() > 0 {
        let both = earlier + later;
        assert(both.drop_last() =~= earlier + later.drop_last());
        lemma_groups_in_all_of_both(earlier, later.drop_last());
    }
}

/// How many groups a hierarchy has.
pub open spec fn size_of(hierarchy: Hierarchy) -> nat
    decreases hierarchy,
{
    1 + size_of_all(hierarchy.subgroups)
}

/// How many groups several hierarchies have together.
pub open spec fn size_of_all(hierarchies: Seq<Hierarchy>) -> nat
    decreases hierarchies,
{
    if hierarchies.len() == 0 {
        0
    } else {
        size_of(hierarchies.last()) + size_of_all(hierarchies.drop_last())
    }
}

/// Hierarchies listed one after the other have the groups of both.
pub proof fn lemma_size_of_both(earlier: Seq<Hierarchy>, later: Seq<Hierarchy>)
    ensures
        size_of_all(earlier + later) == size_of_all(earlier) + size_of_all(later),
    decreases later.len(),
{
    if later.len() > 0 {
        let both = earlier + later;
        assert(both.drop_last() =~= earlier + later.drop_last());
        lemma_size_of_both(earlier, later.drop_last());
    }
}

/// The groups in the order in which a walk visits them, where the
/// hierarchies below the pending groups are `pending`: the last pending group
/// is visited, its subgroups become pending behind the others, and so on
/// until nothing is pending.
pub open spec fn walk(pending: Seq<Hierarchy>) -> Seq<Group>
    decreases size_of_all(pending),
    via walk_decreases
{
    if pending.len() == 0 {
        Seq::empty()
    } else {
        seq![pending.last().group] + walk(pending.drop_last() + pending.last().subgroups)
    }
}

#[via_fn]
proof fn walk_decreases(pending: Seq<Hierarchy>) {
    if pending.len() > 0 {
        lemma_size_of_both(pending.drop_last(), pending.last().subgroups);
        assert(size_of_all(pending) == size_of(pending.last()) + size_of_all(pending.drop_last()));
    }
}

/// A walk visits every group of the hierarchies below the pending groups
/// exactly once: the groups it visits, in its order, are the groups of those
/// hierarchies, each listed once.
pub proof fn lemma_walk_visits_each_group_once(pending: Seq<Hierarchy>)
    ensures
        walk(pending) == groups_in_all(pending),
    decreases size_of_all(pending),
{
    if pending.len() > 0 {
        let next = pending.last();
        let rest = pending.drop_last();
        lemma_size_of_both(rest, next.subgroups);
        assert(size_of_all(pending) == size_of(next) + size_of_all(rest));
        lemma_walk_visits_each_group_once(rest + next.subgroups);
        lemma_groups_in_all_of_both(rest, next.subgroups);
        assert(groups_in_all(pending) == groups_in(next) + groups_in_all(rest));
    }
}

/// A walk from the root of a tree visits every group of the tree exactly
/// once.
pub proof fn lemma_walk_from_root(root: Hierarchy)
    ensures
        walk(seq![root]) == groups_in(root),
{
    let alone = seq![root];
    lemma_walk_visits_each_group_once(alone);
    assert(groups_in_all(alone) == groups_in(root) + groups_in_all(alone.drop_last()));
}

} // verus!
