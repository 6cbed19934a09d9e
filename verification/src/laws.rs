//! Laws of the claim-set model: declaration is a pure set union, so order and
//! repetition of declarations are irrelevant, and resolving exactly the
//! declared claimants empties a claim set whatever the interleaving.

use vstd::prelude::*;

verus! {

/// Folds idempotent inserts of every id of `ds`, in order, into `s` — the
/// effect of a sequence of declare calls on one claim set.
pub open spec fn insert_all(s: Set<Seq<char>>, ds: Seq<Seq<char>>) -> Set<Seq<char>>
    decreases ds.len(),
{
    if ds.len() == 0 {
        s
    } else {
        insert_all(s.insert(ds[0]), ds.drop_first())
    }
}

/// Folds removes of every id of `rs`, in order, out of `s` — the effect of a
/// sequence of resolve calls on one claim set, over any number of rounds.
pub open spec fn remove_all(s: Set<Seq<char>>, rs: Seq<Seq<char>>) -> Set<Seq<char>>
    decreases rs.len(),
{
    if rs.len() == 0 {
        s
    } else {
        remove_all(s.remove(rs[0]), rs.drop_first())
    }
}

/// Membership in a sequence splits into its head and its tail.
proof fn lemma_contains_split(ds: Seq<Seq<char>>)
    requires
        ds.len() > 0,
    ensures
        forall|x: Seq<char>| #[trigger] ds.contains(x) <==> (x == ds[0] || ds.drop_first().contains(
            x,
        )),
{
    assert forall|x: Seq<char>| #[trigger] ds.contains(x) implies (x == ds[0]
        || ds.drop_first().contains(x)) by {
        let i = choose|i: int| 0 <= i < ds.len() && ds[i] == x;
        if i > 0 {
            assert(ds.drop_first()[i - 1] == x);
        }
    }
    assert forall|x: Seq<char>| (x == ds[0] || ds.drop_first().contains(x)) implies #[trigger] ds
        .contains(x) by {
        if x == ds[0] {
            assert(ds[0] == x);
        } else {
            let i = choose|i: int| 0 <= i < ds.drop_first().len() && ds.drop_first()[i] == x;
            assert(ds[i + 1] == x);
        }
    }
}

/// Folded insertion contains exactly the old members and the inserted ids:
/// declaration is a pure set union, independent of order and repetition.
pub proof fn lemma_insert_all_membership(s: Set<Seq<char>>, ds: Seq<Seq<char>>)
    ensures
        forall|x: Seq<char>| #[trigger] insert_all(s, ds).contains(x) <==> (s.contains(x)
            || ds.contains(x)),
    decreases ds.len(),
{
    if ds.len() == 0 {
        assert forall|x: Seq<char>| #[trigger] insert_all(s, ds).contains(x) implies (s.contains(
            x,
        ) || ds.contains(x)) by {
            assert(insert_all(s, ds) == s);
        }
    } else {
        lemma_insert_all_membership(s.insert(ds[0]), ds.drop_first());
        lemma_contains_split(ds);
        assert forall|x: Seq<char>|
            #[trigger] insert_all(s, ds).contains(x) <==> (s.contains(x) || ds.contains(x)) by {
            assert(insert_all(s, ds) == insert_all(s.insert(ds[0]), ds.drop_first()));
            assert(insert_all(s.insert(ds[0]), ds.drop_first()).contains(x) <==> (s.insert(
                ds[0],
            ).contains(x) || ds.drop_first().contains(x)));
        }
    }
}

/// Folded removal keeps exactly the old members that were not removed.
pub proof fn lemma_remove_all_membership(s: Set<Seq<char>>, rs: Seq<Seq<char>>)
    ensures
        forall|x: Seq<char>| #[trigger] remove_all(s, rs).contains(x) <==> (s.contains(x)
            && !rs.contains(x)),
    decreases rs.len(),
{
    if rs.len() == 0 {
        assert forall|x: Seq<char>| #[trigger] remove_all(s, rs).contains(x) implies (s.contains(
            x,
        ) && !rs.contains(x)) by {
            assert(remove_all(s, rs) == s);
        }
    } else {
        lemma_remove_all_membership(s.remove(rs[0]), rs.drop_first());
        lemma_contains_split(rs);
        assert forall|x: Seq<char>|
            #[trigger] remove_all(s, rs).contains(x) <==> (s.contains(x) && !rs.contains(x)) by {
            assert(remove_all(s, rs) == remove_all(s.remove(rs[0]), rs.drop_first()));
            assert(remove_all(s.remove(rs[0]), rs.drop_first()).contains(x) <==> (s.remove(
                rs[0],
            ).contains(x) && !rs.drop_first().contains(x)));
        }
    }
}

/// Declaring initializer claims for a set of ids and then resolving exactly
/// those ids — in any declaration order, any resolution order, with any
/// repetitions, across any number of rounds — leaves the claim set empty.
pub proof fn lemma_declared_then_resolved_clears(ds: Seq<Seq<char>>, rs: Seq<Seq<char>>)
    requires
        rs.to_set() == ds.to_set(),
    ensures
        remove_all(insert_all(Set::empty(), ds), rs) == Set::<Seq<char>>::empty(),
{
    lemma_insert_all_membership(Set::empty(), ds);
    lemma_remove_all_membership(insert_all(Set::empty(), ds), rs);
    assert forall|x: Seq<char>| ds.contains(x) implies rs.contains(x) by {
        assert(ds.to_set().contains(x));
        assert(rs.to_set().contains(x));
    }
    assert(remove_all(insert_all(Set::empty(), ds), rs) =~= Set::<Seq<char>>::empty());
}

/// Declaration order is irrelevant: two declaration sequences naming the same
/// ids produce the same claim set, whatever their order or repetitions.
pub proof fn lemma_declare_order_irrelevant(
    s: Set<Seq<char>>,
    ds1: Seq<Seq<char>>,
    ds2: Seq<Seq<char>>,
)
    requires
        ds1.to_set() == ds2.to_set(),
    ensures
        insert_all(s, ds1) == insert_all(s, ds2),
{
    lemma_insert_all_membership(s, ds1);
    lemma_insert_all_membership(s, ds2);
    assert forall|x: Seq<char>| ds1.contains(x) <==> ds2.contains(x) by {
        assert(ds1.to_set().contains(x) == ds1.contains(x));
        assert(ds2.to_set().contains(x) == ds2.contains(x));
    }
    assert(insert_all(s, ds1) =~= insert_all(s, ds2));
}

} // verus!
