//! Lists of named values, as the members of an object and the cells of a row
//! are: what a lookup by name finds in them.

use vstd::prelude::*;

verus! {

/// The value of the first entry named `key`, if there is one.
pub open spec fn lookup<V>(members: Seq<(Seq<char>, V)>, key: Seq<char>) -> Option<V>
    decreases members.len(),
{
    if members.len() == 0 {
        None
    } else {
        match lookup(members.drop_last(), key) {
            Some(found) => Some(found),
            None => if members.last().0 == key {
                Some(members.last().1)
            } else {
                None
            },
        }
    }
}

/// What a lookup finds after one more member was written.
pub broadcast proof fn lemma_lookup_push<V>(
    members: Seq<(Seq<char>, V)>,
    name: Seq<char>,
    value: V,
    key: Seq<char>,
)
    ensures
        #[trigger] lookup(members.push((name, value)), key) == match lookup(members, key) {
            Some(found) => Some(found),
            None => if name == key {
                Some(value)
            } else {
                None
            },
        },
{
    assert(members.push((name, value)).drop_last() =~= members);
}

/// A lookup that finds nothing has passed every member by.
pub proof fn lemma_lookup_none<V>(members: Seq<(Seq<char>, V)>, key: Seq<char>)
    ensures
        lookup(members, key) is None <==> forall|i: int|
            0 <= i < members.len() ==> (#[trigger] members[i]).0 != key,
    decreases members.len(),
{
    if members.len() > 0 {
        lemma_lookup_none(members.drop_last(), key);
        if lookup(members, key) is None {
            assert forall|i: int| 0 <= i < members.len() implies (#[trigger] members[i]).0
                != key by {
                if i < members.len() - 1 {
                    assert(members.drop_last()[i] == members[i]);
                }
            }
        } else {
            if forall|i: int| 0 <= i < members.len() ==> (#[trigger] members[i]).0 != key {
                assert forall|i: int| 0 <= i < members.drop_last().len() implies (
                #[trigger] members.drop_last()[i]).0 != key by {
                    assert(members.drop_last()[i] == members[i]);
                }
                assert(members.last() == members[members.len() - 1]);
            }
        }
    }
}

/// A lookup finds the first member of that name.
pub proof fn lemma_lookup_first<V>(members: Seq<(Seq<char>, V)>, key: Seq<char>, at: int)
    requires
        0 <= at < members.len(),
        members[at].0 == key,
        forall|i: int| 0 <= i < at ==> (#[trigger] members[i]).0 != key,
    ensures
        lookup(members, key) == Some(members[at].1),
    decreases members.len(),
{
    if at == members.len() - 1 {
        lemma_lookup_none(members.drop_last(), key);
        assert forall|i: int| 0 <= i < members.drop_last().len() implies (
        #[trigger] members.drop_last()[i]).0 != key by {
            assert(members.drop_last()[i] == members[i]);
        }
    } else {
        assert(members.drop_last()[at] == members[at]);
        assert forall|i: int| 0 <= i < at implies (#[trigger] members.drop_last()[i]).0
            != key by {
            assert(members.drop_last()[i] == members[i]);
        }
        lemma_lookup_first(members.drop_last(), key, at);
    }
}

} // verus!
