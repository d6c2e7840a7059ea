//! Sets of names, kept in a hash set with the Fx hasher.

use rustc_hash::FxHashSet;
use vstd::prelude::*;

verus! {

/// The hasher factory of `FxHashSet`; nothing is read from it.
#[verifier::external_type_specification]
#[verifier::external_body]
pub struct ExFxBuildHasher(rustc_hash::FxBuildHasher);

/// The strings that a set of names holds.
pub uninterp spec fn name_set(set: FxHashSet<String>) -> Set<Seq<char>>;

/// `FxHashSet::default`: a set that holds nothing.
#[verifier::external_body]
pub(crate) fn empty_name_set() -> (set: FxHashSet<String>)
    ensures
        name_set(set) == Set::<Seq<char>>::empty(),
{
    FxHashSet::default()
}

/// `HashSet::insert`: afterwards the set holds the name besides what it held.
#[verifier::external_body]
pub(crate) fn name_set_insert(set: &mut FxHashSet<String>, name: String)
    ensures
        name_set(*final(set)) == name_set(*old(set)).insert(name@),
{
    set.insert(name);
}

/// `HashSet::contains`: whether the set holds a string with these characters.
#[verifier::external_body]
pub(crate) fn name_set_contains(set: &FxHashSet<String>, name: &str) -> (found: bool)
    ensures
        found == name_set(*set).contains(name@),
{
    set.contains(name)
}

/// The strings that occur in a list.
pub open spec fn names_of(list: Seq<String>) -> Set<Seq<char>> {
    Set::new(|name: Seq<char>| exists|i: int| 0 <= i < list.len() && (#[trigger] list[i])@ == name)
}

/// Collects a list of names into a set.
pub fn collect_names(list: &Vec<String>) -> (set: FxHashSet<String>)
    ensures
        name_set(set) == names_of(list@),
{
    let mut set = empty_name_set();
    let n = list.len();
    let mut i: usize = 0;
    while i < n
        invariant
            i <= n,
            n == list@.len(),
            name_set(set) =~= names_of(list@.take(i as int)),
        decreases n - i,
    {
        name_set_insert(&mut set, list[i].clone());
        proof {
            let before = list@.take(i as int);
            let after = list@.take(i + 1);
            assert forall|name: Seq<char>|
                names_of(after).contains(name) <==> names_of(before).insert(
                    list@[i as int]@,
                ).contains(name) by {
                if names_of(after).contains(name) {
                    let k = choose|k: int| 0 <= k < after.len() && (#[trigger] after[k])@ == name;
                    if k < i {
                        assert(before[k]@ == name);
                    }
                }
                if names_of(before).contains(name) {
                    let k = choose|k: int| 0 <= k < before.len() && (#[trigger] before[k])@ == name;
                    assert(after[k]@ == name);
                }
                if name == list@[i as int]@ {
                    assert(after[i as int]@ == name);
                }
            }
        }
        i += 1;
    }
    assert(list@.take(n as int) =~= list@);
    set
}

} // verus!
