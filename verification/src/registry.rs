//! Pools of named devices.
//!
//! A pool is an ordered list of `(name, device)` pairs. Opening a device by
//! name takes the first entry with that name out of the pool; closing it puts
//! the entry back at the end, where a later open can find it again.

use vstd::prelude::*;

verus! {

/// The entries of a pool whose name is `name`.
pub open spec fn named_entries<D>(entries: Seq<(String, D)>, name: Seq<char>) -> Seq<(String, D)> {
    entries.filter(name_is(name))
}

/// The entry carries the name `name`.
pub open spec fn name_is<D>(name: Seq<char>) -> spec_fn((String, D)) -> bool {
    |e: (String, D)| e.0@ == name
}

/// Some entry of the pool carries the name `name`.
pub open spec fn has_named<D>(entries: Seq<(String, D)>, name: Seq<char>) -> bool {
    exists|i: int| 0 <= i < entries.len() && #[trigger] entries[i].0@ == name
}

/// `i` is the position of the first entry named `name`.
pub open spec fn is_first_named<D>(entries: Seq<(String, D)>, name: Seq<char>, i: int) -> bool {
    &&& 0 <= i < entries.len()
    &&& entries[i].0@ == name
    &&& forall|j: int| 0 <= j < i ==> #[trigger] entries[j].0@ != name
}

/// The position of the first entry named `name` (meaningful when `has_named`).
pub open spec fn first_named<D>(entries: Seq<(String, D)>, name: Seq<char>) -> int {
    choose|i: int| is_first_named(entries, name, i)
}

/// The pool after the first entry named `name` has been taken out of it.
pub open spec fn take_spec<D>(entries: Seq<(String, D)>, name: Seq<char>) -> Seq<(String, D)> {
    entries.remove(first_named(entries, name))
}

/// There is exactly one first position for every name the pool holds.
pub proof fn lemma_first_named<D>(entries: Seq<(String, D)>, name: Seq<char>)
    requires
        has_named(entries, name),
    ensures
        is_first_named(entries, name, first_named(entries, name)),
        forall|i: int| is_first_named(entries, name, i) ==> i == first_named(entries, name),
{
    let k = choose|i: int| 0 <= i < entries.len() && #[trigger] entries[i].0@ == name;
    lemma_least_named(entries, name, k);
    let f = first_named(entries, name);
    assert forall|i: int| is_first_named(entries, name, i) implies i == f by {
        if i < f {
            assert(entries[i].0@ != name);
        } else if f < i {
            assert(entries[f].0@ != name);
        }
    }
}

proof fn lemma_least_named<D>(entries: Seq<(String, D)>, name: Seq<char>, k: int)
    requires
        0 <= k < entries.len(),
        entries[k].0@ == name,
    ensures
        exists|i: int| is_first_named(entries, name, i),
    decreases k,
{
    if forall|j: int| 0 <= j < k ==> #[trigger] entries[j].0@ != name {
        assert(is_first_named(entries, name, k));
    } else {
        let j = choose|j: int| 0 <= j < k && #[trigger] entries[j].0@ != name == false;
        lemma_least_named(entries, name, j);
    }
}

/// Finds the position of the first entry named `name`.
pub fn position_named<D>(entries: &Vec<(String, D)>, name: &String) -> (r: Option<usize>)
    ensures
        r is None <==> !has_named(entries@, name@),
        r matches Some(i) ==> i == first_named(entries@, name@) && is_first_named(entries@, name@, i as int),
{
    let mut i: usize = 0;
    while i < entries.len()
        invariant
            i <= entries@.len(),
            forall|j: int| 0 <= j < i ==> #[trigger] entries@[j].0@ != name@,
        decreases entries@.len() - i,
    {
        if entries[i].0 == *name {
            proof {
                assert(is_first_named(entries@, name@, i as int));
                lemma_first_named(entries@, name@);
            }
            return Some(i);
        }
        i = i + 1;
    }
    None
}

/// Takes the first entry named `name` out of the pool.
pub fn take_named<D>(entries: &mut Vec<(String, D)>, name: &String) -> (r: Option<(String, D)>)
    ensures
        r is None <==> !has_named(old(entries)@, name@),
        r is None ==> final(entries)@ == old(entries)@,
        r matches Some(e) ==> {
            &&& e == old(entries)@[first_named(old(entries)@, name@)]
            &&& e.0@ == name@
            &&& final(entries)@ == take_spec(old(entries)@, name@)
        },
{
    match position_named(entries, name) {
        None => None,
        Some(i) => Some(entries.remove(i)),
    }
}

/// Puts an entry back at the end of the pool.
pub fn put_back<D>(entries: &mut Vec<(String, D)>, name: String, device: D)
    ensures
        final(entries)@ == old(entries)@.push((name, device)),
{
    entries.push((name, device));
}

/// Closing a device right after opening it gives back the same pool up to
/// order: the same entries, each as often as before.
pub proof fn law_open_close_keeps_devices<D>(entries: Seq<(String, D)>, name: Seq<char>)
    requires
        has_named(entries, name),
    ensures
        take_spec(entries, name).push(entries[first_named(entries, name)]).to_multiset()
            =~= entries.to_multiset(),
{
    broadcast use vstd::multiset::group_multiset_axioms;
    lemma_first_named(entries, name);
    let k = first_named(entries, name);
    vstd::seq_lib::to_multiset_remove(entries, k);
    vstd::seq_lib::to_multiset_build(entries.remove(k), entries[k]);
    assert(entries.to_multiset().contains(entries[k])) by {
        vstd::seq_lib::to_multiset_contains(entries, entries[k]);
    }
}

/// Opening a device takes exactly one entry of that name out of the pool
/// and leaves the entries of every other name as they were; so a name
/// registered `n` times can be open at most `n` times at once.
pub proof fn law_open_takes_one<D>(entries: Seq<(String, D)>, name: Seq<char>, other: Seq<char>)
    requires
        has_named(entries, name),
        other != name,
    ensures
        named_entries(take_spec(entries, name), name).len() + 1 == named_entries(entries, name).len(),
        named_entries(take_spec(entries, name), other) == named_entries(entries, other),
{
    broadcast use vstd::seq_lib::group_filter_ensures;
    lemma_first_named(entries, name);
    let k = first_named(entries, name);
    let s0 = entries.subrange(0, k);
    let s1 = entries.subrange(k, k + 1);
    let s2 = entries.subrange(k + 1, entries.len() as int);
    assert(entries =~= s0 + s1 + s2);
    assert(entries.remove(k) =~= s0 + s2);
    let p = name_is::<D>(name);
    let q = name_is::<D>(other);
    Seq::filter_distributes_over_add(s0 + s1, s2, p);
    Seq::filter_distributes_over_add(s0, s1, p);
    Seq::filter_distributes_over_add(s0, s2, p);
    Seq::filter_distributes_over_add(s0 + s1, s2, q);
    Seq::filter_distributes_over_add(s0, s1, q);
    Seq::filter_distributes_over_add(s0, s2, q);
    assert(s1 =~= Seq::<(String, D)>::empty().push(entries[k]));
    Seq::<(String, D)>::empty().lemma_filter_push(entries[k], p);
    Seq::<(String, D)>::empty().lemma_filter_push(entries[k], q);
    assert(Seq::<(String, D)>::empty().filter(p) =~= Seq::<(String, D)>::empty());
    assert(Seq::<(String, D)>::empty().filter(q) =~= Seq::<(String, D)>::empty());
    assert(named_entries(take_spec(entries, name), other) =~= named_entries(entries, other));
}

/// A device that has been closed can be opened again under its name.
pub proof fn law_closed_device_reopens<D>(entries: Seq<(String, D)>, name: String, device: D)
    ensures
        has_named(entries.push((name, device)), name@),
{
    assert(entries.push((name, device))[entries.len() as int].0@ == name@);
}

/// A pool holds a device of a name exactly when it holds at least one entry
/// of that name.
pub proof fn lemma_has_named_count<D>(entries: Seq<(String, D)>, name: Seq<char>)
    ensures
        has_named(entries, name) <==> named_entries(entries, name).len() > 0,
{
    broadcast use vstd::seq_lib::group_filter_ensures;
    let p = name_is::<D>(name);
    if has_named(entries, name) {
        let i = choose|i: int| 0 <= i < entries.len() && #[trigger] entries[i].0@ == name;
        assert(p(entries[i]));
        entries.lemma_filter_contains(p, i);
    }
    if !has_named(entries, name) {
        assert forall|i: int| 0 <= i < entries.len() implies !p(entries[i]) by {
            assert(entries[i].0@ != name);
        }
        entries.lemma_all_neg_filter_empty(p);
    }
}

/// A device registered once under its name can be open only once at a
/// time: while it is open, a second open of that name fails.
pub proof fn law_single_device_exclusive<D>(entries: Seq<(String, D)>, name: Seq<char>)
    requires
        named_entries(entries, name).len() == 1,
    ensures
        has_named(entries, name),
        !has_named(take_spec(entries, name), name),
{
    lemma_has_named_count(entries, name);
    assert(name.push('x').len() != name.len());
    law_open_takes_one(entries, name, name.push('x'));
    lemma_has_named_count(take_spec(entries, name), name);
}

} // verus!
