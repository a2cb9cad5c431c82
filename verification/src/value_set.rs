//! A collection with set semantics: a value is held at most once, and the
//! values stay in the order in which they first arrived.

use vstd::prelude::*;
use crate::value::Value;

verus! {

/// The views of `items`, in order.
pub open spec fn views<T: View>(items: Seq<T>) -> Seq<T::V> {
    items.map_values(|item: T| item@)
}

/// `items` with `value` added at the end, unless `items` holds it already.
pub open spec fn inserted<V>(items: Seq<V>, value: V) -> Seq<V> {
    if items.contains(value) {
        items
    } else {
        items.push(value)
    }
}

/// The distinct values of `values`, each at the place of its first
/// occurrence.
pub open spec fn distinct<V>(values: Seq<V>) -> Seq<V>
    decreases values.len(),
{
    if values.len() == 0 {
        Seq::empty()
    } else {
        inserted(distinct(values.drop_last()), values.last())
    }
}

/// Inserting keeps a duplicate-free sequence duplicate-free, keeps what it
/// held, and makes it hold the value.
pub proof fn lemma_inserted<V>(items: Seq<V>, value: V)
    requires
        items.no_duplicates(),
    ensures
        inserted(items, value).no_duplicates(),
        inserted(items, value).contains(value),
        forall|other: V| items.contains(other) ==> inserted(items, value).contains(other),
        forall|other: V|
            inserted(items, value).contains(other) ==> items.contains(other) || other == value,
{
    let after = inserted(items, value);
    if !items.contains(value) {
        assert(after[items.len() as int] == value);
        assert forall|other: V| items.contains(other) implies after.contains(other) by {
            let i = choose|i: int| 0 <= i < items.len() && items[i] == other;
            assert(after[i] == other);
        }
    }
}

/// Inserting a value a second time changes nothing.
pub proof fn lemma_inserted_again<V>(items: Seq<V>, value: V)
    ensures
        inserted(inserted(items, value), value) == inserted(items, value),
{
    if !items.contains(value) {
        assert(items.push(value)[items.len() as int] == value);
    }
}

/// After an insertion into a duplicate-free sequence the value occurs
/// exactly once.
pub proof fn lemma_inserted_once<V>(items: Seq<V>, value: V)
    requires
        items.no_duplicates(),
    ensures
        inserted(items, value).to_multiset().count(value) == 1,
{
    let after = inserted(items, value);
    lemma_inserted(items, value);
    after.to_multiset_ensures();
    after.lemma_multiset_has_no_duplicates();
}

/// The distinct values of a sequence are duplicate-free and are the values
/// that the sequence holds.
pub proof fn lemma_distinct<V>(values: Seq<V>)
    ensures
        distinct(values).no_duplicates(),
        forall|value: V| distinct(values).contains(value) <==> values.contains(value),
    decreases values.len(),
{
    if values.len() > 0 {
        let front = values.drop_last();
        lemma_distinct(front);
        lemma_inserted(distinct(front), values.last());
        assert forall|value: V| distinct(values).contains(value) <==> values.contains(
            value,
        ) by {
            if values.contains(value) {
                let i = choose|i: int| 0 <= i < values.len() && values[i] == value;
                if i < front.len() {
                    assert(front[i] == value);
                }
            }
            if front.contains(value) {
                let i = choose|i: int| 0 <= i < front.len() && front[i] == value;
                assert(values[i] == value);
            }
            assert(values[values.len() - 1] == values.last());
        }
    }
}

/// A duplicate-free sequence is its own sequence of distinct values.
pub proof fn lemma_distinct_keeps<V>(values: Seq<V>)
    requires
        values.no_duplicates(),
    ensures
        distinct(values) == values,
    decreases values.len(),
{
    if values.len() > 0 {
        let front = values.drop_last();
        lemma_distinct_keeps(front);
        if front.contains(values.last()) {
            let i = choose|i: int| 0 <= i < front.len() && front[i] == values.last();
            assert(values[i] == values[values.len() - 1]);
        }
        assert(front.push(values.last()) =~= values);
    } else {
        assert(values =~= Seq::<V>::empty());
    }
}

/// A set of values of one kind. No two entries have the same view.
#[derive(Debug)]
pub struct ValueSet<T: Value> {
    items: Vec<T>,
}

impl<T: Value> View for ValueSet<T> {
    type V = Seq<T::V>;

    closed spec fn view(&self) -> Seq<T::V> {
        views(self.items@)
    }
}

impl<T: Value> ValueSet<T> {
    /// No value occurs twice.
    #[verifier::type_invariant]
    pub open spec fn well_formed(self) -> bool {
        self@.no_duplicates()
    }

    /// Makes an empty set.
    pub fn new() -> (set: Self)
        ensures
            set@ == Seq::<T::V>::empty(),
    {
        ValueSet { items: Vec::new() }
    }

    /// The number of values held.
    pub fn len(&self) -> (count: usize)
        ensures
            count == self@.len(),
    {
        self.items.len()
    }

    /// Whether the set holds `value`.
    pub fn contains(&self, value: &T) -> (found: bool)
        ensures
            found == self@.contains(value@),
    {
        let mut i: usize = 0;
        while i < self.items.len()
            invariant
                i <= self.items.len(),
                forall|j: int| 0 <= j < i ==> views(self.items@)[j] != value@,
            decreases self.items.len() - i,
        {
            if self.items[i].same(value) {
                assert(views(self.items@)[i as int] == value@);
                return true;
            }
            i += 1;
        }
        false
    }

    /// Adds `value` unless the set holds it already, and says whether it
    /// was added.
    pub fn insert(&mut self, value: T) -> (added: bool)
        ensures
            final(self)@ == inserted(old(self)@, value@),
            final(self)@.no_duplicates(),
            added == !old(self)@.contains(value@),
    {
        proof {
            use_type_invariant(&*self);
            lemma_inserted(self@, value@);
        }
        if self.contains(&value) {
            false
        } else {
            // The vector is grown outside the set: a push that unwinds must
            // not leave a half-written set behind.
            let mut items: Vec<T> = Vec::new();
            core::mem::swap(&mut items, &mut self.items);
            items.push(value);
            assert(views(items@) == views(old(self).items@).push(value@));
            self.items = items;
            true
        }
    }

    /// Makes the set of the values of `values`: each value once, at the
    /// place of its first occurrence.
    pub fn from_vec(values: Vec<T>) -> (set: Self)
        ensures
            set@ == distinct(views(values@)),
            set@.no_duplicates(),
    {
        let ghost all = values@;
        let mut set: ValueSet<T> = ValueSet::new();
        for value in iter: values
            invariant
                iter.seq() == all,
                set@ == distinct(views(all.take(iter.index() as int))),
        {
            assert(views(all.take(iter.index() + 1)).drop_last() == views(
                all.take(iter.index() as int),
            ));
            set.insert(value);
        }
        assert(all.take(all.len() as int) == all);
        proof {
            use_type_invariant(&set);
        }
        set
    }

    /// The values held, in the order in which they first arrived.
    pub fn to_vec(&self) -> (items: Vec<T>)
        ensures
            views(items@) == self@,
            self@.no_duplicates(),
    {
        proof {
            use_type_invariant(self);
        }
        let mut items: Vec<T> = Vec::new();
        let mut i: usize = 0;
        while i < self.items.len()
            invariant
                i <= self.items.len(),
                items@.len() == i,
                forall|j: int| 0 <= j < i ==> items@[j]@ == self.items@[j]@,
            decreases self.items.len() - i,
        {
            items.push(self.items[i].duplicate());
            i += 1;
        }
        assert(views(items@) =~= views(self.items@));
        items
    }
}

} // verus!
