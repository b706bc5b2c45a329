//! Sets kept in order, so that two equal sets have one representation and what two sets have in
//! common comes out sorted.
use vstd::prelude::*;

use crate::text;
use crate::text::{same_text, text_less};

verus! {

/// A key of an ordered set.
pub trait SetKey: Sized {
    /// What identifies the key.
    type Model;

    /// The model of the key.
    spec fn model(&self) -> Self::Model;

    /// The order of keys.
    spec fn precedes(a: Self::Model, b: Self::Model) -> bool;

    /// Whether this key comes before another.
    fn comes_before(&self, other: &Self) -> (r: bool)
        ensures
            r == Self::precedes(self.model(), other.model()),
    ;

    /// A key with the same model.
    fn duplicate(&self) -> (r: Self)
        ensures
            r.model() == self.model(),
    ;

    /// The order is a strict total order.
    proof fn order_is_strict_and_total(a: Self::Model, b: Self::Model, c: Self::Model)
        ensures
            !Self::precedes(a, a),
            a != b ==> (Self::precedes(a, b) <==> !Self::precedes(b, a)),
            Self::precedes(a, b) && Self::precedes(b, c) ==> Self::precedes(a, c),
    ;
}

impl SetKey for String {
    type Model = Seq<char>;

    open spec fn model(&self) -> Seq<char> {
        self@
    }

    open spec fn precedes(a: Seq<char>, b: Seq<char>) -> bool {
        text::text_lt(a, b)
    }

    fn comes_before(&self, other: &Self) -> (r: bool) {
        text_less(self, other)
    }

    fn duplicate(&self) -> (r: Self) {
        self.clone()
    }

    proof fn order_is_strict_and_total(a: Seq<char>, b: Seq<char>, c: Seq<char>) {
        text::law_text_lt_irreflexive(a);
        text::law_text_lt_total(a, b);
        if text::text_lt(a, b) && text::text_lt(b, c) {
            text::law_text_lt_transitive(a, b, c);
        }
    }
}

/// The order of pairs: by the first text, then by the second.
pub open spec fn pair_lt(a: (Seq<char>, Seq<char>), b: (Seq<char>, Seq<char>)) -> bool {
    text::text_lt(a.0, b.0) || (a.0 == b.0 && text::text_lt(a.1, b.1))
}

impl SetKey for (String, String) {
    type Model = (Seq<char>, Seq<char>);

    open spec fn model(&self) -> (Seq<char>, Seq<char>) {
        (self.0@, self.1@)
    }

    open spec fn precedes(a: (Seq<char>, Seq<char>), b: (Seq<char>, Seq<char>)) -> bool {
        pair_lt(a, b)
    }

    fn comes_before(&self, other: &Self) -> (r: bool) {
        text_less(&self.0, &other.0) || (same_text(&self.0, &other.0) && text_less(
            &self.1,
            &other.1,
        ))
    }

    fn duplicate(&self) -> (r: Self) {
        (self.0.clone(), self.1.clone())
    }

    proof fn order_is_strict_and_total(
        a: (Seq<char>, Seq<char>),
        b: (Seq<char>, Seq<char>),
        c: (Seq<char>, Seq<char>),
    ) {
        text::law_text_lt_irreflexive(a.0);
        text::law_text_lt_irreflexive(a.1);
        text::law_text_lt_total(a.0, b.0);
        text::law_text_lt_total(a.1, b.1);
        if text::text_lt(a.0, b.0) && text::text_lt(b.0, c.0) {
            text::law_text_lt_transitive(a.0, b.0, c.0);
        }
        if text::text_lt(a.1, b.1) && text::text_lt(b.1, c.1) {
            text::law_text_lt_transitive(a.1, b.1, c.1);
        }
    }
}

/// The models of a list of keys.
pub open spec fn models<K: SetKey>(keys: Seq<K>) -> Seq<K::Model> {
    keys.map_values(|key: K| key.model())
}

/// Each key comes before the keys after it.
pub open spec fn is_increasing<K: SetKey>(keys: Seq<K::Model>) -> bool {
    forall|i: int, j: int|
        0 <= i < j < keys.len() ==> K::precedes(#[trigger] keys[i], #[trigger] keys[j])
}

/// The keys of a finite set in order.
pub open spec fn in_order<K: SetKey>(keys: Set<K::Model>) -> Seq<K::Model> {
    choose|list: Seq<K::Model>| is_increasing::<K>(list) && #[trigger] list.to_set() == keys
}

/// In an increasing list the last key stands once.
proof fn lemma_without_last<K: SetKey>(list: Seq<K::Model>)
    requires
        is_increasing::<K>(list),
        list.len() > 0,
    ensures
        is_increasing::<K>(list.drop_last()),
        list.drop_last().to_set() == list.to_set().remove(list.last()),
{
    let last = list.last();
    K::order_is_strict_and_total(last, last, last);
    assert forall|x: K::Model| #[trigger]
        list.drop_last().to_set().contains(x) <==> list.to_set().remove(last).contains(x) by {
        if list.drop_last().contains(x) {
            let i = choose|i: int| 0 <= i < list.drop_last().len() && list.drop_last()[i] == x;
            assert(list[i] == x);
        }
        if list.contains(x) && x != last {
            let i = choose|i: int| 0 <= i < list.len() && list[i] == x;
            assert(list.drop_last()[i] == x);
        }
    }
    assert(list.drop_last().to_set() =~= list.to_set().remove(last));
}

/// A set has one increasing list of its keys.
pub proof fn law_order_is_unique<K: SetKey>(a: Seq<K::Model>, b: Seq<K::Model>)
    requires
        is_increasing::<K>(a),
        is_increasing::<K>(b),
        a.to_set() == b.to_set(),
    ensures
        a == b,
    decreases a.len(),
{
    if a.len() == 0 {
        if b.len() > 0 {
            assert(b.to_set().contains(b[0]));
            assert(a.contains(b[0]));
        }
        assert(a =~= b);
    } else {
        assert(a.to_set().contains(a.last()));
        assert(b.contains(a.last()));
        assert(b.to_set().contains(b.last()));
        assert(a.contains(b.last()));
        let i = choose|i: int| 0 <= i < b.len() && b[i] == a.last();
        let j = choose|j: int| 0 <= j < a.len() && a[j] == b.last();
        K::order_is_strict_and_total(a.last(), b.last(), a.last());
        assert(a.last() == b.last());
        lemma_without_last::<K>(a);
        lemma_without_last::<K>(b);
        law_order_is_unique::<K>(a.drop_last(), b.drop_last());
        assert(a == a.drop_last().push(a.last()));
        assert(b == b.drop_last().push(b.last()));
    }
}

/// An increasing list with one more key, put where it belongs.
proof fn lemma_insert_in_order<K: SetKey>(list: Seq<K::Model>, key: K::Model) -> (r: Seq<K::Model>)
    requires
        is_increasing::<K>(list),
        !list.contains(key),
    ensures
        is_increasing::<K>(r),
        r.to_set() == list.to_set().insert(key),
    decreases list.len(),
{
    if list.len() == 0 || K::precedes(list.last(), key) {
        let r = list.push(key);
        assert forall|i: int, j: int| 0 <= i < j < r.len() implies K::precedes(
            #[trigger] r[i],
            #[trigger] r[j],
        ) by {
            if j == list.len() {
                K::order_is_strict_and_total(list[i], list.last(), key);
            }
        }
        list.lemma_push_to_set_commute(key);
        r
    } else {
        let last = list.last();
        let rest = list.drop_last();
        lemma_without_last::<K>(list);
        assert(!rest.contains(key)) by {
            if rest.contains(key) {
                let i = choose|i: int| 0 <= i < rest.len() && rest[i] == key;
                assert(list[i] == key);
            }
        }
        let before = lemma_insert_in_order::<K>(rest, key);
        let r = before.push(last);
        assert(list.contains(last));
        K::order_is_strict_and_total(key, last, last);
        assert forall|i: int, j: int| 0 <= i < j < r.len() implies K::precedes(
            #[trigger] r[i],
            #[trigger] r[j],
        ) by {
            if j == before.len() {
                assert(before.to_set().contains(before[i]));
                if before[i] != key {
                    assert(rest.contains(before[i]));
                    let k = choose|k: int| 0 <= k < rest.len() && rest[k] == before[i];
                    assert(K::precedes(list[k], list[list.len() - 1]));
                }
            }
        }
        before.lemma_push_to_set_commute(last);
        assert(r.to_set() =~= list.to_set().insert(key));
        r
    }
}

/// Every finite set has an increasing list of its keys, which `in_order` gives: it is sorted, and it
/// holds each key of the set and no other.
pub proof fn law_finite_set_has_an_order<K: SetKey>(keys: Set<K::Model>)
    requires
        keys.finite(),
    ensures
        is_increasing::<K>(in_order::<K>(keys)),
        in_order::<K>(keys).to_set() == keys,
    decreases keys.len(),
{
    if keys.len() == 0 {
        let list = Seq::<K::Model>::empty();
        assert(list.to_set() =~= keys);
        assert(is_increasing::<K>(list) && list.to_set() == keys);
    } else {
        let key = keys.choose();
        let rest = keys.remove(key);
        law_finite_set_has_an_order::<K>(rest);
        let before = in_order::<K>(rest);
        assert(!before.contains(key)) by {
            if before.contains(key) {
                assert(before.to_set().contains(key));
            }
        }
        let list = lemma_insert_in_order::<K>(before, key);
        assert(list.to_set() =~= keys);
        assert(is_increasing::<K>(list) && list.to_set() == keys);
    }
}

/// A set of keys.
#[derive(Debug, PartialEq, Eq)]
pub struct OrderedSet<K: SetKey> {
    items: Vec<K>,
}

impl<K: SetKey> View for OrderedSet<K> {
    type V = Set<K::Model>;

    closed spec fn view(&self) -> Set<K::Model> {
        models(self.items@).to_set()
    }
}

impl<K: SetKey> OrderedSet<K> {
    /// The keys are in order, each once.
    #[verifier::type_invariant]
    spec fn well_formed(self) -> bool {
        is_increasing::<K>(models(self.items@))
    }

    /// The empty set.
    pub fn new() -> (r: Self)
        ensures
            r@ == Set::<K::Model>::empty(),
    {
        let r: Self = OrderedSet { items: Vec::new() };
        proof {
            assert(r@ =~= Set::<K::Model>::empty());
        }
        r
    }

    /// The position of the first key that does not come before `key`.
    fn position(&self, key: &K) -> (r: usize)
        ensures
            r <= self.items@.len(),
            forall|i: int| 0 <= i < r ==> K::precedes((#[trigger] self.items@[i]).model(), key.model()),
            r < self.items@.len() ==> !K::precedes(self.items@[r as int].model(), key.model()),
    {
        let mut i: usize = 0;
        while i < self.items.len() && self.items[i].comes_before(key)
            invariant
                i <= self.items@.len(),
                forall|j: int| 0 <= j < i ==> K::precedes((#[trigger] self.items@[j]).model(), key.model()),
            decreases self.items@.len() - i,
        {
            i = i + 1;
        }
        i
    }

    /// Whether the set holds a key.
    pub fn contains(&self, key: &K) -> (r: bool)
        ensures
            r == self@.contains(key.model()),
    {
        proof {
            use_type_invariant(self);
        }
        let at: usize = self.position(key);
        let r: bool = at < self.items.len() && !key.comes_before(&self.items[at]);
        proof {
            let all = models(self.items@);
            let m = key.model();
            if r {
                K::order_is_strict_and_total(self.items@[at as int].model(), m, m);
                assert(all[at as int] == m);
            } else if all.contains(m) {
                let i = choose|i: int| 0 <= i < all.len() && all[i] == m;
                assert(all[i] == self.items@[i].model());
                K::order_is_strict_and_total(m, m, m);
                assert(at <= i);
                if at < i {
                    assert(K::precedes(all[at as int], all[i]));
                }
            }
        }
        r
    }

    /// Put a key into the set.
    pub fn insert(&mut self, key: K)
        ensures
            final(self)@ == old(self)@.insert(key.model()),
    {
        proof {
            use_type_invariant(&*self);
        }
        if self.contains(&key) {
            proof {
                assert(self@.insert(key.model()) =~= self@);
            }
            return;
        }
        let at: usize = self.position(&key);
        let ghost before = self.items@;
        let ghost m = key.model();
        proof {
            assert forall|i: int| at <= i < before.len() implies K::precedes(
                m,
                (#[trigger] before[i]).model(),
            ) by {
                assert(at < i ==> K::precedes(models(before)[at as int], models(before)[i]));
                K::order_is_strict_and_total(m, before[at as int].model(), before[i].model());
                if before[at as int].model() == m {
                    assert(models(before)[at as int] == m);
                    assert(self@.contains(m));
                }
                K::order_is_strict_and_total(before[at as int].model(), m, m);
            }
        }
        let mut items: Vec<K> = Vec::new();
        std::mem::swap(&mut items, &mut self.items);
        items.insert(at, key);
        proof {
            let after = items@;
            assert(after == before.insert(at as int, key));
            assert(models(after) =~= models(before).insert(at as int, m));
            assert forall|i: int, j: int| 0 <= i < j < after.len() implies K::precedes(
                #[trigger] models(after)[i],
                #[trigger] models(after)[j],
            ) by {
                let i0 = if i < at {
                    i
                } else {
                    i - 1
                };
                let j0 = if j < at {
                    j
                } else {
                    j - 1
                };
                if i != at && j != at {
                    assert(models(after)[i] == models(before)[i0]);
                    assert(models(after)[j] == models(before)[j0]);
                } else if i == at {
                    assert(models(after)[j] == before[j0].model());
                } else {
                    assert(models(after)[i] == before[i0].model());
                }
            }
            assert forall|x: K::Model| #[trigger]
                models(after).to_set().contains(x) <==> models(before).to_set().insert(m).contains(
                    x,
                ) by {
                if models(before).contains(x) {
                    let i = choose|i: int| 0 <= i < before.len() && models(before)[i] == x;
                    if i < at {
                        assert(models(after)[i] == x);
                    } else {
                        assert(models(after)[i + 1] == x);
                    }
                }
                if x == m {
                    assert(models(after)[at as int] == x);
                }
                if models(after).contains(x) {
                    let i = choose|i: int| 0 <= i < after.len() && models(after)[i] == x;
                    if i < at {
                        assert(models(before)[i] == x);
                    } else if i > at {
                        assert(models(before)[i - 1] == x);
                    }
                }
            }
            assert(models(after).to_set() =~= old(self)@.insert(m));
        }
        self.items = items;
    }

    /// The keys that two sets have in common, in order.
    pub fn intersection(&self, other: &Self) -> (r: Vec<K>)
        ensures
            models(r@) == in_order::<K>(self@.intersect(other@)),
            is_increasing::<K>(models(r@)),
            models(r@).to_set() == self@.intersect(other@),
    {
        proof {
            use_type_invariant(self);
        }
        let mut common: Vec<K> = Vec::new();
        let ghost all = self.items@;
        proof {
            assert(models(common@).to_set() =~= models(all.take(0)).to_set().intersect(other@));
        }
        for i in 0..self.items.len()
            invariant
                self.well_formed(),
                all == self.items@,
                is_increasing::<K>(models(common@)),
                models(common@).to_set() == models(all.take(i as int)).to_set().intersect(other@),
        {
            let ghost m = all[i as int].model();
            let ghost seen = models(all.take(i as int));
            let ghost before = common@;
            proof {
                assert(models(all.take(i + 1)) =~= seen.push(m));
                assert(seen.push(m).to_set() =~= seen.to_set().insert(m)) by {
                    seen.lemma_push_to_set_commute(m);
                }
            }
            if other.contains(&self.items[i]) {
                proof {
                    assert forall|j: int| 0 <= j < before.len() implies K::precedes(
                        (#[trigger] before[j]).model(),
                        m,
                    ) by {
                        assert(models(before)[j] == before[j].model());
                        assert(models(before).to_set().contains(before[j].model()));
                        let k = choose|k: int| 0 <= k < seen.len() && seen[k] == before[j].model();
                        assert(all[k].model() == before[j].model());
                        assert(K::precedes(models(all)[k], models(all)[i as int]));
                    }
                }
                common.push(self.items[i].duplicate());
                proof {
                    assert(models(common@) =~= models(before).push(m));
                    assert forall|x: int, y: int| 0 <= x < y < common@.len() implies K::precedes(
                        #[trigger] models(common@)[x],
                        #[trigger] models(common@)[y],
                    ) by {
                        assert(models(before)[x] == before[x].model());
                        if y < before.len() {
                            assert(models(before)[y] == models(common@)[y]);
                        }
                    }
                    models(before).lemma_push_to_set_commute(m);
                    assert(models(common@).to_set() =~= models(all.take(i + 1)).to_set().intersect(
                        other@,
                    ));
                }
            } else {
                proof {
                    assert(models(common@).to_set() =~= models(all.take(i + 1)).to_set().intersect(
                        other@,
                    ));
                }
            }
        }
        proof {
            assert(all.take(all.len() as int) == all);
            let keys = self@.intersect(other@);
            assert(models(common@).to_set() == keys);
            law_order_is_unique::<K>(models(common@), in_order::<K>(keys));
        }
        common
    }
}

} // verus!
