//! Lists that are put together from parts that may be absent.
use vstd::prelude::*;

verus! {

/// `item` where `present`, else nothing.
pub open spec fn optional<A>(present: bool, item: A) -> Seq<A> {
    if present {
        seq![item]
    } else {
        Seq::empty()
    }
}

/// The list `part` where `present`, else nothing.
pub open spec fn optional_list<A>(present: bool, part: Seq<A>) -> Seq<A> {
    if present {
        part
    } else {
        Seq::empty()
    }
}

/// Adds `item` at the end where `present`.
pub(crate) fn push_if<T>(list: &mut Vec<T>, present: bool, item: T)
    ensures
        final(list)@ == old(list)@ + optional(present, item),
{
    if present {
        list.push(item);
    }
    assert(list@ =~= old(list)@ + optional(present, item));
}

/// Adds `item` at the end.
pub(crate) fn push_one<T>(list: &mut Vec<T>, item: T)
    ensures
        final(list)@ == old(list)@ + seq![item],
{
    list.push(item);
    assert(list@ =~= old(list)@ + seq![item]);
}

/// Adds all of `part` at the end.
pub(crate) fn push_all<T>(list: &mut Vec<T>, part: Vec<T>)
    ensures
        final(list)@ == old(list)@ + part@,
{
    let mut rest = part;
    list.append(&mut rest);
}

/// Index of the first element that satisfies `wanted`, or the length.
pub open spec fn first_index<A>(s: Seq<A>, wanted: spec_fn(A) -> bool) -> int
    decreases s.len(),
{
    if s.len() == 0 || wanted(s[0]) {
        0
    } else {
        1 + first_index(s.drop_first(), wanted)
    }
}

/// The first element that satisfies `wanted`.
pub open spec fn first_where<A>(s: Seq<A>, wanted: spec_fn(A) -> bool) -> Option<A> {
    let i = first_index(s, wanted);
    if i < s.len() {
        Some(s[i])
    } else {
        None
    }
}

pub proof fn lemma_first_index<A>(s: Seq<A>, wanted: spec_fn(A) -> bool, i: int)
    requires
        0 <= i <= s.len(),
        forall|k: int| 0 <= k < i ==> !wanted(#[trigger] s[k]),
        i == s.len() || wanted(s[i]),
    ensures
        first_index(s, wanted) == i,
    decreases i,
{
    if i > 0 {
        let t = s.drop_first();
        assert(!wanted(s[0]));
        assert forall|k: int| 0 <= k < i - 1 implies !wanted(#[trigger] t[k]) by {
            assert(t[k] == s[k + 1]);
        }
        lemma_first_index(t, wanted, i - 1);
    }
}

pub proof fn lemma_first_index_bounds<A>(s: Seq<A>, wanted: spec_fn(A) -> bool)
    ensures
        0 <= first_index(s, wanted) <= s.len(),
        forall|k: int| 0 <= k < first_index(s, wanted) ==> !wanted(#[trigger] s[k]),
        first_index(s, wanted) < s.len() ==> wanted(s[first_index(s, wanted)]),
    decreases s.len(),
{
    if s.len() > 0 && !wanted(s[0]) {
        let t = s.drop_first();
        lemma_first_index_bounds(t, wanted);
        assert forall|k: int| 0 <= k < first_index(s, wanted) implies !wanted(#[trigger] s[k]) by {
            if k > 0 {
                assert(s[k] == t[k - 1]);
            }
        }
    }
}

/// The elements that satisfy `wanted`, in their order.
pub open spec fn kept<A>(s: Seq<A>, wanted: spec_fn(A) -> bool) -> Seq<A>
    decreases s.len(),
{
    if s.len() == 0 {
        Seq::empty()
    } else {
        kept(s.drop_last(), wanted) + optional(wanted(s.last()), s.last())
    }
}

pub proof fn lemma_kept_step<A>(s: Seq<A>, wanted: spec_fn(A) -> bool, i: int)
    requires
        0 <= i < s.len(),
    ensures
        kept(s.take(i + 1), wanted) == kept(s.take(i), wanted) + optional(wanted(s[i]), s[i]),
{
    assert(s.take(i + 1).drop_last() =~= s.take(i));
}

/// What is kept is exactly what was there and satisfies the condition.
pub proof fn lemma_kept_members<A>(s: Seq<A>, wanted: spec_fn(A) -> bool, x: A)
    ensures
        kept(s, wanted).contains(x) <==> s.contains(x) && wanted(x),
        kept(s, wanted).len() <= s.len(),
    decreases s.len(),
{
    if s.len() > 0 {
        let t = s.drop_last();
        lemma_kept_members(t, wanted, x);
        let front = kept(t, wanted);
        let back = optional(wanted(s.last()), s.last());
        let r = kept(s, wanted);
        if r.contains(x) {
            let i = choose|i: int| 0 <= i < r.len() && r[i] == x;
            if i < front.len() {
                assert(front[i] == x);
                assert(t.contains(x));
                let k = choose|k: int| 0 <= k < t.len() && t[k] == x;
                assert(s[k] == x);
            } else {
                assert(x == s.last());
                assert(s[s.len() - 1] == x);
            }
        }
        if s.contains(x) && wanted(x) {
            let k = choose|k: int| 0 <= k < s.len() && s[k] == x;
            if k < t.len() {
                assert(t[k] == x);
                let i = choose|i: int| 0 <= i < front.len() && front[i] == x;
                assert(r[i] == x);
            } else {
                assert(r[front.len() as int] == x);
            }
        }
    }
}

/// `s` with `x` put behind every element that it does not come before.
pub open spec fn insert_stable<A>(s: Seq<A>, x: A, before: spec_fn(A, A) -> bool) -> Seq<A>
    decreases s.len(),
{
    if s.len() > 0 && before(x, s.last()) {
        insert_stable(s.drop_last(), x, before).push(s.last())
    } else {
        s.push(x)
    }
}

/// The stable sort of `s`: elements between which `before` does not decide keep
/// their order.
pub open spec fn stable_sort<A>(s: Seq<A>, before: spec_fn(A, A) -> bool) -> Seq<A>
    decreases s.len(),
{
    if s.len() == 0 {
        s
    } else {
        insert_stable(stable_sort(s.drop_last(), before), s.last(), before)
    }
}

/// `before` is irreflexive, and what does not come before does so transitively.
pub open spec fn weak_order<A>(before: spec_fn(A, A) -> bool) -> bool {
    &&& forall|a: A| !#[trigger] before(a, a)
    &&& forall|a: A, b: A, c: A|
        #![trigger before(b, a), before(c, b)]
        !before(b, a) && !before(c, b) ==> !before(c, a)
    &&& forall|a: A, b: A| #[trigger] before(a, b) ==> !before(b, a)
}

/// No element comes before one that stands in front of it.
pub open spec fn ordered<A>(s: Seq<A>, before: spec_fn(A, A) -> bool) -> bool {
    forall|i: int, j: int| 0 <= i < j < s.len() ==> !before(#[trigger] s[j], #[trigger] s[i])
}

proof fn lemma_insert_at<A>(s: Seq<A>, x: A, before: spec_fn(A, A) -> bool, j: int)
    requires
        0 <= j <= s.len(),
        forall|k: int| j <= k < s.len() ==> before(x, #[trigger] s[k]),
        j > 0 ==> !before(x, s[j - 1]),
    ensures
        insert_stable(s, x, before) == s.insert(j, x),
    decreases s.len(),
{
    if j == s.len() {
        assert(s.insert(j, x) =~= s.push(x));
    } else {
        let t = s.drop_last();
        assert(before(x, s[s.len() - 1]));
        assert forall|k: int| j <= k < t.len() implies before(x, #[trigger] t[k]) by {
            assert(t[k] == s[k]);
        }
        lemma_insert_at(t, x, before, j);
        assert(s.insert(j, x) =~= t.insert(j, x).push(s.last()));
    }
}

proof fn lemma_insert_ordered<A>(s: Seq<A>, x: A, before: spec_fn(A, A) -> bool)
    requires
        weak_order(before),
        ordered(s, before),
    ensures
        ordered(insert_stable(s, x, before), before),
        insert_stable(s, x, before).to_multiset() == s.to_multiset().insert(x),
        insert_stable(s, x, before).len() == s.len() + 1,
        forall|k: int|
            0 <= k < insert_stable(s, x, before).len() ==> (#[trigger] insert_stable(
                s,
                x,
                before,
            )[k] == x || s.contains(insert_stable(s, x, before)[k])),
    decreases s.len(),
{
    broadcast use vstd::seq_lib::group_to_multiset_ensures;

    let r = insert_stable(s, x, before);
    if s.len() > 0 && before(x, s.last()) {
        let t = s.drop_last();
        assert(ordered(t, before)) by {
            assert forall|i: int, j: int| 0 <= i < j < t.len() implies !before(
                #[trigger] t[j],
                #[trigger] t[i],
            ) by {
                assert(t[i] == s[i] && t[j] == s[j]);
            }
        }
        lemma_insert_ordered(t, x, before);
        let q = insert_stable(t, x, before);
        assert(s =~= t.push(s.last()));
        assert(r.to_multiset() =~= s.to_multiset().insert(x));
        assert forall|k: int| 0 <= k < r.len() implies (#[trigger] r[k] == x || s.contains(
            r[k],
        )) by {
            if k < q.len() {
                assert(r[k] == q[k]);
                if q[k] != x {
                    let m = choose|m: int| 0 <= m < t.len() && t[m] == q[k];
                    assert(s[m] == r[k]);
                }
            } else {
                assert(s[s.len() - 1] == r[k]);
            }
        }
        assert forall|i: int, j: int| 0 <= i < j < r.len() implies !before(
            #[trigger] r[j],
            #[trigger] r[i],
        ) by {
            if j < q.len() {
                assert(r[i] == q[i] && r[j] == q[j]);
            } else {
                assert(r[j] == s.last());
                assert(r[i] == q[i]);
                if q[i] != x {
                    let m = choose|m: int| 0 <= m < t.len() && t[m] == q[i];
                    assert(s[m] == r[i]);
                    assert(s[s.len() - 1] == s.last());
                }
            }
        }
    } else {
        assert(r =~= s.push(x));
        assert forall|k: int| 0 <= k < r.len() implies (#[trigger] r[k] == x || s.contains(
            r[k],
        )) by {
            if k < s.len() {
                assert(r[k] == s[k]);
            }
        }
        assert forall|i: int, j: int| 0 <= i < j < r.len() implies !before(
            #[trigger] r[j],
            #[trigger] r[i],
        ) by {
            assert(r[i] == s[i]);
            if j < s.len() {
                assert(r[j] == s[j]);
            } else {
                assert(r[j] == x);
                let last = s[s.len() - 1];
                if i < s.len() - 1 {
                    assert(!before(last, s[i]));
                    assert(!before(x, last));
                }
            }
        }
    }
}

/// Sorting puts the elements in order and neither adds nor loses one.
pub proof fn law_stable_sort<A>(s: Seq<A>, before: spec_fn(A, A) -> bool)
    requires
        weak_order(before),
    ensures
        ordered(stable_sort(s, before), before),
        stable_sort(s, before).to_multiset() == s.to_multiset(),
        stable_sort(s, before).len() == s.len(),
    decreases s.len(),
{
    broadcast use vstd::seq_lib::group_to_multiset_ensures;

    if s.len() > 0 {
        let t = s.drop_last();
        law_stable_sort(t, before);
        lemma_insert_ordered(stable_sort(t, before), s.last(), before);
        assert(s =~= t.push(s.last()));
    }
}

proof fn lemma_kept_of_insert<A>(
    s: Seq<A>,
    x: A,
    wanted: spec_fn(A) -> bool,
    before: spec_fn(A, A) -> bool,
    part_before: spec_fn(A, A) -> bool,
)
    requires
        weak_order(before),
        ordered(s, before),
        forall|a: A, b: A|
            wanted(a) && wanted(b) ==> #[trigger] before(a, b) == part_before(a, b),
    ensures
        kept(insert_stable(s, x, before), wanted) == if wanted(x) {
            insert_stable(kept(s, wanted), x, part_before)
        } else {
            kept(s, wanted)
        },
    decreases s.len(),
{
    let part = kept(s, wanted);
    if s.len() > 0 && before(x, s.last()) {
        let t = s.drop_last();
        assert(ordered(t, before)) by {
            assert forall|i: int, j: int| 0 <= i < j < t.len() implies !before(
                #[trigger] t[j],
                #[trigger] t[i],
            ) by {
                assert(t[i] == s[i] && t[j] == s[j]);
            }
        }
        lemma_kept_of_insert(t, x, wanted, before, part_before);
        let q = insert_stable(t, x, before);
        assert(q.push(s.last()).drop_last() =~= q);
        if wanted(x) && wanted(s.last()) {
            assert(part.drop_last() =~= kept(t, wanted));
            assert(part_before(x, s.last()) == before(x, s.last()));
            assert(insert_stable(kept(t, wanted), x, part_before) + seq![s.last()]
                =~= insert_stable(kept(t, wanted), x, part_before).push(s.last()));
        } else {
            assert(kept(t, wanted) + Seq::<A>::empty() =~= kept(t, wanted));
            assert(kept(q, wanted) + Seq::<A>::empty() =~= kept(q, wanted));
        }
    } else {
        assert(s.push(x).drop_last() =~= s);
        if wanted(x) {
            if part.len() > 0 {
                let e = part.last();
                lemma_kept_members(s, wanted, e);
                assert(part.contains(e));
                let m = choose|m: int| 0 <= m < s.len() && s[m] == e;
                let last = s[s.len() - 1];
                if m < s.len() - 1 {
                    assert(!before(last, s[m]));
                    assert(!before(x, last));
                }
                assert(!before(x, e));
                assert(before(x, e) == part_before(x, e));
            }
            assert(part + seq![x] =~= part.push(x));
        } else {
            assert(part + Seq::<A>::empty() =~= part);
        }
    }
}

/// Picking from a sorted list gives the same as sorting what was picked, also by
/// another order that agrees with the first on what is picked.
pub proof fn law_picking_commutes_with_sorting<A>(
    s: Seq<A>,
    wanted: spec_fn(A) -> bool,
    before: spec_fn(A, A) -> bool,
    part_before: spec_fn(A, A) -> bool,
)
    requires
        weak_order(before),
        forall|a: A, b: A|
            wanted(a) && wanted(b) ==> #[trigger] before(a, b) == part_before(a, b),
    ensures
        kept(stable_sort(s, before), wanted) == stable_sort(kept(s, wanted), part_before),
    decreases s.len(),
{
    if s.len() > 0 {
        let t = s.drop_last();
        law_picking_commutes_with_sorting(t, wanted, before, part_before);
        law_stable_sort(t, before);
        lemma_kept_of_insert(stable_sort(t, before), s.last(), wanted, before, part_before);
        let part = kept(t, wanted);
        if wanted(s.last()) {
            assert((part + seq![s.last()]).drop_last() =~= part);
        } else {
            assert(part + Seq::<A>::empty() =~= part);
        }
    }
}

/// Picking twice is picking what satisfies both conditions.
pub proof fn lemma_kept_twice<A>(
    s: Seq<A>,
    first: spec_fn(A) -> bool,
    second: spec_fn(A) -> bool,
    both: spec_fn(A) -> bool,
)
    requires
        forall|a: A| #[trigger] both(a) == (first(a) && second(a)),
    ensures
        kept(kept(s, first), second) == kept(s, both),
    decreases s.len(),
{
    if s.len() > 0 {
        let t = s.drop_last();
        let x = s.last();
        lemma_kept_twice(t, first, second, both);
        assert(both(x) == (first(x) && second(x)));
        let part = kept(t, first);
        if first(x) {
            assert((part + seq![x]).drop_last() =~= part);
            assert((part + seq![x]).last() == x);
        } else {
            assert(part + Seq::<A>::empty() =~= part);
            assert(kept(t, both) + Seq::<A>::empty() =~= kept(t, both));
        }
    }
}

proof fn lemma_kept_concat<A>(a: Seq<A>, b: Seq<A>, wanted: spec_fn(A) -> bool)
    ensures
        kept(a + b, wanted) == kept(a, wanted) + kept(b, wanted),
    decreases b.len(),
{
    if b.len() == 0 {
        assert(a + b =~= a);
        assert(kept(a, wanted) + kept(b, wanted) =~= kept(a, wanted));
    } else {
        lemma_kept_concat(a, b.drop_last(), wanted);
        assert((a + b).drop_last() =~= a + b.drop_last());
        assert(kept(a, wanted) + kept(b, wanted) =~= kept(a, wanted) + kept(b.drop_last(), wanted)
            + optional(wanted(b.last()), b.last()));
    }
}

/// What is picked of a list backwards is what is picked of it, backwards.
pub proof fn lemma_kept_reversed<A>(s: Seq<A>, wanted: spec_fn(A) -> bool)
    ensures
        kept(s.reverse(), wanted) == kept(s, wanted).reverse(),
    decreases s.len(),
{
    if s.len() > 0 {
        let t = s.drop_last();
        let x = s.last();
        lemma_kept_reversed(t, wanted);
        assert(s.reverse() =~= seq![x] + t.reverse());
        lemma_kept_concat(seq![x], t.reverse(), wanted);
        assert(kept(seq![x], wanted) =~= optional(wanted(x), x)) by {
            reveal_with_fuel(kept, 2);
        }
        assert(kept(s, wanted).reverse() =~= optional(wanted(x), x) + kept(t, wanted).reverse());
    } else {
        assert(s.reverse() =~= s);
        assert(kept(s, wanted).reverse() =~= kept(s, wanted));
    }
}

/// What satisfies a condition and what does not make up the whole.
pub proof fn lemma_kept_parts<A>(
    s: Seq<A>,
    wanted: spec_fn(A) -> bool,
    unwanted: spec_fn(A) -> bool,
)
    requires
        forall|a: A| #[trigger] wanted(a) == !unwanted(a),
    ensures
        kept(s, wanted).to_multiset().add(kept(s, unwanted).to_multiset()) == s.to_multiset(),
    decreases s.len(),
{
    broadcast use vstd::seq_lib::group_to_multiset_ensures;

    if s.len() > 0 {
        let t = s.drop_last();
        let x = s.last();
        lemma_kept_parts(t, wanted, unwanted);
        assert(wanted(x) == !unwanted(x));
        assert(s =~= t.push(x));
        assert(kept(t, wanted) + Seq::<A>::empty() =~= kept(t, wanted));
        assert(kept(t, unwanted) + Seq::<A>::empty() =~= kept(t, unwanted));
        assert(kept(t, wanted) + seq![x] =~= kept(t, wanted).push(x));
        assert(kept(t, unwanted) + seq![x] =~= kept(t, unwanted).push(x));
    }
    assert(kept(s, wanted).to_multiset().add(kept(s, unwanted).to_multiset())
        =~= s.to_multiset());
}

/// Sorts a list by a comparison, keeping the order of what it does not part.
pub(crate) fn sort_list<T, F: Fn(&T, &T) -> bool>(
    list: Vec<T>,
    comes_first: F,
    Ghost(before): Ghost<spec_fn(T, T) -> bool>,
) -> (r: Vec<T>)
    requires
        forall|a: T, b: T| #[trigger] comes_first.requires((&a, &b)),
        forall|a: T, b: T, x: bool|
            #[trigger] comes_first.ensures((&a, &b), x) ==> x == before(a, b),
    ensures
        r@ == stable_sort(list@, before),
{
    let ghost all = list@;
    let mut rest: Vec<T> = list;
    let mut r: Vec<T> = Vec::new();
    proof {
        assert(all.take(0) =~= Seq::<T>::empty());
    }
    while rest.len() > 0
        invariant
            rest@.len() <= all.len(),
            rest@ == all.skip(all.len() - rest@.len()),
            r@ == stable_sort(all.take(all.len() - rest@.len()), before),
            forall|a: T, b: T| #[trigger] comes_first.requires((&a, &b)),
            forall|a: T, b: T, x: bool|
                #[trigger] comes_first.ensures((&a, &b), x) ==> x == before(a, b),
        decreases rest@.len(),
    {
        let ghost n = all.len() - rest@.len();
        let item: T = rest.remove(0);
        let ghost sorted = r@;
        let mut j: usize = r.len();
        while j > 0 && comes_first(&item, &r[j - 1])
            invariant
                r@ == sorted,
                j <= r@.len(),
                forall|k: int| j <= k < r@.len() ==> before(item, #[trigger] r@[k]),
                forall|a: T, b: T| #[trigger] comes_first.requires((&a, &b)),
                forall|a: T, b: T, x: bool|
                    #[trigger] comes_first.ensures((&a, &b), x) ==> x == before(a, b),
            ensures
                j <= r@.len(),
                r@ == sorted,
                forall|k: int| j <= k < r@.len() ==> before(item, #[trigger] r@[k]),
                j > 0 ==> !before(item, r@[j - 1]),
            decreases j,
        {
            j -= 1;
        }
        proof {
            lemma_insert_at(sorted, item, before, j as int);
            assert(all.take(n + 1).drop_last() =~= all.take(n));
            assert(item == all[n]);
        }
        r.insert(j, item);
        assert(rest@ =~= all.skip(n + 1));
    }
    assert(all.take(all.len() as int) =~= all);
    r
}

/// Keeps the elements that satisfy a condition.
pub(crate) fn keep_list<T, F: Fn(&T) -> bool>(
    list: Vec<T>,
    keeps: F,
    Ghost(wanted): Ghost<spec_fn(T) -> bool>,
) -> (r: Vec<T>)
    requires
        forall|a: T| #[trigger] keeps.requires((&a,)),
        forall|a: T, x: bool| #[trigger] keeps.ensures((&a,), x) ==> x == wanted(a),
    ensures
        r@ == kept(list@, wanted),
{
    let ghost all = list@;
    let mut rest: Vec<T> = list;
    let mut r: Vec<T> = Vec::new();
    assert(all.take(0) =~= Seq::<T>::empty());
    while rest.len() > 0
        invariant
            rest@.len() <= all.len(),
            rest@ == all.skip(all.len() - rest@.len()),
            r@ == kept(all.take(all.len() - rest@.len()), wanted),
            forall|a: T| #[trigger] keeps.requires((&a,)),
            forall|a: T, x: bool| #[trigger] keeps.ensures((&a,), x) ==> x == wanted(a),
        decreases rest@.len(),
    {
        let ghost n = all.len() - rest@.len();
        let item: T = rest.remove(0);
        proof {
            lemma_kept_step(all, wanted, n);
            assert(item == all[n]);
        }
        let keep: bool = keeps(&item);
        push_if(&mut r, keep, item);
        assert(rest@ =~= all.skip(n + 1));
    }
    assert(all.take(all.len() as int) =~= all);
    r
}

/// Whether an element of the list has the given key.
pub open spec fn has_key<A>(s: Seq<A>, key: spec_fn(A) -> Seq<char>, k: Seq<char>) -> bool {
    exists|i: int| 0 <= i < s.len() && key(#[trigger] s[i]) == k
}

/// The list without elements whose key an earlier one has.
pub open spec fn unique<A>(s: Seq<A>, key: spec_fn(A) -> Seq<char>) -> Seq<A>
    decreases s.len(),
{
    if s.len() == 0 {
        s
    } else {
        let before = unique(s.drop_last(), key);
        if has_key(before, key, key(s.last())) {
            before
        } else {
            before.push(s.last())
        }
    }
}

/// No two elements of a list without repeats have the same key, and no key is
/// lost.
pub proof fn law_unique<A>(s: Seq<A>, key: spec_fn(A) -> Seq<char>)
    ensures
        forall|i: int, j: int|
            0 <= i < j < unique(s, key).len() ==> key(#[trigger] unique(s, key)[i]) != key(
                #[trigger] unique(s, key)[j],
            ),
        forall|i: int| 0 <= i < s.len() ==> has_key(unique(s, key), key, key(#[trigger] s[i])),
        unique(s, key).len() <= s.len(),
    decreases s.len(),
{
    if s.len() > 0 {
        let t = s.drop_last();
        law_unique(t, key);
        let before = unique(t, key);
        let u = unique(s, key);
        assert forall|i: int, j: int| 0 <= i < j < u.len() implies key(#[trigger] u[i]) != key(
            #[trigger] u[j],
        ) by {
            if j < before.len() {
                assert(u[i] == before[i] && u[j] == before[j]);
            } else {
                assert(u[i] == before[i]);
            }
        }
        assert forall|i: int| 0 <= i < s.len() implies has_key(u, key, key(#[trigger] s[i])) by {
            if i < t.len() {
                assert(t[i] == s[i]);
                assert(has_key(before, key, key(t[i])));
                let k = choose|k: int| 0 <= k < before.len() && key(#[trigger] before[k]) == key(t[i]);
                assert(u[k] == before[k]);
            } else if has_key(before, key, key(s.last())) {
            } else {
                assert(u[u.len() - 1] == s.last());
            }
        }
    }
}

/// Drops elements whose key an earlier one has.
pub(crate) fn keep_unique<T, F: Fn(&T) -> String>(
    list: Vec<T>,
    key_of: F,
    Ghost(key): Ghost<spec_fn(T) -> Seq<char>>,
) -> (r: Vec<T>)
    requires
        forall|a: T| #[trigger] key_of.requires((&a,)),
        forall|a: T, x: String| #[trigger] key_of.ensures((&a,), x) ==> x@ == key(a),
    ensures
        r@ == unique(list@, key),
{
    let ghost all = list@;
    let mut rest: Vec<T> = list;
    let mut r: Vec<T> = Vec::new();
    let mut keys: Vec<String> = Vec::new();
    assert(all.take(0) =~= Seq::<T>::empty());
    while rest.len() > 0
        invariant
            rest@.len() <= all.len(),
            rest@ == all.skip(all.len() - rest@.len()),
            r@ == unique(all.take(all.len() - rest@.len()), key),
            keys@.len() == r@.len(),
            forall|k: int| 0 <= k < r@.len() ==> (#[trigger] keys@[k])@ == key(r@[k]),
            forall|a: T| #[trigger] key_of.requires((&a,)),
            forall|a: T, x: String| #[trigger] key_of.ensures((&a,), x) ==> x@ == key(a),
        decreases rest@.len(),
    {
        let ghost n = all.len() - rest@.len();
        let item: T = rest.remove(0);
        let own: String = key_of(&item);
        let mut seen: bool = false;
        let mut i: usize = 0;
        while i < keys.len()
            invariant
                i <= keys@.len(),
                seen == exists|k: int| 0 <= k < i && (#[trigger] keys@[k])@ == own@,
            decreases keys@.len() - i,
        {
            if keys[i] == own {
                assert(keys@[i as int]@ == own@);
                seen = true;
            }
            i += 1;
        }
        proof {
            assert(all.take(n + 1).drop_last() =~= all.take(n));
            assert(item == all[n]);
            assert(seen == has_key(r@, key, key(item))) by {
                if seen {
                    let k = choose|k: int| 0 <= k < keys@.len() && (#[trigger] keys@[k])@ == own@;
                    assert(key(r@[k]) == key(item));
                }
                if has_key(r@, key, key(item)) {
                    let k = choose|k: int| 0 <= k < r@.len() && key(#[trigger] r@[k]) == key(item);
                    assert(keys@[k]@ == own@);
                }
            }
        }
        if !seen {
            r.push(item);
            keys.push(own);
        }
        assert(rest@ =~= all.skip(n + 1));
    }
    assert(all.take(all.len() as int) =~= all);
    r
}

/// The first `limit` elements.
pub open spec fn first_of<A>(s: Seq<A>, limit: int) -> Seq<A> {
    if s.len() <= limit {
        s
    } else {
        s.take(limit)
    }
}

/// A list without repeats holds nothing new.
pub proof fn lemma_unique_members<A>(s: Seq<A>, key: spec_fn(A) -> Seq<char>, x: A)
    requires
        unique(s, key).contains(x),
    ensures
        s.contains(x),
    decreases s.len(),
{
    let t = s.drop_last();
    let before = unique(t, key);
    let u = unique(s, key);
    let i = choose|i: int| 0 <= i < u.len() && u[i] == x;
    if i < before.len() {
        assert(before[i] == x);
        lemma_unique_members(t, key, x);
        let k = choose|k: int| 0 <= k < t.len() && t[k] == x;
        assert(s[k] == x);
    } else {
        assert(s[s.len() - 1] == x);
    }
}

/// What is kept of an image is the image of what is kept.
pub proof fn lemma_map_kept<A, B>(
    s: Seq<A>,
    f: spec_fn(A) -> B,
    wanted: spec_fn(A) -> bool,
    image_wanted: spec_fn(B) -> bool,
)
    requires
        forall|a: A| #[trigger] wanted(a) == image_wanted(f(a)),
    ensures
        kept(s.map_values(f), image_wanted) == kept(s, wanted).map_values(f),
    decreases s.len(),
{
    if s.len() > 0 {
        lemma_map_kept(s.drop_last(), f, wanted, image_wanted);
        assert(s.map_values(f).drop_last() =~= s.drop_last().map_values(f));
        assert(wanted(s.last()) == image_wanted(f(s.last())));
        assert(kept(s, wanted).map_values(f) =~= kept(s.drop_last(), wanted).map_values(f)
            + optional(wanted(s.last()), f(s.last())));
    } else {
        assert(kept(s, wanted).map_values(f) =~= Seq::<B>::empty());
        assert(s.map_values(f).len() == 0);
    }
}

/// The repeats of an image are those of the list.
pub proof fn lemma_map_unique<A, B>(
    s: Seq<A>,
    f: spec_fn(A) -> B,
    key: spec_fn(A) -> Seq<char>,
    image_key: spec_fn(B) -> Seq<char>,
)
    requires
        forall|a: A| #[trigger] key(a) == image_key(f(a)),
    ensures
        unique(s.map_values(f), image_key) == unique(s, key).map_values(f),
    decreases s.len(),
{
    if s.len() > 0 {
        lemma_map_unique(s.drop_last(), f, key, image_key);
        assert(s.map_values(f).drop_last() =~= s.drop_last().map_values(f));
        let before = unique(s.drop_last(), key);
        let image = unique(s.drop_last().map_values(f), image_key);
        assert(image == before.map_values(f));
        assert(has_key(before, key, key(s.last())) == has_key(
            image,
            image_key,
            image_key(f(s.last())),
        )) by {
            if has_key(before, key, key(s.last())) {
                let i = choose|i: int|
                    0 <= i < before.len() && key(#[trigger] before[i]) == key(s.last());
                assert(image[i] == f(before[i]));
            }
            if has_key(image, image_key, image_key(f(s.last()))) {
                let i = choose|i: int|
                    0 <= i < image.len() && image_key(#[trigger] image[i]) == image_key(
                        f(s.last()),
                    );
                assert(key(before[i]) == image_key(f(before[i])));
            }
        }
        assert(before.push(s.last()).map_values(f) =~= image.push(f(s.last())));
    } else {
        assert(unique(s, key).map_values(f) =~= s.map_values(f));
    }
}

proof fn lemma_map_insert<A, B>(
    s: Seq<A>,
    x: A,
    f: spec_fn(A) -> B,
    before: spec_fn(A, A) -> bool,
    image_before: spec_fn(B, B) -> bool,
)
    requires
        forall|a: A, b: A| #[trigger] before(a, b) == image_before(f(a), f(b)),
    ensures
        insert_stable(s.map_values(f), f(x), image_before) == insert_stable(
            s,
            x,
            before,
        ).map_values(f),
    decreases s.len(),
{
    if s.len() > 0 && before(x, s.last()) {
        lemma_map_insert(s.drop_last(), x, f, before, image_before);
        assert(s.map_values(f).drop_last() =~= s.drop_last().map_values(f));
        let inner = insert_stable(s.drop_last(), x, before);
        assert(inner.push(s.last()).map_values(f) =~= inner.map_values(f).push(f(s.last())));
    } else {
        if s.len() > 0 {
            assert(before(x, s.last()) == image_before(f(x), f(s.last())));
        }
        assert(s.push(x).map_values(f) =~= s.map_values(f).push(f(x)));
    }
}

/// The sorted image is the image of the sorted list.
pub proof fn lemma_map_sort<A, B>(
    s: Seq<A>,
    f: spec_fn(A) -> B,
    before: spec_fn(A, A) -> bool,
    image_before: spec_fn(B, B) -> bool,
)
    requires
        forall|a: A, b: A| #[trigger] before(a, b) == image_before(f(a), f(b)),
    ensures
        stable_sort(s.map_values(f), image_before) == stable_sort(s, before).map_values(f),
    decreases s.len(),
{
    if s.len() > 0 {
        lemma_map_sort(s.drop_last(), f, before, image_before);
        assert(s.map_values(f).drop_last() =~= s.drop_last().map_values(f));
        lemma_map_insert(stable_sort(s.drop_last(), before), s.last(), f, before, image_before);
    } else {
        assert(stable_sort(s, before).map_values(f) =~= s.map_values(f));
    }
}

/// Sorting keeps exactly what was there.
pub proof fn lemma_sorted_members<A>(s: Seq<A>, before: spec_fn(A, A) -> bool, x: A)
    requires
        weak_order(before),
    ensures
        stable_sort(s, before).contains(x) <==> s.contains(x),
{
    broadcast use vstd::seq_lib::group_to_multiset_ensures;

    law_stable_sort(s, before);
    let t = stable_sort(s, before);
    assert(t.contains(x) <==> t.to_multiset().count(x) > 0);
    assert(s.contains(x) <==> s.to_multiset().count(x) > 0);
}

/// Of the elements that are kept, the first with a key survives among those
/// without repeats.
pub proof fn lemma_first_with_a_key_survives<A>(
    s: Seq<A>,
    wanted: spec_fn(A) -> bool,
    key: spec_fn(A) -> Seq<char>,
    k: int,
)
    requires
        0 <= k < s.len(),
        wanted(s[k]),
        forall|j: int| 0 <= j < k && wanted(#[trigger] s[j]) ==> key(s[j]) != key(s[k]),
    ensures
        unique(kept(s, wanted), key).contains(s[k]),
    decreases s.len(),
{
    let t = s.drop_last();
    let x = s[k];
    let before = kept(t, wanted);
    let now = kept(s, wanted);
    if k < t.len() {
        assert forall|j: int| 0 <= j < k && wanted(#[trigger] t[j]) implies key(t[j]) != key(
            t[k],
        ) by {
            assert(t[j] == s[j]);
        }
        lemma_first_with_a_key_survives(t, wanted, key, k);
        let u = unique(before, key);
        let i = choose|i: int| 0 <= i < u.len() && u[i] == x;
        if wanted(s.last()) {
            assert(now =~= before.push(s.last()));
            assert(now.drop_last() =~= before);
            assert(unique(now, key)[i] == x);
        } else {
            assert(now =~= before);
        }
    } else {
        assert(now =~= before.push(x));
        assert(now.drop_last() =~= before);
        let u = unique(before, key);
        if has_key(u, key, key(x)) {
            let i = choose|i: int| 0 <= i < u.len() && key(#[trigger] u[i]) == key(x);
            assert(u.contains(u[i]));
            lemma_unique_members(before, key, u[i]);
            lemma_kept_members(t, wanted, u[i]);
            let j = choose|j: int| 0 <= j < t.len() && t[j] == u[i];
            assert(s[j] == t[j]);
            assert(false);
        }
        assert(unique(now, key) == u.push(x));
        assert(unique(now, key)[u.len() as int] == x);
    }
}

} // verus!
