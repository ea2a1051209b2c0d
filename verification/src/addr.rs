use vstd::prelude::*;

verus! {

/// Whether `a` occurs in the list `v`.
pub open spec fn listed(v: Seq<String>, a: Seq<char>) -> bool {
    exists|i: int| 0 <= i < v.len() && #[trigger] v[i]@ == a
}

/// `v` with each of `new` that is not listed by then added at the end, in the
/// order of `new`.
pub open spec fn with_added(v: Seq<String>, new: Seq<String>) -> Seq<String>
    decreases new.len(),
{
    if new.len() == 0 {
        v
    } else {
        let w = with_added(v, new.drop_last());
        if listed(w, new.last()@) {
            w
        } else {
            w.push(new.last())
        }
    }
}

/// `v` without the entries listed in `removed`, the others kept in their order.
pub open spec fn without(v: Seq<String>, removed: Seq<String>) -> Seq<String>
    decreases v.len(),
{
    if v.len() == 0 {
        v
    } else {
        let w = without(v.drop_last(), removed);
        if listed(removed, v.last()@) {
            w
        } else {
            w.push(v.last())
        }
    }
}

/// Taking out entries of which none is in `v` leaves `v` as it was.
pub proof fn without_unlisted(v: Seq<String>, removed: Seq<String>)
    requires
        forall|i: int| 0 <= i < v.len() ==> !listed(removed, #[trigger] v[i]@),
    ensures
        without(v, removed) == v,
    decreases v.len(),
{
    if v.len() > 0 {
        let u = v.drop_last();
        assert forall|i: int| 0 <= i < u.len() implies !listed(removed, #[trigger] u[i]@) by {
            assert(u[i] == v[i]);
        }
        without_unlisted(u, removed);
        assert(!listed(removed, v[v.len() - 1]@));
        assert(u.push(v.last()) =~= v);
    }
}

/// Whether `x` occurs in `v`.
pub fn contains(v: &Vec<String>, x: &String) -> (r: bool)
    ensures
        r == listed(v@, x@),
{
    let n = v.len();
    let mut i: usize = 0;
    while i < n
        invariant
            n == v@.len(),
            0 <= i <= n,
            forall|j: int| 0 <= j < i ==> v@[j]@ != x@,
        decreases n - i,
    {
        if v[i] == *x {
            return true;
        }
        i = i + 1;
    }
    false
}

/// A copy of the list `v`.
pub fn copy_all(v: &Vec<String>) -> (r: Vec<String>)
    ensures
        r@ == v@,
{
    let n = v.len();
    let mut r: Vec<String> = Vec::new();
    let mut i: usize = 0;
    while i < n
        invariant
            n == v@.len(),
            0 <= i <= n,
            r@ == v@.subrange(0, i as int),
        decreases n - i,
    {
        r.push(v[i].clone());
        i = i + 1;
    }
    assert(v@.subrange(0, n as int) =~= v@);
    r
}

/// Appends a copy of every element of `extra` to `v`, in order.
pub fn append_all(v: &mut Vec<String>, extra: &Vec<String>)
    ensures
        final(v)@ == old(v)@ + extra@,
{
    let n = extra.len();
    let mut i: usize = 0;
    while i < n
        invariant
            n == extra@.len(),
            0 <= i <= n,
            v@ == old(v)@ + extra@.subrange(0, i as int),
        decreases n - i,
    {
        v.push(extra[i].clone());
        i = i + 1;
        assert(v@ =~= old(v)@ + extra@.subrange(0, i as int));
    }
    assert(extra@.subrange(0, n as int) =~= extra@);
}

/// Adds to the list `pairs`, taken as a set, each of `new` that it does not hold yet.
pub fn register_all(pairs: &mut Vec<String>, new: &Vec<String>)
    ensures
        final(pairs)@ == with_added(old(pairs)@, new@),
        forall|a: Seq<char>| #[trigger] listed(final(pairs)@, a) <==> listed(old(pairs)@, a) || listed(new@, a),
{
    let n = new.len();
    let mut i: usize = 0;
    while i < n
        invariant
            n == new@.len(),
            0 <= i <= n,
            pairs@ == with_added(old(pairs)@, new@.subrange(0, i as int)),
            forall|a: Seq<char>| listed(pairs@, a) <==> listed(old(pairs)@, a)
                || listed(new@.subrange(0, i as int), a),
        decreases n - i,
    {
        let ghost before = pairs@;
        if !contains(pairs, &new[i]) {
            pairs.push(new[i].clone());
        }
        proof {
            let sub = new@.subrange(0, i as int);
            let sub1 = new@.subrange(0, i + 1);
            assert(sub1.drop_last() =~= sub);
            assert forall|a: Seq<char>| listed(pairs@, a) <==> listed(before, a) || new@[i as int]@ == a by {
                if listed(before, a) {
                    let j = choose|j: int| 0 <= j < before.len() && #[trigger] before[j]@ == a;
                    assert(pairs@[j] == before[j]);
                }
                if listed(pairs@, a) && !listed(before, a) {
                    let j = choose|j: int| 0 <= j < pairs@.len() && #[trigger] pairs@[j]@ == a;
                    if j < before.len() {
                        assert(pairs@[j] == before[j]);
                    }
                }
                if new@[i as int]@ == a && !listed(before, a) {
                    assert(pairs@[before.len() as int]@ == a);
                }
            }
            assert forall|a: Seq<char>| listed(sub1, a) <==> listed(sub, a) || new@[i as int]@ == a by {
                if listed(sub, a) {
                    let j = choose|j: int| 0 <= j < sub.len() && #[trigger] sub[j]@ == a;
                    assert(sub1[j] == sub[j]);
                }
                if listed(sub1, a) && !listed(sub, a) {
                    let j = choose|j: int| 0 <= j < sub1.len() && #[trigger] sub1[j]@ == a;
                    if j < sub.len() {
                        assert(sub1[j] == sub[j]);
                    }
                }
                if new@[i as int]@ == a {
                    assert(sub1[i as int]@ == a);
                }
            }
            assert forall|a: Seq<char>| listed(pairs@, a) <==> listed(old(pairs)@, a) || listed(sub1, a) by {
                assert(listed(before, a) <==> listed(old(pairs)@, a) || listed(sub, a));
            }
        }
        i = i + 1;
    }
    assert(new@.subrange(0, n as int) =~= new@);
}

/// Takes out of the list `pairs`, taken as a set, each of `removed`; the others are ignored.
pub fn unregister_all(pairs: &mut Vec<String>, removed: &Vec<String>)
    ensures
        final(pairs)@ == without(old(pairs)@, removed@),
        forall|a: Seq<char>| #[trigger] listed(final(pairs)@, a) <==> listed(old(pairs)@, a) && !listed(removed@, a),
{
    let n = pairs.len();
    let mut kept: Vec<String> = Vec::new();
    let mut i: usize = 0;
    while i < n
        invariant
            n == pairs@.len(),
            pairs@ == old(pairs)@,
            0 <= i <= n,
            kept@ == without(pairs@.subrange(0, i as int), removed@),
            forall|a: Seq<char>| listed(kept@, a) <==> listed(pairs@.subrange(0, i as int), a)
                && !listed(removed@, a),
        decreases n - i,
    {
        let ghost before = kept@;
        if !contains(removed, &pairs[i]) {
            kept.push(pairs[i].clone());
        }
        proof {
            let sub = pairs@.subrange(0, i as int);
            let sub1 = pairs@.subrange(0, i + 1);
            assert(sub1.drop_last() =~= sub);
            assert forall|a: Seq<char>| listed(sub1, a) <==> listed(sub, a) || pairs@[i as int]@ == a by {
                if listed(sub, a) {
                    let j = choose|j: int| 0 <= j < sub.len() && #[trigger] sub[j]@ == a;
                    assert(sub1[j] == sub[j]);
                }
                if listed(sub1, a) && !listed(sub, a) {
                    let j = choose|j: int| 0 <= j < sub1.len() && #[trigger] sub1[j]@ == a;
                    if j < sub.len() {
                        assert(sub1[j] == sub[j]);
                    }
                }
                if pairs@[i as int]@ == a {
                    assert(sub1[i as int]@ == a);
                }
            }
            assert forall|a: Seq<char>| listed(kept@, a) <==> listed(before, a)
                || (pairs@[i as int]@ == a && !listed(removed@, a)) by {
                if listed(before, a) {
                    let j = choose|j: int| 0 <= j < before.len() && #[trigger] before[j]@ == a;
                    assert(kept@[j] == before[j]);
                }
                if listed(kept@, a) && !listed(before, a) {
                    let j = choose|j: int| 0 <= j < kept@.len() && #[trigger] kept@[j]@ == a;
                    if j < before.len() {
                        assert(kept@[j] == before[j]);
                    }
                }
                if pairs@[i as int]@ == a && !listed(removed@, a) && !listed(before, a) {
                    assert(kept@[before.len() as int]@ == a);
                }
            }
            assert forall|a: Seq<char>| listed(kept@, a) <==> listed(sub1, a) && !listed(removed@, a) by {
                assert(listed(before, a) <==> listed(sub, a) && !listed(removed@, a));
            }
        }
        i = i + 1;
    }
    assert(pairs@.subrange(0, n as int) =~= pairs@);
    *pairs = kept;
}

} // verus!
