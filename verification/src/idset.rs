//! Sets of row sequences, held as ascending lists.

use vstd::prelude::*;

verus! {

/// Strictly ascending, so without duplicates.
pub open spec fn ascending(s: Seq<u64>) -> bool {
    forall|i: int, j: int| 0 <= i < j < s.len() ==> s[i] < s[j]
}

/// Whether two lists hold the same numbers.
pub open spec fn same_members(a: Seq<u64>, b: Seq<u64>) -> bool {
    forall|x: u64| a.contains(x) <==> b.contains(x)
}

/// The ascending list of the numbers that `s` holds.
pub open spec fn id_set(s: Seq<u64>) -> Seq<u64> {
    choose|r: Seq<u64>| ascending(r) && same_members(r, s)
}

proof fn pushed(s: Seq<u64>, v: u64, x: u64)
    ensures
        s.push(v).contains(x) <==> s.contains(x) || x == v,
{
    if s.contains(x) {
        let k = choose|k: int| 0 <= k < s.len() && s[k] == x;
        assert(s.push(v)[k] == x);
    }
    if x == v {
        assert(s.push(v)[s.len() as int] == x);
    }
}

/// An ascending list is determined by what it holds.
pub proof fn ascending_unique(a: Seq<u64>, b: Seq<u64>)
    requires
        ascending(a),
        ascending(b),
        same_members(a, b),
    ensures
        a == b,
    decreases a.len(),
{
    if a.len() == 0 {
        if b.len() > 0 {
            assert(b.contains(b[0]));
        }
        assert(a =~= b);
    } else {
        assert(a.contains(a.last()));
        assert(b.len() > 0);
        assert(b.contains(b.last()));
        assert(a.contains(b.last()));
        assert(b.contains(a.last()));
        assert(a.last() == b.last());
        let x = a.drop_last();
        let y = b.drop_last();
        assert forall|v: u64| x.contains(v) <==> y.contains(v) by {
            pushed(x, a.last(), v);
            pushed(y, b.last(), v);
            assert(x.push(a.last()) =~= a);
            assert(y.push(b.last()) =~= b);
            if x.contains(v) {
                let k = choose|k: int| 0 <= k < x.len() && x[k] == v;
                assert(a[k] < a[a.len() - 1]);
            }
            if y.contains(v) {
                let k = choose|k: int| 0 <= k < y.len() && y[k] == v;
                assert(b[k] < b[b.len() - 1]);
            }
        }
        ascending_unique(x, y);
        assert(x.push(a.last()) =~= a);
        assert(y.push(b.last()) =~= b);
    }
}

proof fn with_member(r: Seq<u64>, x: u64) -> (q: Seq<u64>)
    requires
        ascending(r),
    ensures
        ascending(q),
        forall|y: u64| q.contains(y) <==> r.contains(y) || y == x,
    decreases r.len(),
{
    if r.len() == 0 {
        assert forall|y: u64| r.push(x).contains(y) <==> r.contains(y) || y == x by {
            pushed(r, x, y);
        }
        r.push(x)
    } else {
        let front = r.drop_last();
        let last = r.last();
        assert(front.push(last) =~= r);
        assert forall|y: u64| r.contains(y) <==> front.contains(y) || y == last by {
            pushed(front, last, y);
        }
        if last < x {
            assert forall|y: u64| r.push(x).contains(y) <==> r.contains(y) || y == x by {
                pushed(r, x, y);
            }
            r.push(x)
        } else if last == x {
            r
        } else {
            let q = with_member(front, x);
            assert forall|k: int| 0 <= k < q.len() implies #[trigger] q[k] < last by {
                assert(q.contains(q[k]));
                if front.contains(q[k]) {
                    let j = choose|j: int| 0 <= j < front.len() && front[j] == q[k];
                    assert(r[j] < r[r.len() - 1]);
                }
            }
            assert forall|y: u64| q.push(last).contains(y) <==> r.contains(y) || y == x by {
                pushed(q, last, y);
            }
            q.push(last)
        }
    }
}

proof fn ascending_list(s: Seq<u64>) -> (r: Seq<u64>)
    ensures
        ascending(r),
        same_members(r, s),
    decreases s.len(),
{
    if s.len() == 0 {
        s
    } else {
        let front = ascending_list(s.drop_last());
        let q = with_member(front, s.last());
        assert forall|x: u64| q.contains(x) <==> s.contains(x) by {
            pushed(s.drop_last(), s.last(), x);
            assert(s.drop_last().push(s.last()) =~= s);
        }
        q
    }
}

/// The set of some numbers holds them and no others, each once.
pub proof fn id_set_holds(s: Seq<u64>)
    ensures
        ascending(id_set(s)),
        same_members(id_set(s), s),
{
    let r = ascending_list(s);
    assert(ascending(r) && same_members(r, s));
}

fn merge(a: &Vec<u64>, b: &Vec<u64>) -> (r: Vec<u64>)
    requires
        ascending(a@),
        ascending(b@),
    ensures
        ascending(r@),
        forall|x: u64| r@.contains(x) <==> a@.contains(x) || b@.contains(x),
{
    let mut out: Vec<u64> = Vec::new();
    let mut i: usize = 0;
    let mut j: usize = 0;
    assert(a@.take(0) =~= Seq::<u64>::empty() && b@.take(0) =~= Seq::<u64>::empty());
    while i < a.len() || j < b.len()
        invariant
            i <= a@.len(),
            j <= b@.len(),
            ascending(a@),
            ascending(b@),
            ascending(out@),
            forall|k: int| 0 <= k < out@.len() && i < a@.len() ==> #[trigger] out@[k] < a@[i as int],
            forall|k: int| 0 <= k < out@.len() && j < b@.len() ==> #[trigger] out@[k] < b@[j as int],
            forall|x: u64|
                out@.contains(x) <==> a@.take(i as int).contains(x) || b@.take(j as int).contains(
                    x,
                ),
        decreases a@.len() - i + b@.len() - j,
    {
        let ghost before = out@;
        let take_a = if i >= a.len() {
            false
        } else if j >= b.len() {
            true
        } else {
            a[i] <= b[j]
        };
        let take_b = if j >= b.len() {
            false
        } else if i >= a.len() {
            true
        } else {
            b[j] <= a[i]
        };
        let v: u64 = if take_a {
            a[i]
        } else {
            b[j]
        };
        out.push(v);
        let ghost was_i = i;
        let ghost was_j = j;
        if take_a {
            i = i + 1;
        }
        if take_b {
            j = j + 1;
        }
        proof {
            assert forall|x: u64| out@.contains(x) <==> a@.take(i as int).contains(x) || b@.take(
                j as int,
            ).contains(x) by {
                pushed(before, v, x);
                if take_a {
                    pushed(a@.take(was_i as int), v, x);
                    assert(a@.take(i as int) =~= a@.take(was_i as int).push(v));
                }
                if take_b {
                    pushed(b@.take(was_j as int), v, x);
                    assert(b@.take(j as int) =~= b@.take(was_j as int).push(v));
                }
            }
        }
    }
    assert(a@.take(i as int) =~= a@);
    assert(b@.take(j as int) =~= b@);
    out
}

fn sort_between(v: &Vec<u64>, from: usize, to: usize) -> (r: Vec<u64>)
    requires
        from <= to <= v@.len(),
    ensures
        ascending(r@),
        same_members(r@, v@.subrange(from as int, to as int)),
    decreases to - from,
{
    if to - from == 0 {
        let r: Vec<u64> = Vec::new();
        assert(r@ =~= v@.subrange(from as int, to as int));
        r
    } else if to - from == 1 {
        let mut r: Vec<u64> = Vec::new();
        r.push(v[from]);
        assert(r@ =~= v@.subrange(from as int, to as int));
        r
    } else {
        let middle: usize = from + (to - from) / 2;
        let a = sort_between(v, from, middle);
        let b = sort_between(v, middle, to);
        let r = merge(&a, &b);
        proof {
            let front = v@.subrange(from as int, middle as int);
            let back = v@.subrange(middle as int, to as int);
            let whole = v@.subrange(from as int, to as int);
            assert forall|x: u64| r@.contains(x) <==> whole.contains(x) by {
                if front.contains(x) {
                    let k = choose|k: int| 0 <= k < front.len() && front[k] == x;
                    assert(whole[k] == x);
                }
                if back.contains(x) {
                    let k = choose|k: int| 0 <= k < back.len() && back[k] == x;
                    assert(whole[k + front.len()] == x);
                }
                if whole.contains(x) {
                    let k = choose|k: int| 0 <= k < whole.len() && whole[k] == x;
                    if k < front.len() {
                        assert(front[k] == x);
                    } else {
                        assert(back[k - front.len()] == x);
                    }
                }
            }
        }
        r
    }
}

/// The numbers of `v`, ascending and without duplicates.
pub fn sorted_set(v: &Vec<u64>) -> (r: Vec<u64>)
    ensures
        ascending(r@),
        same_members(r@, v@),
        r@ == id_set(v@),
{
    let r = sort_between(v, 0, v.len());
    proof {
        assert(v@.subrange(0, v@.len() as int) =~= v@);
        assert(ascending(r@) && same_members(r@, v@));
        let s = id_set(v@);
        assert(ascending(s) && same_members(s, v@));
        assert(same_members(r@, s));
        ascending_unique(r@, s);
    }
    r
}

} // verus!
