//! Facts about sequences that the proofs of loops share.

use vstd::prelude::*;

verus! {

/// Mapping a sequence that grew by one element.
pub broadcast proof fn mapped_push<A, B>(s: Seq<A>, x: A, f: spec_fn(A) -> B)
    ensures
        #[trigger] s.push(x).map_values(f) == s.map_values(f).push(f(x)),
{
    assert(s.push(x).map_values(f) =~= s.map_values(f).push(f(x)));
}

/// A prefix that is one element longer.
pub broadcast proof fn take_next<A>(s: Seq<A>, i: int)
    requires
        0 <= i < s.len(),
    ensures
        #[trigger] s.take(i + 1) == s.take(i).push(s[i]),
        s.take(i + 1).drop_last() == s.take(i),
{
    assert(s.take(i + 1) =~= s.take(i).push(s[i]));
    assert(s.take(i + 1).drop_last() =~= s.take(i));
}

/// The whole of a sequence is its longest prefix.
pub broadcast proof fn take_all<A>(s: Seq<A>)
    ensures
        #[trigger] s.take(s.len() as int) == s,
{
    assert(s.take(s.len() as int) =~= s);
}

/// The empty prefix.
pub broadcast proof fn take_none<A>(s: Seq<A>)
    ensures
        #[trigger] s.take(0) == Seq::<A>::empty(),
{
    assert(s.take(0) =~= Seq::<A>::empty());
}

pub broadcast group list_facts {
    mapped_push,
    take_next,
    take_all,
    take_none,
}

} // verus!
