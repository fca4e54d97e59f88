//! A condition nests to a limit, however it is written.

use vstd::prelude::*;
use crate::ast::ExprV;
use crate::parser::condition::{
    all_of, and_tail, any_of, boolean_and, boolean_unary, boolean_unary_inner, disjunction, leaf_of,
    or_tail,
};
use crate::parser::cursor::{is_sym, is_word, next, MAX_DEPTH};
use crate::parser::predicate::predicate;
use crate::token::{Sym, TokenV};

verus! {

/// How deep a condition nests.
pub open spec fn height(e: ExprV) -> nat
    decreases e,
{
    match e {
        ExprV::Leaf(_) => 0,
        ExprV::Not(inner) => height(*inner) + 1,
        ExprV::And(parts) => tallest(parts) + 1,
        ExprV::Or(parts) => tallest(parts) + 1,
    }
}

/// How deep the deepest of some conditions nests.
pub open spec fn tallest(parts: Seq<ExprV>) -> nat
    decreases parts,
{
    if parts.len() == 0 {
        0
    } else {
        let rest = tallest(parts.drop_last());
        let last = height(parts.last());
        if rest > last {
            rest
        } else {
            last
        }
    }
}

proof fn tallest_push(parts: Seq<ExprV>, e: ExprV, bound: nat)
    requires
        tallest(parts) <= bound,
        height(e) <= bound,
    ensures
        tallest(parts.push(e)) <= bound,
{
    assert(parts.push(e).drop_last() =~= parts);
}

proof fn tallest_one(e: ExprV)
    ensures
        tallest(seq![e]) == height(e),
{
    assert(seq![e].drop_last() =~= Seq::<ExprV>::empty());
    assert(tallest(seq![e].drop_last()) == 0);
}

proof fn joined_height(parts: Seq<ExprV>, bound: nat)
    requires
        tallest(parts) <= bound,
    ensures
        height(any_of(parts)) <= bound + 1,
        height(all_of(parts)) <= bound + 1,
{
    if parts.len() == 1 {
        assert(parts.last() == parts[0]);
    }
}

/// How deep what is read at a depth can nest.
pub open spec fn room(d: nat) -> nat {
    if d >= MAX_DEPTH {
        0
    } else {
        (2 * (MAX_DEPTH - d)) as nat
    }
}

proof fn or_height(t: Seq<TokenV>, s: int, d: nat)
    requires
        d <= MAX_DEPTH,
    ensures
        disjunction(t, s, d) is Ok ==> height(disjunction(t, s, d)->Ok_0.0) <= room(d) + 2,
    decreases MAX_DEPTH + 1 - d, 4nat, 0int,
{
    and_height(t, s, d);
    if let Ok((first, s1)) = boolean_and(t, s, d) {
        tallest_one(first);
        or_tail_height(t, s1, d, seq![first]);
        if let Ok((parts, _)) = or_tail(t, s1, d, seq![first]) {
            joined_height(parts, room(d) + 1);
        }
    }
}

proof fn or_tail_height(t: Seq<TokenV>, s: int, d: nat, done: Seq<ExprV>)
    requires
        d <= MAX_DEPTH,
        tallest(done) <= room(d) + 1,
    ensures
        or_tail(t, s, d, done) is Ok ==> tallest(or_tail(t, s, d, done)->Ok_0.0) <= room(d) + 1,
    decreases MAX_DEPTH + 1 - d, 3nat, t.len() - s,
{
    if is_word(t, s, "OR"@) {
        and_height(t, next(t, s), d);
        if let Ok((x, s2)) = boolean_and(t, next(t, s), d) {
            tallest_push(done, x, room(d) + 1);
            if s < s2 <= t.len() {
                or_tail_height(t, s2, d, done.push(x));
            }
        }
    }
}

proof fn and_height(t: Seq<TokenV>, s: int, d: nat)
    requires
        d <= MAX_DEPTH,
    ensures
        boolean_and(t, s, d) is Ok ==> height(boolean_and(t, s, d)->Ok_0.0) <= room(d) + 1,
    decreases MAX_DEPTH + 1 - d, 2nat, 0int,
{
    unary_height(t, s, d);
    if let Ok((first, s1)) = boolean_unary(t, s, d) {
        tallest_one(first);
        and_tail_height(t, s1, d, seq![first]);
        if let Ok((parts, _)) = and_tail(t, s1, d, seq![first]) {
            joined_height(parts, room(d));
        }
    }
}

proof fn and_tail_height(t: Seq<TokenV>, s: int, d: nat, done: Seq<ExprV>)
    requires
        d <= MAX_DEPTH,
        tallest(done) <= room(d),
    ensures
        and_tail(t, s, d, done) is Ok ==> tallest(and_tail(t, s, d, done)->Ok_0.0) <= room(d),
    decreases MAX_DEPTH + 1 - d, 1nat, t.len() - s,
{
    if is_word(t, s, "AND"@) {
        unary_height(t, next(t, s), d);
        if let Ok((x, s2)) = boolean_unary(t, next(t, s), d) {
            tallest_push(done, x, room(d));
            if s < s2 <= t.len() {
                and_tail_height(t, s2, d, done.push(x));
            }
        }
    }
}

proof fn unary_height(t: Seq<TokenV>, s: int, d: nat)
    requires
        d <= MAX_DEPTH,
    ensures
        boolean_unary(t, s, d) is Ok ==> height(boolean_unary(t, s, d)->Ok_0.0) <= room(d),
    decreases MAX_DEPTH + 1 - d, 0nat, 0int,
{
    if d < MAX_DEPTH {
        unary_inner_height(t, s, d + 1);
    }
}

proof fn unary_inner_height(t: Seq<TokenV>, s: int, d: nat)
    requires
        1 <= d <= MAX_DEPTH,
    ensures
        boolean_unary_inner(t, s, d) is Ok ==> height(boolean_unary_inner(t, s, d)->Ok_0.0)
            <= room(d) + 2,
    decreases MAX_DEPTH + 1 - d, 5nat, 0int,
{
    if is_word(t, s, "NOT"@) {
        unary_height(t, next(t, s), d);
    } else if is_sym(t, s, Sym::LParen) {
        or_height(t, next(t, s), d);
    } else if is_word(t, s, "EXISTS"@) {
    } else {
        if let Ok((leaf, _)) = predicate(t, s, d) {
            reveal_with_fuel(height, 3);
            assert(height(leaf_of(leaf.0, leaf.1)) <= 1);
        }
    }
}

/// A condition nests at most to a limit that the depth it is read at leaves.
pub proof fn condition_is_shallow(t: Seq<TokenV>, s: int, d: nat)
    requires
        d <= MAX_DEPTH,
    ensures
        disjunction(t, s, d) is Ok ==> height(disjunction(t, s, d)->Ok_0.0) <= 2 * MAX_DEPTH + 2,
        d == MAX_DEPTH ==> disjunction(t, s, d) is Err,
{
    or_height(t, s, d);
}

} // verus!
