//! What the spatial functions of a condition mean.

use vstd::prelude::*;
use crate::ast::{GeoArgV, LiteralV, PointArgV, PredicateV, SpatialPredicate};
use crate::compile::bind::{bounds_of, geom_of, number_of, point_of, BinderV, NumberV};
use crate::compile::env::{kind_of, CollectionV};
use crate::compile::log::{EnvV, LogV};
use crate::compile::predicates::filter_of;
use crate::error::SqlErrorV;
use crate::meaning::condition::{belongs, predicate_keeps_its_meaning};
use crate::meaning::row::{filter_says, reach, Row};
use crate::parser::cursor::{name, next, want, word};
use crate::parser::predicate::{radius, spatial_named, spatial_predicate};
use crate::parser::value::{
    casts, envelope_argument, geo_argument, literal, point_argument,
};
use crate::token::TokenV;
use crate::value::Kind;

verus! {

/// What a spatial function says of what a column covers and what its second
/// argument covers.
pub open spec fn relates(
    function: Seq<char>,
    w: Row,
    x: Set<int>,
    a: Set<int>,
    metres: NumberV,
) -> bool {
    if function == "ST_CONTAINS"@ {
        forall|p: int| a.contains(p) ==> #[trigger] x.contains(p)
    } else if function == "ST_WITHIN"@ {
        forall|p: int| x.contains(p) ==> #[trigger] a.contains(p)
    } else if function == "ST_INTERSECTS"@ {
        exists|p: int| x.contains(p) && #[trigger] a.contains(p)
    } else {
        reach(w, x, a, metres)
    }
}

proof fn words_differ()
    ensures
        "ST_CONTAINS"@ != "ST_WITHIN"@,
        "ST_CONTAINS"@ != "ST_INTERSECTS"@,
        "ST_CONTAINS"@ != "ST_DWITHIN"@,
        "ST_WITHIN"@ != "ST_INTERSECTS"@,
        "ST_WITHIN"@ != "ST_DWITHIN"@,
        "ST_INTERSECTS"@ != "ST_DWITHIN"@,
{
    reveal_strlit("ST_CONTAINS");
    reveal_strlit("ST_WITHIN");
    reveal_strlit("ST_INTERSECTS");
    reveal_strlit("ST_DWITHIN");
    assert("ST_CONTAINS"@.len() == 11);
    assert("ST_WITHIN"@.len() == 9);
    assert("ST_INTERSECTS"@.len() == 13);
    assert("ST_DWITHIN"@.len() == 10);
}

proof fn call_is_read(t: Seq<TokenV>, s: int, d: nat)
    requires
        spatial_predicate(t, s, d) is Ok,
    ensures
        ({
            let named = name(t, next(t, next(t, s)))->Ok_0;
            let geo = geo_argument(t, next(t, casts(t, named.1)->Ok_0), d)->Ok_0;
            let p = spatial_named(word(t, s)->0);
            &&& p is Some
            &&& spatial_predicate(t, s, d)->Ok_0.0 == (PredicateV::Spatial {
                predicate: p->0,
                column: named.0,
                argument: geo.0,
                metres: if p->0 == SpatialPredicate::DWithin {
                    Some(radius(t, geo.1, d)->Ok_0.0)
                } else {
                    None
                },
            })
        }),
{
    reveal(spatial_predicate);
    reveal(want);
}

proof fn points_have_two(
    env: EnvV,
    c: CollectionV,
    predicate: SpatialPredicate,
    column: Seq<char>,
    argument: GeoArgV,
    metres: Option<LiteralV>,
    log: LogV,
)
    requires
        filter_of(
            env,
            c,
            PredicateV::Spatial { predicate, column, argument, metres },
            log,
        ) is Ok,
        kind_of(c, column) == Ok::<Kind, SqlErrorV>(Kind::Point),
    ensures
        predicate == SpatialPredicate::Within || predicate == SpatialPredicate::DWithin,
{
    reveal(filter_of);
}

proof fn point_predicate_says(
    env: EnvV,
    c: CollectionV,
    w: Row,
    predicate: SpatialPredicate,
    column: Seq<char>,
    argument: GeoArgV,
    metres: Option<LiteralV>,
    log: LogV,
)
    requires
        belongs(w, c),
        kind_of(c, column) == Ok::<Kind, SqlErrorV>(Kind::Point),
        filter_of(
            env,
            c,
            PredicateV::Spatial { predicate, column, argument, metres },
            log,
        ) is Ok,
        (w.spot)(column) is Some,
        predicate == SpatialPredicate::Within || predicate == SpatialPredicate::DWithin,
    ensures
        ({
            let p = PredicateV::Spatial { predicate, column, argument, metres };
            let f = filter_of(env, c, p, log)->Ok_0.0;
            let at = (w.spot)(column)->0;
            filter_says(w, f) == Some(
                if predicate == SpatialPredicate::Within {
                    (w.frame)(bounds_of(env.binder, argument)->Ok_0).contains(at)
                } else {
                    (w.near)(
                        at,
                        (w.at)(point_of(env.binder, argument->Point_0)->Ok_0),
                        number_of(env.binder, metres->0)->Ok_0,
                    )
                },
            )
        }),
{
    let p = PredicateV::Spatial { predicate, column, argument, metres };
    predicate_keeps_its_meaning(env, c, w, p, log);
}

/// The filter of a spatial function over a geometry column lets a row through
/// exactly when what the column covers is in the relation that the function is
/// named after to what the second argument covers: `ST_Contains` where the
/// column covers all of it, `ST_Within` where it covers all of the column,
/// `ST_Intersects` where they share a place, and `ST_DWithin` where a place of
/// one is near enough to a place of the other.
pub proof fn spatial_function_keeps_its_meaning(
    env: EnvV,
    c: CollectionV,
    w: Row,
    t: Seq<TokenV>,
    s: int,
    d: nat,
    column: Seq<char>,
    argument: GeoArgV,
    s3: int,
    s4: int,
    s5: int,
    log: LogV,
)
    requires
        belongs(w, c),
        word(t, s) is Some,
        spatial_predicate(t, s, d) is Ok,
        name(t, next(t, next(t, s))) == Ok::<(Seq<char>, int), SqlErrorV>((column, s3)),
        casts(t, s3) == Ok::<int, SqlErrorV>(s4),
        geo_argument(t, next(t, s4), d) == Ok::<(GeoArgV, int), SqlErrorV>(
            (argument, s5),
        ),
        kind_of(c, column) == Ok::<Kind, SqlErrorV>(Kind::Geo),
        filter_of(env, c, spatial_predicate(t, s, d)->Ok_0.0, log) is Ok,
        (w.shape)(column) is Some,
    ensures
        ({
            let f = filter_of(env, c, spatial_predicate(t, s, d)->Ok_0.0, log)->Ok_0.0;
            let x = (w.shape)(column)->0;
            let a = (w.area)(geom_of(env.binder, argument)->Ok_0);
            let far = number_of(env.binder, radius(t, s5, d)->Ok_0.0)->Ok_0;
            filter_says(w, f) == Some(relates(word(t, s)->0, w, x, a, far))
        }),
{
    words_differ();
    let p = spatial_predicate(t, s, d)->Ok_0.0;
    call_is_read(t, s, d);
    predicate_keeps_its_meaning(env, c, w, p, log);
}

/// The same over a point column: `ST_Within` a rectangle where the rectangle
/// covers the point, and `ST_DWithin` where the point is near enough.
pub proof fn spatial_function_of_points(
    env: EnvV,
    c: CollectionV,
    w: Row,
    t: Seq<TokenV>,
    s: int,
    d: nat,
    column: Seq<char>,
    argument: GeoArgV,
    s3: int,
    s4: int,
    s5: int,
    log: LogV,
)
    requires
        belongs(w, c),
        word(t, s) is Some,
        spatial_predicate(t, s, d) is Ok,
        name(t, next(t, next(t, s))) == Ok::<(Seq<char>, int), SqlErrorV>((column, s3)),
        casts(t, s3) == Ok::<int, SqlErrorV>(s4),
        geo_argument(t, next(t, s4), d) == Ok::<(GeoArgV, int), SqlErrorV>(
            (argument, s5),
        ),
        kind_of(c, column) == Ok::<Kind, SqlErrorV>(Kind::Point),
        filter_of(env, c, spatial_predicate(t, s, d)->Ok_0.0, log) is Ok,
        (w.spot)(column) is Some,
    ensures
        ({
            let f = filter_of(env, c, spatial_predicate(t, s, d)->Ok_0.0, log)->Ok_0.0;
            let p = (w.spot)(column)->0;
            let far = number_of(env.binder, radius(t, s5, d)->Ok_0.0)->Ok_0;
            &&& word(t, s) == Some("ST_WITHIN"@) || word(t, s) == Some("ST_DWITHIN"@)
            &&& word(t, s) == Some("ST_WITHIN"@) ==> filter_says(w, f) == Some(
                (w.frame)(bounds_of(env.binder, argument)->Ok_0).contains(p),
            )
            &&& word(t, s) == Some("ST_DWITHIN"@) ==> filter_says(w, f) == Some(
                (w.near)(p, (w.at)(point_of(env.binder, argument->Point_0)->Ok_0), far),
            )
        }),
{
    words_differ();
    let p = spatial_predicate(t, s, d)->Ok_0.0;
    call_is_read(t, s, d);
    let far = Some(radius(t, s5, d)->Ok_0.0);
    if spatial_named(word(t, s)->0) == Some(SpatialPredicate::DWithin) {
        point_predicate_says(env, c, w, SpatialPredicate::DWithin, column, argument, far, log);
    } else {
        points_have_two(env, c, p->Spatial_predicate, column, argument, None, log);
        point_predicate_says(env, c, w, SpatialPredicate::Within, column, argument, None, log);
    }
}

/// Two spatial functions of different names are never read as one predicate.
pub proof fn spatial_functions_differ(t: Seq<TokenV>, s: int, d: nat, u: Seq<TokenV>, r: int, e: nat)
    requires
        spatial_predicate(t, s, d) is Ok,
        spatial_predicate(u, r, e) is Ok,
        word(t, s) != word(u, r),
        word(t, s) is Some,
        word(u, r) is Some,
    ensures
        spatial_predicate(t, s, d)->Ok_0.0->Spatial_predicate != spatial_predicate(
            u,
            r,
            e,
        )->Ok_0.0->Spatial_predicate,
{
    reveal(spatial_predicate);
}

/// A point is written with its longitude first and its latitude behind it.
pub proof fn point_is_written_so(t: Seq<TokenV>, s: int, d: nat, lon: LiteralV, lat: LiteralV, s2: int, s3: int)
    requires
        point_argument(t, s, d) is Ok,
        literal(t, next(t, s), d) == Ok::<(LiteralV, int), SqlErrorV>((lon, s2)),
        literal(t, next(t, s2), d) == Ok::<(LiteralV, int), SqlErrorV>((lat, s3)),
    ensures
        point_argument(t, s, d)->Ok_0.0 == GeoArgV::Point(PointArgV { lon, lat }),
{
    reveal(point_argument);
    reveal(want);
}

/// A rectangle is written west, south, east, north.
pub proof fn rectangle_is_written_so(
    t: Seq<TokenV>,
    s: int,
    d: nat,
    west: LiteralV,
    south: LiteralV,
    east: LiteralV,
    north: LiteralV,
    s2: int,
    s3: int,
    s4: int,
    s5: int,
    b: BinderV,
)
    requires
        envelope_argument(t, s, d) is Ok,
        literal(t, next(t, s), d) == Ok::<(LiteralV, int), SqlErrorV>((west, s2)),
        literal(t, next(t, s2), d) == Ok::<(LiteralV, int), SqlErrorV>((south, s3)),
        literal(t, next(t, s3), d) == Ok::<(LiteralV, int), SqlErrorV>((east, s4)),
        literal(t, next(t, s4), d) == Ok::<(LiteralV, int), SqlErrorV>((north, s5)),
    ensures
        ({
            let g = envelope_argument(t, s, d)->Ok_0.0;
            &&& bounds_of(b, g) is Ok ==> {
                let r = bounds_of(b, g)->Ok_0;
                &&& number_of(b, west)->Ok_0 == r.west
                &&& number_of(b, south)->Ok_0 == r.south
                &&& number_of(b, east)->Ok_0 == r.east
                &&& number_of(b, north)->Ok_0 == r.north
            }
            &&& geom_of(b, g) is Ok ==> {
                let r = geom_of(b, g)->Ok_0->Envelope_0;
                &&& geom_of(b, g)->Ok_0 is Envelope
                &&& number_of(b, west)->Ok_0 == r.west
                &&& number_of(b, south)->Ok_0 == r.south
                &&& number_of(b, east)->Ok_0 == r.east
                &&& number_of(b, north)->Ok_0 == r.north
            }
        }),
{
    reveal(envelope_argument);
    reveal(want);
}

} // verus!
