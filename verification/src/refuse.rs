//! The constructs the language names and refuses, each with its tier and its
//! reason.

use vstd::prelude::*;
use crate::error::{SqlError, SqlErrorV, Tier};
use crate::text::{ascii_upper, owned, same, upper, upper_char};

verus! {

/// The tier and the reason of a refused construct, named in capitals.
#[verifier::opaque]
pub open spec fn entry(w: Seq<char>) -> Option<(Tier, Seq<char>)> {
    if w == "LIKE"@ {
        Some(
            (
                Tier::Two,
                "QL_CONTRACT §3: LIKE 'abc%' is a text-key prefix range; LIKE '%abc%' needs the trigram index family (pg_trgm-compatible) under a new feature bit. Neither is built."@,
            ),
        )
    } else if w == "ILIKE"@ {
        Some(
            (
                Tier::Two,
                "QL_CONTRACT §3: ILIKE needs the trigram index family (pg_trgm-compatible), a new family under a feature bit."@,
            ),
        )
    } else if w == "SIMILAR TO"@ {
        Some(
            (
                Tier::Three,
                "QL_CONTRACT §3: SIMILAR TO has no index atomic."@,
            ),
        )
    } else if w == "~"@ {
        Some(
            (
                Tier::Three,
                "QL_CONTRACT §3: regex `~` has no index atomic."@,
            ),
        )
    } else if w == "&&"@ {
        Some(
            (
                Tier::Two,
                "QL_CONTRACT §4.4: `&&` with ST_MakeEnvelope is a Bbox filter on the point or geometry index (p3-geometry-io). Not built in this slice; ST_Within against an envelope is the Tier-1 spelling of the same rectangle."@,
            ),
        )
    } else if w == "@>"@ {
        Some(
            (
                Tier::Two,
                "QL_CONTRACT §3: array containment has no Tier-1 atomic in this slice."@,
            ),
        )
    } else if w == "->"@ {
        Some(
            (
                Tier::Two,
                "QL_CONTRACT §4.1: JSON path extraction is a row function (p3 item 2). `->` returns the JSON value and `->>` its text; neither becomes an index range without an expression index over the same path."@,
            ),
        )
    } else if w == "->>"@ {
        Some(
            (
                Tier::Two,
                "QL_CONTRACT §4.1: JSON path extraction is a row function (p3 item 2)."@,
            ),
        )
    } else if w == "#>"@ {
        Some(
            (
                Tier::Two,
                "QL_CONTRACT §4.1: JSON path extraction is a row function (p3 item 2). `#>` walks a path array and is the same missing surface `->` and `->>` name."@,
            ),
        )
    } else if w == "#>>"@ {
        Some(
            (
                Tier::Two,
                "QL_CONTRACT §4.1: JSON path extraction is a row function (p3 item 2). `#>>` walks a path array and returns text; it is the same missing surface `->` and `->>` name."@,
            ),
        )
    } else if w == "JOIN"@ {
        Some(
            (
                Tier::Two,
                "QL_CONTRACT §4.8: INNER/LEFT JOIN on key equality is a key lookup per driving row, scheduled after GROUP BY; a join on a non-key column and FULL OUTER JOIN are Tier 3 (they need a hash join with spill). A pattern is never compiled to a join."@,
            ),
        )
    } else if w == "OFFSET"@ {
        Some(
            (
                Tier::Two,
                "QL_CONTRACT §5 deviation 4: OFFSET is a keyset continuation, never a skip count. The continuation is the prepared query's own next page; a skip count would read and discard rows, which is work proportional to the skip."@,
            ),
        )
    } else if w == "UNION"@ {
        Some(
            (
                Tier::Three,
                "QL_CONTRACT §2: UNION has no atomic; recursion is a GRAPH_TABLE pattern."@,
            ),
        )
    } else if w == "INTERSECT"@ {
        Some(
            (
                Tier::Three,
                "QL_CONTRACT §2: no atomic."@,
            ),
        )
    } else if w == "EXCEPT"@ {
        Some(
            (
                Tier::Three,
                "QL_CONTRACT §2: no atomic."@,
            ),
        )
    } else if w == "WITH"@ {
        Some(
            (
                Tier::Two,
                "QL_CONTRACT §2: a non-recursive WITH is materialised once, bounded by QueryBudget rows; WITH RECURSIVE is Tier 3 (recursion is a GRAPH_TABLE pattern)."@,
            ),
        )
    } else if w == "OVER"@ {
        Some(
            (
                Tier::Three,
                "QL_CONTRACT §2 and §4.7: window functions have no atomic."@,
            ),
        )
    } else if w == "CREATE VIEW"@ {
        Some(
            (
                Tier::Three,
                "QL_CONTRACT §2: a user view has no atomic."@,
            ),
        )
    } else if w == "CREATE SCHEMA"@ {
        Some(
            (
                Tier::Two,
                "QL_CONTRACT §2: CREATE SCHEMA and schema.table are p2-schema-segment."@,
            ),
        )
    } else if w == "CREATE PROPERTY GRAPH"@ {
        Some(
            (
                Tier::Two,
                "QL_CONTRACT §2: CREATE PROPERTY GRAPH optionally names a context and a label map; nothing is built. Not in this slice."@,
            ),
        )
    } else if w == "CREATE TRIGGER"@ {
        Some(
            (
                Tier::Three,
                "QL_CONTRACT §2: triggers have no atomic."@,
            ),
        )
    } else if w == "DECLARE"@ {
        Some(
            (
                Tier::Two,
                "QL_CONTRACT §2: DECLARE ... BINARY CURSOR / FETCH FORWARD / CLOSE are pages over prepare_query (p3-wire)."@,
            ),
        )
    } else if w == "FETCH"@ {
        Some(
            (
                Tier::Two,
                "QL_CONTRACT §2: FETCH FORWARD n is a page over prepare_query (p3-wire)."@,
            ),
        )
    } else if w == "CLOSE"@ {
        Some(
            (
                Tier::Two,
                "QL_CONTRACT §2: CLOSE ends a cursor declared by DECLARE (p3-wire)."@,
            ),
        )
    } else if w == "VALUES"@ {
        Some(
            (
                Tier::Two,
                "QL_CONTRACT §2: a bare VALUES list as a query source has no atomic in this slice."@,
            ),
        )
    } else if w == "CASE"@ {
        Some(
            (
                Tier::Two,
                "QL_CONTRACT §4.1: `CASE WHEN <cond> THEN <value> [WHEN ...] [ELSE <value>] END` is a row expression -- one row in, one value out -- and it waits on the PROJECTION-EXPRESSION surface (§7 item 5), the same surface the JSON path operators and ST_Area wait on. In a WHERE it is row-bound and never becomes an index range, so §6 does not allow it to be taken as a scan."@,
            ),
        )
    } else if w == "JSON_ARRAY_LENGTH"@ {
        Some(
            (
                Tier::Two,
                "QL_CONTRACT §4.1: json_array_length is a row function over the binary JSON the row codec already decodes, and it waits on the PROJECTION-EXPRESSION surface (§7 item 5) with `CASE WHEN` and the JSON path operators."@,
            ),
        )
    } else if w == "REGEXP_REPLACE"@ {
        Some(
            (
                Tier::Three,
                "QL_CONTRACT §4.1: regexp_* has no atomic."@,
            ),
        )
    } else if w == "REGEXP_MATCH"@ {
        Some(
            (
                Tier::Three,
                "QL_CONTRACT §4.1: regexp_* has no atomic."@,
            ),
        )
    } else if w == "COALESCE"@ {
        Some(
            (
                Tier::Two,
                "QL_CONTRACT §4.1: a row function on projected values; a text index spans one declared field, so the concatenation Postgres builds with coalesce is a stored field here (battle50k deviation 1)."@,
            ),
        )
    } else if w == "AT TIME ZONE"@ {
        Some(
            (
                Tier::Three,
                "QL_CONTRACT §4.2 and §5 deviation 8: a declared TIMESTAMPTZ is stored as UTC microseconds in an Int; there is no time-zone storage, only display conversion."@,
            ),
        )
    } else if w == "ANY SHORTEST"@ {
        Some(
            (
                Tier::Two,
                "QL_CONTRACT §4.3: ANY SHORTEST / ALL SHORTEST need the unweighted shortest-path atomic."@,
            ),
        )
    } else if w == "ALL SHORTEST"@ {
        Some(
            (
                Tier::Two,
                "QL_CONTRACT §4.3: ANY SHORTEST / ALL SHORTEST need the unweighted shortest-path atomic."@,
            ),
        )
    } else if w == "PATH_LENGTH"@ {
        Some(
            (
                Tier::Two,
                "QL_CONTRACT §4.3: path_length() is a frontier depth accumulator."@,
            ),
        )
    } else if w == "PATH_SUM"@ {
        Some(
            (
                Tier::Two,
                "QL_CONTRACT §4.3: path accumulators are GRAPH_CONTRACT 5.1."@,
            ),
        )
    } else if w == "PATH_PRODUCT"@ {
        Some(
            (
                Tier::Two,
                "QL_CONTRACT §4.3: path accumulators are GRAPH_CONTRACT 5.1."@,
            ),
        )
    } else if w == "PATH_MIN"@ {
        Some(
            (
                Tier::Two,
                "QL_CONTRACT §4.3: path accumulators are GRAPH_CONTRACT 5.1."@,
            ),
        )
    } else if w == "PATH_MAX"@ {
        Some(
            (
                Tier::Two,
                "QL_CONTRACT §4.3: path accumulators are GRAPH_CONTRACT 5.1."@,
            ),
        )
    } else if w == "PATH_AVG"@ {
        Some(
            (
                Tier::Two,
                "QL_CONTRACT §4.3: path accumulators are GRAPH_CONTRACT 5.1."@,
            ),
        )
    } else if w == "PATH_FIRST"@ {
        Some(
            (
                Tier::Two,
                "QL_CONTRACT §4.3: path accumulators are GRAPH_CONTRACT 5.1."@,
            ),
        )
    } else if w == "PATH_LAST"@ {
        Some(
            (
                Tier::Two,
                "QL_CONTRACT §4.3: path accumulators are GRAPH_CONTRACT 5.1."@,
            ),
        )
    } else if w == "NODES"@ {
        Some(
            (
                Tier::Two,
                "QL_CONTRACT §4.3: nodes(p) needs the path rebuild for returned rows."@,
            ),
        )
    } else if w == "EDGES"@ {
        Some(
            (
                Tier::Two,
                "QL_CONTRACT §4.3: edges(p) needs the path rebuild for returned rows."@,
            ),
        )
    } else if w == "VERTEX_ID"@ {
        Some(
            (
                Tier::Two,
                "QL_CONTRACT §4.3: VERTEX_ID(v) is the entity id, after element identity."@,
            ),
        )
    } else if w == "EDGE_ID"@ {
        Some(
            (
                Tier::Two,
                "QL_CONTRACT §4.3: EDGE_ID(e) is the edge id, after element identity."@,
            ),
        )
    } else if w == "TRAIL"@ {
        Some(
            (
                Tier::Three,
                "QL_CONTRACT §4.3: IS ACYCLIC is the default and the only mode; TRAIL, WALK and SIMPLE have no atomic."@,
            ),
        )
    } else if w == "WALK"@ {
        Some(
            (
                Tier::Three,
                "QL_CONTRACT §4.3: IS ACYCLIC is the default and the only mode; TRAIL, WALK and SIMPLE have no atomic."@,
            ),
        )
    } else if w == "SIMPLE"@ {
        Some(
            (
                Tier::Three,
                "QL_CONTRACT §4.3: IS ACYCLIC is the default and the only mode; TRAIL, WALK and SIMPLE have no atomic."@,
            ),
        )
    } else if w == "ST_BUFFER"@ {
        Some(
            (
                Tier::Three,
                "QL_CONTRACT §4.4: GEOS overlay; no pure-Rust substitute accepted."@,
            ),
        )
    } else if w == "ST_UNION"@ {
        Some(
            (
                Tier::Three,
                "QL_CONTRACT §4.4: GEOS overlay; no pure-Rust substitute accepted."@,
            ),
        )
    } else if w == "ST_INTERSECTION"@ {
        Some(
            (
                Tier::Three,
                "QL_CONTRACT §4.4: GEOS overlay; no pure-Rust substitute accepted."@,
            ),
        )
    } else if w == "ST_DIFFERENCE"@ {
        Some(
            (
                Tier::Three,
                "QL_CONTRACT §4.4: GEOS overlay; no pure-Rust substitute accepted."@,
            ),
        )
    } else if w == "ST_SIMPLIFYPRESERVETOPOLOGY"@ {
        Some(
            (
                Tier::Three,
                "QL_CONTRACT §4.4: GEOS overlay; no pure-Rust substitute accepted."@,
            ),
        )
    } else if w == "ST_TRANSFORM"@ {
        Some(
            (
                Tier::Two,
                "QL_CONTRACT §4.4: ST_Transform needs PROJ; storage stays WGS84."@,
            ),
        )
    } else if w == "ST_ASMVT"@ {
        Some(
            (
                Tier::Three,
                "QL_CONTRACT §4.4: raster, topology and ST_AsMVT have no atomic."@,
            ),
        )
    } else if w == "ST_ASTEXT"@ {
        Some(
            (
                Tier::Two,
                "QL_CONTRACT §4.4: the geometry I/O functions are p3-geometry-io."@,
            ),
        )
    } else if w == "ST_ASBINARY"@ {
        Some(
            (
                Tier::Two,
                "QL_CONTRACT §4.4: the geometry I/O functions are p3-geometry-io."@,
            ),
        )
    } else if w == "ST_GEOMFROMTEXT"@ {
        Some(
            (
                Tier::Two,
                "QL_CONTRACT §4.4: the geometry I/O functions are p3-geometry-io."@,
            ),
        )
    } else if w == "ST_GEOMFROMWKB"@ {
        Some(
            (
                Tier::Two,
                "QL_CONTRACT §4.4: the geometry I/O functions are p3-geometry-io."@,
            ),
        )
    } else if w == "ST_X"@ {
        Some(
            (
                Tier::Two,
                "QL_CONTRACT §4.4: coordinate accessors are pure I/O functions (p3-geometry-io); a lon/lat rectangle is ST_Within against an envelope here, which is PointFilter::Bbox."@,
            ),
        )
    } else if w == "ST_Y"@ {
        Some(
            (
                Tier::Two,
                "QL_CONTRACT §4.4: coordinate accessors are pure I/O functions (p3-geometry-io); a lon/lat rectangle is ST_Within against an envelope here, which is PointFilter::Bbox."@,
            ),
        )
    } else if w == "ST_SIMPLIFY"@ {
        Some(
            (
                Tier::Two,
                "QL_CONTRACT §4.4: a pure function on the QGIS render path (p3-geometry-io)."@,
            ),
        )
    } else if w == "ST_AREA"@ {
        Some(
            (
                Tier::Two,
                "QL_CONTRACT §4.4: ST_Area is a pure function over the geometry the row already decodes (`core/engine/src/index/spatial/geometry.rs`, re-exported as `sekejap_core::spatial_geometry`); what is missing is the PROJECTION-EXPRESSION surface over it (§7 item 5), not the computation."@,
            ),
        )
    } else if w == "ST_LENGTH"@ {
        Some(
            (
                Tier::Two,
                "QL_CONTRACT §4.4: ST_Length is a pure function over the geometry the row already decodes (`core/engine/src/index/spatial/geometry.rs`, re-exported as `sekejap_core::spatial_geometry`); what is missing is the PROJECTION-EXPRESSION surface over it (§7 item 5), not the computation."@,
            ),
        )
    } else if w == "ST_PERIMETER"@ {
        Some(
            (
                Tier::Two,
                "QL_CONTRACT §4.4: ST_Perimeter is a pure function over the geometry the row already decodes (`core/engine/src/index/spatial/geometry.rs`, re-exported as `sekejap_core::spatial_geometry`); what is missing is the PROJECTION-EXPRESSION surface over it (§7 item 5), not the computation."@,
            ),
        )
    } else if w == "ST_CENTROID"@ {
        Some(
            (
                Tier::Two,
                "QL_CONTRACT §4.4: ST_Centroid is a pure function over the geometry the row already decodes (`core/engine/src/index/spatial/geometry.rs`, re-exported as `sekejap_core::spatial_geometry`); what is missing is the PROJECTION-EXPRESSION surface over it (§7 item 5), not the computation."@,
            ),
        )
    } else if w == "<+>"@ {
        Some(
            (
                Tier::Three,
                "QL_CONTRACT §4.5: `<+>` L1, halfvec, sparsevec and binary quantization operators have no atomic."@,
            ),
        )
    } else if w == "VECTOR_DIMS"@ {
        Some(
            (
                Tier::Two,
                "QL_CONTRACT §4.5: vector_dims/vector_norm/l2_normalize are row functions."@,
            ),
        )
    } else if w == "VECTOR_NORM"@ {
        Some(
            (
                Tier::Two,
                "QL_CONTRACT §4.5: vector_dims/vector_norm/l2_normalize are row functions."@,
            ),
        )
    } else if w == "L2_NORMALIZE"@ {
        Some(
            (
                Tier::Two,
                "QL_CONTRACT §4.5: vector_dims/vector_norm/l2_normalize are row functions."@,
            ),
        )
    } else if w == "WEBSEARCH_TO_TSQUERY"@ {
        Some(
            (
                Tier::Two,
                "QL_CONTRACT §4.6: websearch_to_tsquery and plainto_tsquery are parsers onto the same Text filter."@,
            ),
        )
    } else if w == "PLAINTO_TSQUERY"@ {
        Some(
            (
                Tier::Two,
                "QL_CONTRACT §4.6: websearch_to_tsquery and plainto_tsquery are parsers onto the same Text filter."@,
            ),
        )
    } else if w == "TS_HEADLINE"@ {
        Some(
            (
                Tier::Two,
                "QL_CONTRACT §4.6: ts_headline is a row function."@,
            ),
        )
    } else if w == "HIGHLIGHT"@ {
        Some(
            (
                Tier::Two,
                "QL_CONTRACT §4.6: highlight is a row function."@,
            ),
        )
    } else if w == "ARRAY_AGG"@ {
        Some(
            (
                Tier::Two,
                "QL_CONTRACT §4.7: array_agg/string_agg/json_agg come after the scalar aggregates, bounded by the row budget."@,
            ),
        )
    } else if w == "STRING_AGG"@ {
        Some(
            (
                Tier::Two,
                "QL_CONTRACT §4.7: array_agg/string_agg/json_agg come after the scalar aggregates, bounded by the row budget."@,
            ),
        )
    } else if w == "JSON_AGG"@ {
        Some(
            (
                Tier::Two,
                "QL_CONTRACT §4.7: array_agg/string_agg/json_agg come after the scalar aggregates, bounded by the row budget."@,
            ),
        )
    } else if w == "PERCENTILE_CONT"@ {
        Some(
            (
                Tier::Three,
                "QL_CONTRACT §4.7: percentile_cont, window functions, GROUPING SETS and CUBE have no atomic."@,
            ),
        )
    } else if w == "GROUPING SETS"@ {
        Some(
            (
                Tier::Three,
                "QL_CONTRACT §4.7: GROUPING SETS and CUBE have no atomic."@,
            ),
        )
    } else if w == "CUBE"@ {
        Some(
            (
                Tier::Three,
                "QL_CONTRACT §4.7: GROUPING SETS and CUBE have no atomic."@,
            ),
        )
    } else if w == "ROW_NUMBER"@ {
        Some(
            (
                Tier::Three,
                "QL_CONTRACT §4.7: window functions have no atomic."@,
            ),
        )
    } else if w == "RANK"@ {
        Some(
            (
                Tier::Three,
                "QL_CONTRACT §4.7: window functions have no atomic."@,
            ),
        )
    } else if w == "DENSE_RANK"@ {
        Some(
            (
                Tier::Three,
                "QL_CONTRACT §4.7: window functions have no atomic."@,
            ),
        )
    } else if w == "LAG"@ {
        Some(
            (
                Tier::Three,
                "QL_CONTRACT §4.7: window functions have no atomic."@,
            ),
        )
    } else if w == "LEAD"@ {
        Some(
            (
                Tier::Three,
                "QL_CONTRACT §4.7: window functions have no atomic."@,
            ),
        )
    } else if w == "NTILE"@ {
        Some(
            (
                Tier::Three,
                "QL_CONTRACT §4.7: window functions have no atomic."@,
            ),
        )
    } else if w == "POSTGIS_VERSION"@ {
        Some(
            (
                Tier::Two,
                "QL_CONTRACT §2 and §4.4: postgis_version() is a fixed row (p3-pg-surface), and it is withheld until the geometry I/O it advertises exists (p3-geometry-io): a client reads it as a PROMISE that ST_AsBinary, ST_GeomFromWKB and `&&` answer, and they do not. `SELECT version()`, geometry_columns and spatial_ref_sys are answered."@,
            ),
        )
    } else if w == "PG_PROC"@ {
        Some(
            (
                Tier::Three,
                "QL_CONTRACT §2 (catalog): e4 has no function catalog -- the §4.1/§4.2 functions are compiled by `lang`, not registered rows, so there is nothing to list. Provided instead: pg_class, pg_attribute, pg_type, pg_namespace, pg_index, pg_indexes, pg_constraint, pg_tables, pg_description."@,
            ),
        )
    } else if w == "PG_SETTINGS"@ {
        Some(
            (
                Tier::Three,
                "QL_CONTRACT §2 (catalog): e4 has no GUC table. A connection is a process here; the client settings a driver sends are accepted as notices and each answers `SHOW <name>` from a constant."@,
            ),
        )
    } else if w == "PG_ROLES"@ {
        Some(
            (
                Tier::Three,
                "QL_CONTRACT §2 (catalog): e4 has no authentication and no role catalog -- the process that opened the file is the only user there is."@,
            ),
        )
    } else if w == "PG_AUTHID"@ {
        Some(
            (
                Tier::Three,
                "QL_CONTRACT §2 (catalog): e4 has no authentication and no role catalog -- the process that opened the file is the only user there is."@,
            ),
        )
    } else if w == "PG_DATABASE"@ {
        Some(
            (
                Tier::Three,
                "QL_CONTRACT §2 (catalog): e4 is one database per file and there is no cluster to list. `SELECT current_database()` names this one."@,
            ),
        )
    } else if w == "PG_ENUM"@ {
        Some(
            (
                Tier::Three,
                "QL_CONTRACT §2 (catalog): e4 has no enum types -- a column's `Kind` is one of eight and none of them is user-defined."@,
            ),
        )
    } else if w == "PG_OPERATOR"@ {
        Some(
            (
                Tier::Three,
                "QL_CONTRACT §2 (catalog): operators are compiled by `lang` against the index families a predicate names; there is no operator catalog to read."@,
            ),
        )
    } else if w == "PG_AM"@ {
        Some(
            (
                Tier::Three,
                "QL_CONTRACT §2 (catalog): an index family is an `IndexFamily`, a closed set in the collection catalog, not an access-method row. `db_indexes` and `pg_indexes` name the family of each index."@,
            ),
        )
    } else if w == "PG_TRIGGER"@ {
        Some(
            (
                Tier::Three,
                "QL_CONTRACT §2: triggers have no atomic, so there is no trigger catalog."@,
            ),
        )
    } else if w == "PG_REWRITE"@ {
        Some(
            (
                Tier::Three,
                "QL_CONTRACT §2: a user `CREATE VIEW` is Tier 3 (a query rewrite at prepare is a second planner path), so there is no rule catalog."@,
            ),
        )
    } else if w == "PG_STAT_ACTIVITY"@ {
        Some(
            (
                Tier::Three,
                "QL_CONTRACT §2 (catalog): there is no connection table -- a connection is a process here."@,
            ),
        )
    } else {
        None
    }
}

fn entry_of(w: &str) -> (r: Option<(Tier, &'static str)>)
    ensures
        match r {
            Some((tier, reason)) => entry(w@) == Some((tier, reason@)),
            None => entry(w@) is None,
        },
{
    proof {
        reveal(entry);
    }
    if same(w, "LIKE") {
        Some(
            (
                Tier::Two,
                "QL_CONTRACT §3: LIKE 'abc%' is a text-key prefix range; LIKE '%abc%' needs the trigram index family (pg_trgm-compatible) under a new feature bit. Neither is built.",
            ),
        )
    } else if same(w, "ILIKE") {
        Some(
            (
                Tier::Two,
                "QL_CONTRACT §3: ILIKE needs the trigram index family (pg_trgm-compatible), a new family under a feature bit.",
            ),
        )
    } else if same(w, "SIMILAR TO") {
        Some(
            (
                Tier::Three,
                "QL_CONTRACT §3: SIMILAR TO has no index atomic.",
            ),
        )
    } else if same(w, "~") {
        Some(
            (
                Tier::Three,
                "QL_CONTRACT §3: regex `~` has no index atomic.",
            ),
        )
    } else if same(w, "&&") {
        Some(
            (
                Tier::Two,
                "QL_CONTRACT §4.4: `&&` with ST_MakeEnvelope is a Bbox filter on the point or geometry index (p3-geometry-io). Not built in this slice; ST_Within against an envelope is the Tier-1 spelling of the same rectangle.",
            ),
        )
    } else if same(w, "@>") {
        Some(
            (
                Tier::Two,
                "QL_CONTRACT §3: array containment has no Tier-1 atomic in this slice.",
            ),
        )
    } else if same(w, "->") {
        Some(
            (
                Tier::Two,
                "QL_CONTRACT §4.1: JSON path extraction is a row function (p3 item 2). `->` returns the JSON value and `->>` its text; neither becomes an index range without an expression index over the same path.",
            ),
        )
    } else if same(w, "->>") {
        Some(
            (
                Tier::Two,
                "QL_CONTRACT §4.1: JSON path extraction is a row function (p3 item 2).",
            ),
        )
    } else if same(w, "#>") {
        Some(
            (
                Tier::Two,
                "QL_CONTRACT §4.1: JSON path extraction is a row function (p3 item 2). `#>` walks a path array and is the same missing surface `->` and `->>` name.",
            ),
        )
    } else if same(w, "#>>") {
        Some(
            (
                Tier::Two,
                "QL_CONTRACT §4.1: JSON path extraction is a row function (p3 item 2). `#>>` walks a path array and returns text; it is the same missing surface `->` and `->>` name.",
            ),
        )
    } else if same(w, "JOIN") {
        Some(
            (
                Tier::Two,
                "QL_CONTRACT §4.8: INNER/LEFT JOIN on key equality is a key lookup per driving row, scheduled after GROUP BY; a join on a non-key column and FULL OUTER JOIN are Tier 3 (they need a hash join with spill). A pattern is never compiled to a join.",
            ),
        )
    } else if same(w, "OFFSET") {
        Some(
            (
                Tier::Two,
                "QL_CONTRACT §5 deviation 4: OFFSET is a keyset continuation, never a skip count. The continuation is the prepared query's own next page; a skip count would read and discard rows, which is work proportional to the skip.",
            ),
        )
    } else if same(w, "UNION") {
        Some(
            (
                Tier::Three,
                "QL_CONTRACT §2: UNION has no atomic; recursion is a GRAPH_TABLE pattern.",
            ),
        )
    } else if same(w, "INTERSECT") {
        Some(
            (
                Tier::Three,
                "QL_CONTRACT §2: no atomic.",
            ),
        )
    } else if same(w, "EXCEPT") {
        Some(
            (
                Tier::Three,
                "QL_CONTRACT §2: no atomic.",
            ),
        )
    } else if same(w, "WITH") {
        Some(
            (
                Tier::Two,
                "QL_CONTRACT §2: a non-recursive WITH is materialised once, bounded by QueryBudget rows; WITH RECURSIVE is Tier 3 (recursion is a GRAPH_TABLE pattern).",
            ),
        )
    } else if same(w, "OVER") {
        Some(
            (
                Tier::Three,
                "QL_CONTRACT §2 and §4.7: window functions have no atomic.",
            ),
        )
    } else if same(w, "CREATE VIEW") {
        Some(
            (
                Tier::Three,
                "QL_CONTRACT §2: a user view has no atomic.",
            ),
        )
    } else if same(w, "CREATE SCHEMA") {
        Some(
            (
                Tier::Two,
                "QL_CONTRACT §2: CREATE SCHEMA and schema.table are p2-schema-segment.",
            ),
        )
    } else if same(w, "CREATE PROPERTY GRAPH") {
        Some(
            (
                Tier::Two,
                "QL_CONTRACT §2: CREATE PROPERTY GRAPH optionally names a context and a label map; nothing is built. Not in this slice.",
            ),
        )
    } else if same(w, "CREATE TRIGGER") {
        Some(
            (
                Tier::Three,
                "QL_CONTRACT §2: triggers have no atomic.",
            ),
        )
    } else if same(w, "DECLARE") {
        Some(
            (
                Tier::Two,
                "QL_CONTRACT §2: DECLARE ... BINARY CURSOR / FETCH FORWARD / CLOSE are pages over prepare_query (p3-wire).",
            ),
        )
    } else if same(w, "FETCH") {
        Some(
            (
                Tier::Two,
                "QL_CONTRACT §2: FETCH FORWARD n is a page over prepare_query (p3-wire).",
            ),
        )
    } else if same(w, "CLOSE") {
        Some(
            (
                Tier::Two,
                "QL_CONTRACT §2: CLOSE ends a cursor declared by DECLARE (p3-wire).",
            ),
        )
    } else if same(w, "VALUES") {
        Some(
            (
                Tier::Two,
                "QL_CONTRACT §2: a bare VALUES list as a query source has no atomic in this slice.",
            ),
        )
    } else if same(w, "CASE") {
        Some(
            (
                Tier::Two,
                "QL_CONTRACT §4.1: `CASE WHEN <cond> THEN <value> [WHEN ...] [ELSE <value>] END` is a row expression -- one row in, one value out -- and it waits on the PROJECTION-EXPRESSION surface (§7 item 5), the same surface the JSON path operators and ST_Area wait on. In a WHERE it is row-bound and never becomes an index range, so §6 does not allow it to be taken as a scan.",
            ),
        )
    } else if same(w, "JSON_ARRAY_LENGTH") {
        Some(
            (
                Tier::Two,
                "QL_CONTRACT §4.1: json_array_length is a row function over the binary JSON the row codec already decodes, and it waits on the PROJECTION-EXPRESSION surface (§7 item 5) with `CASE WHEN` and the JSON path operators.",
            ),
        )
    } else if same(w, "REGEXP_REPLACE") {
        Some(
            (
                Tier::Three,
                "QL_CONTRACT §4.1: regexp_* has no atomic.",
            ),
        )
    } else if same(w, "REGEXP_MATCH") {
        Some(
            (
                Tier::Three,
                "QL_CONTRACT §4.1: regexp_* has no atomic.",
            ),
        )
    } else if same(w, "COALESCE") {
        Some(
            (
                Tier::Two,
                "QL_CONTRACT §4.1: a row function on projected values; a text index spans one declared field, so the concatenation Postgres builds with coalesce is a stored field here (battle50k deviation 1).",
            ),
        )
    } else if same(w, "AT TIME ZONE") {
        Some(
            (
                Tier::Three,
                "QL_CONTRACT §4.2 and §5 deviation 8: a declared TIMESTAMPTZ is stored as UTC microseconds in an Int; there is no time-zone storage, only display conversion.",
            ),
        )
    } else if same(w, "ANY SHORTEST") {
        Some(
            (
                Tier::Two,
                "QL_CONTRACT §4.3: ANY SHORTEST / ALL SHORTEST need the unweighted shortest-path atomic.",
            ),
        )
    } else if same(w, "ALL SHORTEST") {
        Some(
            (
                Tier::Two,
                "QL_CONTRACT §4.3: ANY SHORTEST / ALL SHORTEST need the unweighted shortest-path atomic.",
            ),
        )
    } else if same(w, "PATH_LENGTH") {
        Some(
            (
                Tier::Two,
                "QL_CONTRACT §4.3: path_length() is a frontier depth accumulator.",
            ),
        )
    } else if same(w, "PATH_SUM") {
        Some(
            (
                Tier::Two,
                "QL_CONTRACT §4.3: path accumulators are GRAPH_CONTRACT 5.1.",
            ),
        )
    } else if same(w, "PATH_PRODUCT") {
        Some(
            (
                Tier::Two,
                "QL_CONTRACT §4.3: path accumulators are GRAPH_CONTRACT 5.1.",
            ),
        )
    } else if same(w, "PATH_MIN") {
        Some(
            (
                Tier::Two,
                "QL_CONTRACT §4.3: path accumulators are GRAPH_CONTRACT 5.1.",
            ),
        )
    } else if same(w, "PATH_MAX") {
        Some(
            (
                Tier::Two,
                "QL_CONTRACT §4.3: path accumulators are GRAPH_CONTRACT 5.1.",
            ),
        )
    } else if same(w, "PATH_AVG") {
        Some(
            (
                Tier::Two,
                "QL_CONTRACT §4.3: path accumulators are GRAPH_CONTRACT 5.1.",
            ),
        )
    } else if same(w, "PATH_FIRST") {
        Some(
            (
                Tier::Two,
                "QL_CONTRACT §4.3: path accumulators are GRAPH_CONTRACT 5.1.",
            ),
        )
    } else if same(w, "PATH_LAST") {
        Some(
            (
                Tier::Two,
                "QL_CONTRACT §4.3: path accumulators are GRAPH_CONTRACT 5.1.",
            ),
        )
    } else if same(w, "NODES") {
        Some(
            (
                Tier::Two,
                "QL_CONTRACT §4.3: nodes(p) needs the path rebuild for returned rows.",
            ),
        )
    } else if same(w, "EDGES") {
        Some(
            (
                Tier::Two,
                "QL_CONTRACT §4.3: edges(p) needs the path rebuild for returned rows.",
            ),
        )
    } else if same(w, "VERTEX_ID") {
        Some(
            (
                Tier::Two,
                "QL_CONTRACT §4.3: VERTEX_ID(v) is the entity id, after element identity.",
            ),
        )
    } else if same(w, "EDGE_ID") {
        Some(
            (
                Tier::Two,
                "QL_CONTRACT §4.3: EDGE_ID(e) is the edge id, after element identity.",
            ),
        )
    } else if same(w, "TRAIL") {
        Some(
            (
                Tier::Three,
                "QL_CONTRACT §4.3: IS ACYCLIC is the default and the only mode; TRAIL, WALK and SIMPLE have no atomic.",
            ),
        )
    } else if same(w, "WALK") {
        Some(
            (
                Tier::Three,
                "QL_CONTRACT §4.3: IS ACYCLIC is the default and the only mode; TRAIL, WALK and SIMPLE have no atomic.",
            ),
        )
    } else if same(w, "SIMPLE") {
        Some(
            (
                Tier::Three,
                "QL_CONTRACT §4.3: IS ACYCLIC is the default and the only mode; TRAIL, WALK and SIMPLE have no atomic.",
            ),
        )
    } else if same(w, "ST_BUFFER") {
        Some(
            (
                Tier::Three,
                "QL_CONTRACT §4.4: GEOS overlay; no pure-Rust substitute accepted.",
            ),
        )
    } else if same(w, "ST_UNION") {
        Some(
            (
                Tier::Three,
                "QL_CONTRACT §4.4: GEOS overlay; no pure-Rust substitute accepted.",
            ),
        )
    } else if same(w, "ST_INTERSECTION") {
        Some(
            (
                Tier::Three,
                "QL_CONTRACT §4.4: GEOS overlay; no pure-Rust substitute accepted.",
            ),
        )
    } else if same(w, "ST_DIFFERENCE") {
        Some(
            (
                Tier::Three,
                "QL_CONTRACT §4.4: GEOS overlay; no pure-Rust substitute accepted.",
            ),
        )
    } else if same(w, "ST_SIMPLIFYPRESERVETOPOLOGY") {
        Some(
            (
                Tier::Three,
                "QL_CONTRACT §4.4: GEOS overlay; no pure-Rust substitute accepted.",
            ),
        )
    } else if same(w, "ST_TRANSFORM") {
        Some(
            (
                Tier::Two,
                "QL_CONTRACT §4.4: ST_Transform needs PROJ; storage stays WGS84.",
            ),
        )
    } else if same(w, "ST_ASMVT") {
        Some(
            (
                Tier::Three,
                "QL_CONTRACT §4.4: raster, topology and ST_AsMVT have no atomic.",
            ),
        )
    } else if same(w, "ST_ASTEXT") {
        Some(
            (
                Tier::Two,
                "QL_CONTRACT §4.4: the geometry I/O functions are p3-geometry-io.",
            ),
        )
    } else if same(w, "ST_ASBINARY") {
        Some(
            (
                Tier::Two,
                "QL_CONTRACT §4.4: the geometry I/O functions are p3-geometry-io.",
            ),
        )
    } else if same(w, "ST_GEOMFROMTEXT") {
        Some(
            (
                Tier::Two,
                "QL_CONTRACT §4.4: the geometry I/O functions are p3-geometry-io.",
            ),
        )
    } else if same(w, "ST_GEOMFROMWKB") {
        Some(
            (
                Tier::Two,
                "QL_CONTRACT §4.4: the geometry I/O functions are p3-geometry-io.",
            ),
        )
    } else if same(w, "ST_X") {
        Some(
            (
                Tier::Two,
                "QL_CONTRACT §4.4: coordinate accessors are pure I/O functions (p3-geometry-io); a lon/lat rectangle is ST_Within against an envelope here, which is PointFilter::Bbox.",
            ),
        )
    } else if same(w, "ST_Y") {
        Some(
            (
                Tier::Two,
                "QL_CONTRACT §4.4: coordinate accessors are pure I/O functions (p3-geometry-io); a lon/lat rectangle is ST_Within against an envelope here, which is PointFilter::Bbox.",
            ),
        )
    } else if same(w, "ST_SIMPLIFY") {
        Some(
            (
                Tier::Two,
                "QL_CONTRACT §4.4: a pure function on the QGIS render path (p3-geometry-io).",
            ),
        )
    } else if same(w, "ST_AREA") {
        Some(
            (
                Tier::Two,
                "QL_CONTRACT §4.4: ST_Area is a pure function over the geometry the row already decodes (`core/engine/src/index/spatial/geometry.rs`, re-exported as `sekejap_core::spatial_geometry`); what is missing is the PROJECTION-EXPRESSION surface over it (§7 item 5), not the computation.",
            ),
        )
    } else if same(w, "ST_LENGTH") {
        Some(
            (
                Tier::Two,
                "QL_CONTRACT §4.4: ST_Length is a pure function over the geometry the row already decodes (`core/engine/src/index/spatial/geometry.rs`, re-exported as `sekejap_core::spatial_geometry`); what is missing is the PROJECTION-EXPRESSION surface over it (§7 item 5), not the computation.",
            ),
        )
    } else if same(w, "ST_PERIMETER") {
        Some(
            (
                Tier::Two,
                "QL_CONTRACT §4.4: ST_Perimeter is a pure function over the geometry the row already decodes (`core/engine/src/index/spatial/geometry.rs`, re-exported as `sekejap_core::spatial_geometry`); what is missing is the PROJECTION-EXPRESSION surface over it (§7 item 5), not the computation.",
            ),
        )
    } else if same(w, "ST_CENTROID") {
        Some(
            (
                Tier::Two,
                "QL_CONTRACT §4.4: ST_Centroid is a pure function over the geometry the row already decodes (`core/engine/src/index/spatial/geometry.rs`, re-exported as `sekejap_core::spatial_geometry`); what is missing is the PROJECTION-EXPRESSION surface over it (§7 item 5), not the computation.",
            ),
        )
    } else if same(w, "<+>") {
        Some(
            (
                Tier::Three,
                "QL_CONTRACT §4.5: `<+>` L1, halfvec, sparsevec and binary quantization operators have no atomic.",
            ),
        )
    } else if same(w, "VECTOR_DIMS") {
        Some(
            (
                Tier::Two,
                "QL_CONTRACT §4.5: vector_dims/vector_norm/l2_normalize are row functions.",
            ),
        )
    } else if same(w, "VECTOR_NORM") {
        Some(
            (
                Tier::Two,
                "QL_CONTRACT §4.5: vector_dims/vector_norm/l2_normalize are row functions.",
            ),
        )
    } else if same(w, "L2_NORMALIZE") {
        Some(
            (
                Tier::Two,
                "QL_CONTRACT §4.5: vector_dims/vector_norm/l2_normalize are row functions.",
            ),
        )
    } else if same(w, "WEBSEARCH_TO_TSQUERY") {
        Some(
            (
                Tier::Two,
                "QL_CONTRACT §4.6: websearch_to_tsquery and plainto_tsquery are parsers onto the same Text filter.",
            ),
        )
    } else if same(w, "PLAINTO_TSQUERY") {
        Some(
            (
                Tier::Two,
                "QL_CONTRACT §4.6: websearch_to_tsquery and plainto_tsquery are parsers onto the same Text filter.",
            ),
        )
    } else if same(w, "TS_HEADLINE") {
        Some(
            (
                Tier::Two,
                "QL_CONTRACT §4.6: ts_headline is a row function.",
            ),
        )
    } else if same(w, "HIGHLIGHT") {
        Some(
            (
                Tier::Two,
                "QL_CONTRACT §4.6: highlight is a row function.",
            ),
        )
    } else if same(w, "ARRAY_AGG") {
        Some(
            (
                Tier::Two,
                "QL_CONTRACT §4.7: array_agg/string_agg/json_agg come after the scalar aggregates, bounded by the row budget.",
            ),
        )
    } else if same(w, "STRING_AGG") {
        Some(
            (
                Tier::Two,
                "QL_CONTRACT §4.7: array_agg/string_agg/json_agg come after the scalar aggregates, bounded by the row budget.",
            ),
        )
    } else if same(w, "JSON_AGG") {
        Some(
            (
                Tier::Two,
                "QL_CONTRACT §4.7: array_agg/string_agg/json_agg come after the scalar aggregates, bounded by the row budget.",
            ),
        )
    } else if same(w, "PERCENTILE_CONT") {
        Some(
            (
                Tier::Three,
                "QL_CONTRACT §4.7: percentile_cont, window functions, GROUPING SETS and CUBE have no atomic.",
            ),
        )
    } else if same(w, "GROUPING SETS") {
        Some(
            (
                Tier::Three,
                "QL_CONTRACT §4.7: GROUPING SETS and CUBE have no atomic.",
            ),
        )
    } else if same(w, "CUBE") {
        Some(
            (
                Tier::Three,
                "QL_CONTRACT §4.7: GROUPING SETS and CUBE have no atomic.",
            ),
        )
    } else if same(w, "ROW_NUMBER") {
        Some(
            (
                Tier::Three,
                "QL_CONTRACT §4.7: window functions have no atomic.",
            ),
        )
    } else if same(w, "RANK") {
        Some(
            (
                Tier::Three,
                "QL_CONTRACT §4.7: window functions have no atomic.",
            ),
        )
    } else if same(w, "DENSE_RANK") {
        Some(
            (
                Tier::Three,
                "QL_CONTRACT §4.7: window functions have no atomic.",
            ),
        )
    } else if same(w, "LAG") {
        Some(
            (
                Tier::Three,
                "QL_CONTRACT §4.7: window functions have no atomic.",
            ),
        )
    } else if same(w, "LEAD") {
        Some(
            (
                Tier::Three,
                "QL_CONTRACT §4.7: window functions have no atomic.",
            ),
        )
    } else if same(w, "NTILE") {
        Some(
            (
                Tier::Three,
                "QL_CONTRACT §4.7: window functions have no atomic.",
            ),
        )
    } else if same(w, "POSTGIS_VERSION") {
        Some(
            (
                Tier::Two,
                "QL_CONTRACT §2 and §4.4: postgis_version() is a fixed row (p3-pg-surface), and it is withheld until the geometry I/O it advertises exists (p3-geometry-io): a client reads it as a PROMISE that ST_AsBinary, ST_GeomFromWKB and `&&` answer, and they do not. `SELECT version()`, geometry_columns and spatial_ref_sys are answered.",
            ),
        )
    } else if same(w, "PG_PROC") {
        Some(
            (
                Tier::Three,
                "QL_CONTRACT §2 (catalog): e4 has no function catalog -- the §4.1/§4.2 functions are compiled by `lang`, not registered rows, so there is nothing to list. Provided instead: pg_class, pg_attribute, pg_type, pg_namespace, pg_index, pg_indexes, pg_constraint, pg_tables, pg_description.",
            ),
        )
    } else if same(w, "PG_SETTINGS") {
        Some(
            (
                Tier::Three,
                "QL_CONTRACT §2 (catalog): e4 has no GUC table. A connection is a process here; the client settings a driver sends are accepted as notices and each answers `SHOW <name>` from a constant.",
            ),
        )
    } else if same(w, "PG_ROLES") {
        Some(
            (
                Tier::Three,
                "QL_CONTRACT §2 (catalog): e4 has no authentication and no role catalog -- the process that opened the file is the only user there is.",
            ),
        )
    } else if same(w, "PG_AUTHID") {
        Some(
            (
                Tier::Three,
                "QL_CONTRACT §2 (catalog): e4 has no authentication and no role catalog -- the process that opened the file is the only user there is.",
            ),
        )
    } else if same(w, "PG_DATABASE") {
        Some(
            (
                Tier::Three,
                "QL_CONTRACT §2 (catalog): e4 is one database per file and there is no cluster to list. `SELECT current_database()` names this one.",
            ),
        )
    } else if same(w, "PG_ENUM") {
        Some(
            (
                Tier::Three,
                "QL_CONTRACT §2 (catalog): e4 has no enum types -- a column's `Kind` is one of eight and none of them is user-defined.",
            ),
        )
    } else if same(w, "PG_OPERATOR") {
        Some(
            (
                Tier::Three,
                "QL_CONTRACT §2 (catalog): operators are compiled by `lang` against the index families a predicate names; there is no operator catalog to read.",
            ),
        )
    } else if same(w, "PG_AM") {
        Some(
            (
                Tier::Three,
                "QL_CONTRACT §2 (catalog): an index family is an `IndexFamily`, a closed set in the collection catalog, not an access-method row. `db_indexes` and `pg_indexes` name the family of each index.",
            ),
        )
    } else if same(w, "PG_TRIGGER") {
        Some(
            (
                Tier::Three,
                "QL_CONTRACT §2: triggers have no atomic, so there is no trigger catalog.",
            ),
        )
    } else if same(w, "PG_REWRITE") {
        Some(
            (
                Tier::Three,
                "QL_CONTRACT §2: a user `CREATE VIEW` is Tier 3 (a query rewrite at prepare is a second planner path), so there is no rule catalog.",
            ),
        )
    } else if same(w, "PG_STAT_ACTIVITY") {
        Some(
            (
                Tier::Three,
                "QL_CONTRACT §2 (catalog): there is no connection table -- a connection is a process here.",
            ),
        )
    } else {
        None
    }
}

/// The tier and the reason that a keyword carries, in whatever case it is
/// written.
pub open spec fn looked_up(keyword: Seq<char>) -> Option<(Tier, Seq<char>)> {
    entry(upper(keyword))
}

pub fn lookup(keyword: &str) -> (r: Option<(Tier, &'static str)>)
    ensures
        match r {
            Some((tier, reason)) => looked_up(keyword@) == Some((tier, reason@)),
            None => looked_up(keyword@) is None,
        },
{
    entry_of(ascii_upper(keyword).as_str())
}

/// The error that a keyword ends its statement with.
pub open spec fn refusal(keyword: Seq<char>) -> SqlErrorV {
    match looked_up(keyword) {
        Some((tier, reason)) => SqlErrorV::Refused { keyword: upper(keyword), tier, reason },
        None => SqlErrorV::Refused {
            keyword: upper(keyword),
            tier: Tier::Three,
            reason: "QL_CONTRACT: not a Tier-1 construct and not in the Tier-2/3 table; no atomic is named for it."@,
        },
    }
}

pub fn refuse(keyword: &str) -> (r: SqlError)
    ensures
        r.deep_view() == refusal(keyword@),
{
    match lookup(keyword) {
        Some((tier, reason)) => SqlError::Refused {
            keyword: ascii_upper(keyword),
            tier,
            reason: owned(reason),
        },
        None => SqlError::Refused {
            keyword: ascii_upper(keyword),
            tier: Tier::Three,
            reason: owned(
                "QL_CONTRACT: not a Tier-1 construct and not in the Tier-2/3 table; no atomic is named for it.",
            ),
        },
    }
}

/// The error of a rewrite whose pre-image is a set of ranges and not one.
pub open spec fn multi_range_refusal(what: Seq<char>) -> SqlErrorV {
    SqlErrorV::Refused {
        keyword: what,
        tier: Tier::Two,
        reason: "QL_CONTRACT §4.2 and §3: this rewrite's pre-image is a SET of scalar ranges over the index, not one, and a set of ranges is exactly the membership-set union `OR` and `IN (list)` compile to. That union is not built in this slice, so the multi-range form is refused here rather than emulated by a scan (QL_CONTRACT §6). The single-range forms -- EXTRACT(YEAR FROM t), date_trunc('unit', t), t::date, t >= lit, t BETWEEN, t > now() - interval -- are accepted."@,
    }
}

pub fn multi_range(what: &str) -> (r: SqlError)
    ensures
        r.deep_view() == multi_range_refusal(what@),
{
    SqlError::Refused {
        keyword: owned(what),
        tier: Tier::Two,
        reason: owned(
            "QL_CONTRACT §4.2 and §3: this rewrite's pre-image is a SET of scalar ranges over the index, not one, and a set of ranges is exactly the membership-set union `OR` and `IN (list)` compile to. That union is not built in this slice, so the multi-range form is refused here rather than emulated by a scan (QL_CONTRACT §6). The single-range forms -- EXTRACT(YEAR FROM t), date_trunc('unit', t), t::date, t >= lit, t BETWEEN, t > now() - interval -- are accepted.",
        ),
    }
}

/// Making capitals twice makes them once.
pub proof fn upper_twice(s: Seq<char>)
    ensures
        upper(upper(s)) == upper(s),
{
    assert forall|i: int| 0 <= i < s.len() implies upper_char(upper_char(s[i])) == upper_char(
        s[i],
    ) by {}
    assert(upper(upper(s)) =~= upper(s));
}

/// The case a keyword is written in changes nothing: its capitals carry the
/// same tier and reason, and are refused with the same error.
pub proof fn case_is_ignored(keyword: Seq<char>)
    ensures
        looked_up(upper(keyword)) == looked_up(keyword),
        refusal(upper(keyword)) == refusal(keyword),
{
    upper_twice(keyword);
}

} // verus!
