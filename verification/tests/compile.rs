//! Statements, compiled over one small database.

use sekejap_lang::catalog::absent::not_provided;
use sekejap_lang::catalog::relations::relation;
use sekejap_lang::catalog::snapshot::{snapshot, Snapshot};
use sekejap_lang::compile::bind::Binder;
use sekejap_lang::compile::env::{
    Catalog, Collection, IndexExpr, IndexFamily, IndexInfo, IndexState, Param, RefusedBounds,
    RefusedPoint, StoredRow,
};
use sekejap_lang::compile::log::{Env, Log, SemiCell, SemiFound};
use sekejap_lang::compile::places::written_places;
use sekejap_lang::compile::plan::{CandidateDriver, SelectPlan, WritePlan};
use sekejap_lang::compile::reads::{reads_graph, semi_joins};
use sekejap_lang::compile::rebind::Rebind;
use sekejap_lang::compile::request::GraphLimits;
use sekejap_lang::compile::statement::{Compiled, Plan, Shortlist};
use sekejap_lang::error::SqlError;
use sekejap_lang::number::Real;
use sekejap_lang::parser::statement::parse;
use sekejap_lang::stmt::Stmt;
use sekejap_lang::token::{Sym, Tok, Token};
use sekejap_lang::value::{ColumnRule, DefaultValue, EntityId, Kind, SqlValue, Value};

const NOW: i64 = 1_709_210_096_789_000;

fn number(x: f64) -> Real {
    Real { bits: x.to_bits(), shown: format!("{x}"), json: format!("{x:?}") }
}

fn sym(text: &str) -> Option<Sym> {
    let marks = [
        ("#>>", Sym::HashLongArrow),
        ("->>", Sym::LongArrow),
        ("<=>", Sym::VecCosine),
        ("<->", Sym::VecL2),
        ("<#>", Sym::VecDot),
        ("<+>", Sym::VecL1),
        ("::", Sym::Cast),
        ("<>", Sym::Ne),
        ("!=", Sym::Ne),
        ("<=", Sym::Le),
        (">=", Sym::Ge),
        ("||", Sym::Concat),
        ("@@", Sym::Matches),
        ("&&", Sym::Overlaps),
        ("@>", Sym::ContainsOp),
        ("->", Sym::Arrow),
        ("#>", Sym::HashArrow),
        ("<-", Sym::BackArrow),
        ("(", Sym::LParen),
        (")", Sym::RParen),
        ("[", Sym::LBracket),
        ("]", Sym::RBracket),
        ("{", Sym::LBrace),
        ("}", Sym::RBrace),
        (",", Sym::Comma),
        (".", Sym::Dot),
        (";", Sym::Semicolon),
        (":", Sym::Colon),
        ("*", Sym::Star),
        ("+", Sym::Plus),
        ("-", Sym::Minus),
        ("/", Sym::Slash),
        ("=", Sym::Eq),
        ("<", Sym::Lt),
        (">", Sym::Gt),
        ("|", Sym::Pipe),
        ("?", Sym::Question),
        ("~", Sym::Tilde),
    ];
    marks.iter().find(|(mark, _)| text.starts_with(mark)).map(|(_, s)| *s)
}

/// The tokens of a statement, with the end of the statement behind them.
fn tokens(sql: &str) -> Vec<Token> {
    let mut out = Vec::new();
    let mut at = 0;
    while at < sql.len() {
        let rest = &sql[at..];
        let first = rest.chars().next().unwrap();
        let (tok, len) = if first.is_whitespace() {
            at += first.len_utf8();
            continue;
        } else if first.is_alphabetic() || first == '_' {
            let len = rest.find(|c: char| !c.is_alphanumeric() && c != '_').unwrap_or(rest.len());
            (Tok::Word(rest[..len].to_string()), len)
        } else if first == '"' {
            let len = rest[1..].find('"').unwrap() + 2;
            (Tok::Quoted(rest[1..len - 1].to_string()), len)
        } else if first == '\'' {
            let len = rest[1..].find('\'').unwrap() + 2;
            (Tok::Str(rest[1..len - 1].to_string()), len)
        } else if first.is_ascii_digit() {
            let len = rest.find(|c: char| !c.is_ascii_digit() && c != '.').unwrap_or(rest.len());
            let text = &rest[..len];
            (Tok::Num(number(text.parse().unwrap()), !text.contains('.')), len)
        } else if first == '$' {
            let len = 1 + rest[1..].find(|c: char| !c.is_ascii_digit()).unwrap_or(rest.len() - 1);
            (Tok::Param(rest[1..len].parse().unwrap()), len)
        } else {
            let s = sym(rest).unwrap();
            let tok = Tok::Sym(s);
            let len = if rest.starts_with("!=") { 2 } else { tok.written().len() };
            (tok, len)
        };
        out.push(Token { tok, at });
        at += len;
    }
    out.push(Token { tok: Tok::Eof, at });
    out
}

/// A printed value, with every number replaced by what it shows as.
fn plain(text: String) -> String {
    let mut out = String::new();
    let mut rest = text.as_str();
    while let Some(at) = rest.find("Real { bits: ") {
        out.push_str(&rest[..at]);
        let from = at + rest[at..].find("shown: \"").unwrap() + 8;
        let to = from + rest[from..].find('"').unwrap();
        out.push_str(&rest[from..to]);
        rest = &rest[to + rest[to..].find('}').unwrap() + 1..];
    }
    out.push_str(rest);
    out
}

fn assert_holds(text: &str, part: &str) {
    assert!(text.contains(part), "no `{part}` in {text}");
}

fn index(id: u64, name: &str, field: &str, family: IndexFamily) -> IndexInfo {
    IndexInfo {
        id,
        name: name.to_string(),
        field: field.to_string(),
        family,
        expression: None,
        state: IndexState::Ready,
        unique: false,
    }
}

fn column(name: &str, kind: Kind) -> (String, Kind) {
    (name.to_string(), kind)
}

fn database() -> Catalog {
    let mut folded = index(31, "places_folded", "name", IndexFamily::Scalar);
    folded.expression = Some(IndexExpr::Lower);
    Catalog {
        collections: vec![
            Collection {
                id: 1,
                name: "places".to_string(),
                fields: vec![
                    column("name", Kind::Text),
                    column("pop", Kind::Int),
                    column("made", Kind::Int),
                    column("spot", Kind::Point),
                    column("area", Kind::Geo),
                    column("v", Kind::Vector(2)),
                    column("meta", Kind::Json),
                    column("bare", Kind::Int),
                ],
                declared: vec![("made".to_string(), "TIMESTAMPTZ".to_string())],
                rules: vec![],
                indexes: vec![
                    index(10, "places_name", "name", IndexFamily::Scalar),
                    index(11, "places_pop", "pop", IndexFamily::Scalar),
                    index(12, "places_made", "made", IndexFamily::Scalar),
                    index(13, "places_words", "name", IndexFamily::Text),
                    index(14, "places_spot", "spot", IndexFamily::SpatialPoint),
                    index(15, "places_area", "area", IndexFamily::SpatialGeometry),
                    index(16, "places_v", "v", IndexFamily::ExactVector),
                    folded,
                ],
                occupied: true,
                rows: Some(5),
                tuples: number(5.0),
            },
            Collection {
                id: 2,
                name: "people".to_string(),
                fields: vec![column("home", Kind::Text)],
                declared: vec![],
                rules: vec![],
                indexes: vec![],
                occupied: false,
                rows: Some(0),
                tuples: number(0.0),
            },
        ],
        contexts: vec![("work".to_string(), 3)],
        edge_types: vec![("lives_in".to_string(), 7)],
        rows: vec![
            StoredRow {
                id: EntityId { collection: 1, sequence: 4 },
                key: "rome".to_string(),
                document: vec![
                    ("name".to_string(), Value::Text("Rome".to_string())),
                    ("pop".to_string(), Value::Int(28)),
                ],
            },
            StoredRow {
                id: EntityId { collection: 1, sequence: 5 },
                key: "oslo".to_string(),
                document: vec![("name".to_string(), Value::Text("Oslo".to_string()))],
            },
        ],
        refused_points: vec![],
        refused_bounds: vec![],
        endpoint_sets: true,
        next_layout: 40,
    }
}

fn image(cat: &Catalog) -> Snapshot {
    snapshot(cat, &vec![], false, false)
}

fn prepared(cat: &Catalog, params: &Vec<Param>, ef: Option<usize>, sql: &str) -> (Result<Compiled, SqlError>, Log) {
    let semi = vec![
        SemiFound {
            table: "lives_in".to_string(),
            column: "destination".to_string(),
            endpoints: vec![9, 3, 9],
            pages: vec![],
        },
        SemiFound {
            table: "people".to_string(),
            column: "home".to_string(),
            endpoints: vec![],
            pages: vec![vec![SemiCell::Key(Some(8)), SemiCell::Nothing], vec![SemiCell::Key(None)]],
        },
    ];
    let env = Env { binder: Binder::new(cat, params), clock: NOW, ef_search: ef, semi: &semi };
    let mut log = Log::new();
    let r = env.prepare(&image(cat), 77, 100, tokens(sql), vec![], &mut log);
    (r, log)
}

fn given() -> Vec<Param> {
    vec![Param::Text("Rome".to_string()), Param::Int(7)]
}

fn select(sql: &str) -> (SelectPlan, Log) {
    match prepared(&database(), &given(), None, sql) {
        (Ok(Compiled { plan: Plan::Select(p), .. }), log) => (p, log),
        (other, _) => panic!("{sql}: {other:?}"),
    }
}

fn filters(condition: &str) -> String {
    let (p, _) = select(&format!("SELECT name FROM places WHERE {condition}"));
    plain(format!("{:?}", p.filters))
}

fn order(key: &str) -> String {
    let (p, _) = select(&format!("SELECT name FROM places ORDER BY {key}"));
    plain(format!("{:?}", p.order))
}

fn write(sql: &str) -> String {
    match prepared(&database(), &given(), None, sql) {
        (Ok(Compiled { plan: Plan::Write(p), .. }), _) => plain(format!("{p:?}")),
        (other, _) => panic!("{sql}: {other:?}"),
    }
}

fn fails(sql: &str, part: &str) {
    match prepared(&database(), &given(), None, sql) {
        (Err(e), _) => assert_holds(&format!("{e:?}"), part),
        (Ok(other), _) => panic!("{sql}: {other:?}"),
    }
}

fn fails_where(condition: &str, part: &str) {
    fails(&format!("SELECT name FROM places WHERE {condition}"), part);
}

// ── predicates ───────────────────────────────────────────────────────────

#[test]
fn a_comparison_names_an_index() {
    assert_eq!(filters("pop = 3"), "[Scalar { index: 11, predicate: Eq(I64(3)), fills: [] }]");
    assert_eq!(
        filters("pop > 3"),
        "[Scalar { index: 11, predicate: Range { lower: Excluded(I64(3)), upper: Unbounded }, fills: [] }]"
    );
    assert_eq!(
        filters("pop <= 3"),
        "[Scalar { index: 11, predicate: Range { lower: Unbounded, upper: Included(I64(3)) }, fills: [] }]"
    );
    assert_eq!(
        filters("name <> 'x'"),
        "[Not(Scalar { index: 10, predicate: Eq(Text(\"x\")), fills: [] })]"
    );
    assert_eq!(
        filters("pop BETWEEN 1 AND 2"),
        "[Scalar { index: 11, predicate: Range { lower: Included(I64(1)), upper: Included(I64(2)) }, fills: [] }]"
    );
}

#[test]
fn a_parameter_leaves_a_slot() {
    assert_eq!(
        filters("name = $1"),
        "[Scalar { index: 10, predicate: Eq(Text(\"Rome\")), fills: [ScalarFill { at: Eq, literal: Param(1), kind: Text, column: \"name\" }] }]"
    );
    assert_holds(&filters("pop >= $2"), "fills: [ScalarFill { at: Lower, literal: Param(2), kind: Int");
    assert_holds(
        &filters("_key < $1"),
        "Key { lower: Unbounded, upper: Excluded(\"Rome\"), fills: [KeyFill { at: Upper, literal: Param(1) }] }",
    );
}

#[test]
fn keys_are_ranges_of_keys() {
    assert_eq!(
        filters("_key = 'a'"),
        "[Key { lower: Included(\"a\"), upper: Included(\"a\"), fills: [] }]"
    );
    assert_eq!(
        filters("_key BETWEEN 'a' AND 'b'"),
        "[Key { lower: Included(\"a\"), upper: Included(\"b\"), fills: [] }]"
    );
    let (p, _) = select("SELECT _id FROM places WHERE _key > 'a'");
    assert_eq!(format!("{:?}", p.driver), "Keys");
}

#[test]
fn a_list_is_a_union() {
    assert_eq!(
        filters("pop IN (1, 2)"),
        "[Any([Scalar { index: 11, predicate: Eq(I64(1)), fills: [] }, Scalar { index: 11, predicate: Eq(I64(2)), fills: [] }])]"
    );
    assert_eq!(filters("pop IN (1)"), filters("pop = 1"));
    assert_holds(&filters("_key IN ('a', 'b')"), "[Any([Key { lower: Included(\"a\")");
}

#[test]
fn conditions_keep_their_shape() {
    assert_holds(&filters("pop = 1 OR pop = 2 AND name = 'x'"), "[Any([Scalar { index: 11");
    assert_holds(&filters("pop = 1 OR pop = 2 AND name = 'x'"), "All([Scalar { index: 11");
    assert_holds(&filters("NOT pop = 1"), "[Not(Scalar { index: 11");
    assert_holds(&filters("pop = 1 AND name = 'x'"), "fills: [] }, Scalar { index: 10");
}

#[test]
fn absence_is_an_index_key() {
    assert_eq!(filters("name IS NULL"), "[Scalar { index: 10, predicate: IsNull, fills: [] }]");
    assert_holds(&filters("name IS NOT NULL"), "Not(");
    assert_eq!(filters("name IS MISSING"), "[Scalar { index: 10, predicate: IsMissing, fills: [] }]");
}

#[test]
fn a_constant_is_folded_at_the_top() {
    let (p, log) = select("SELECT name FROM places WHERE 1 = 2 AND pop = 1");
    assert_eq!(p.limit, Some(0));
    assert_eq!(p.filters.len(), 1);
    assert!(log.notices[0].starts_with("a constant FALSE predicate"));
    let (p, _) = select("SELECT name FROM places WHERE 1 = 1 LIMIT 4");
    assert_eq!((p.filters.len(), p.limit), (0, Some(4)));
    fails_where("1 = 1 OR pop = 1", "a constant predicate inside OR or NOT");
}

#[test]
fn one_stored_value_is_read() {
    assert_holds(&filters("pop = (SELECT pop FROM places WHERE _key = 'rome')"), "Eq(I64(28))");
}

// ── instants ─────────────────────────────────────────────────────────────

#[test]
fn a_year_is_a_range() {
    assert_eq!(
        filters("EXTRACT(YEAR FROM made) = 2024"),
        "[Scalar { index: 12, predicate: Range { lower: Included(I64(1704067200000000)), upper: Excluded(I64(1735689600000000)) }, fills: [] }]"
    );
    let (p, _) = select("SELECT name FROM places WHERE EXTRACT(YEAR FROM made) = 2024");
    assert_eq!(p.rewrites.len(), 1);
    fails_where("EXTRACT(MONTH FROM made) = 2", "Refused");
}

#[test]
fn a_year_past_every_instant_is_no_instant_or_every_one() {
    let range = |condition: &str| filters(&format!("EXTRACT(YEAR FROM made) {condition}"));
    let every = "Range { lower: Unbounded, upper: Unbounded }";
    assert_holds(&range("< 300000"), every);
    assert_holds(&range("<= 300000"), every);
    for none in ["= 300000", "> 300000", ">= 300000", "BETWEEN 300000 AND 300001"] {
        let text = range(none);
        assert!(!text.contains(every), "{none}: {text}");
    }
}

#[test]
fn a_truncated_instant_is_a_range() {
    assert_holds(
        &filters("date_trunc('month', made) = '2024-02-01'"),
        "Range { lower: Included(I64(1706745600000000)), upper: Excluded(I64(1709251200000000)) }",
    );
    assert_holds(
        &filters("made::date = '2024-02-29'"),
        "Range { lower: Included(I64(1709164800000000)), upper: Excluded(I64(1709251200000000)) }",
    );
}

#[test]
fn a_text_against_an_instant_is_read() {
    assert_holds(
        &filters("made >= '2024-02-29'"),
        "Range { lower: Included(I64(1709164800000000)), upper: Unbounded }",
    );
    assert_holds(
        &filters("made > now() - interval '1 second'"),
        "Range { lower: Excluded(I64(1709210095789000)), upper: Unbounded }",
    );
    fails_where("made = 'soon'", "soon");
}

#[test]
fn a_clock_cannot_be_bound_again() {
    let (_, log) = select("SELECT name FROM places WHERE made > now()");
    assert_eq!(
        log.refusals,
        vec!["now()/current_date is folded at prepare, and a rebind takes a NEW clock"]
    );
}

// ── text and places ──────────────────────────────────────────────────────

#[test]
fn words_are_searched() {
    assert_holds(
        &filters("to_tsvector('simple', name) @@ to_tsquery('simple', 'a & b')"),
        "Text { index: 13, query: \"a b\"",
    );
    assert_holds(
        &filters("to_tsvector('simple', name) @@ to_tsquery('simple', '!a')"),
        "Not(Text { index: 13, query: \"a\"",
    );
    fails_where(
        "to_tsvector('simple', name) @@ to_tsquery('simple', '!a <-> b')",
        "Refused { keyword: \"tsquery !\", tier: Two",
    );
    assert_holds(
        &filters("to_tsvector('simple', name) @@ to_tsquery('simple', $1)"),
        "fill: Some(TsQuery { source: Param(1)",
    );
}

#[test]
fn a_lowered_name_has_its_own_index() {
    assert_eq!(
        filters("lower(name) = 'rome'"),
        "[Scalar { index: 31, predicate: Eq(Text(\"rome\")), fills: [] }]"
    );
    assert_holds(
        &filters("name LIKE 'ro%'"),
        "Scalar { index: 10, predicate: Range { lower: Included(Text(\"ro\")), upper: Excluded(Text(\"rp\")) }",
    );
}

#[test]
fn circles_and_boxes() {
    assert_holds(&filters("ST_DWithin(spot, ST_Point(1, 2), 50)"), "Point { index: 14, predicate: Radius");
    assert_holds(
        &filters("ST_Within(area, ST_MakeEnvelope(0, 0, 1, 1, 4326))"),
        "Geometry { index: 15, predicate: Within(",
    );
    assert_holds(
        &filters("ST_Intersects(area, ST_GeomFromGeoJSON('{\"type\":\"Point\",\"coordinates\":[1,2]}'))"),
        "Intersects(",
    );
    fails_where("ST_Intersects(area, ST_GeomFromGeoJSON('nonsense'))", "Parameter(\"GeoJSON: expected ident at line 1 column 2\")");
    fails_where(
        "ST_Intersects(area, ST_GeomFromGeoJSON('{\"type\":\"Point\"}'))",
        "coordinates",
    );
}

fn refusing() -> Catalog {
    let mut cat = database();
    cat.refused_points = vec![RefusedPoint {
        lon: number(200.0),
        lat: number(7.0),
        reason: "longitude out of range".to_string(),
    }];
    cat.refused_bounds = vec![RefusedBounds {
        west: 5f64.to_bits(),
        south: 0f64.to_bits(),
        east: 1f64.to_bits(),
        north: 1f64.to_bits(),
        reason: "west is past east".to_string(),
    }];
    cat
}

#[test]
fn a_place_is_what_the_engine_takes_for_one() {
    let cat = refusing();
    let engine = |tail: &str| {
        match prepared(&cat, &given(), None, &format!("SELECT name FROM places {tail}")) {
            (Err(SqlError::Engine(e)), _) => e,
            (other, _) => panic!("{tail}: {other:?}"),
        }
    };
    let point = "ST_MakePoint(200, 7): longitude out of range";
    assert_eq!(engine("WHERE ST_DWithin(spot, ST_Point(200, 7), 50)"), point);
    assert_eq!(engine("WHERE ST_DWithin(spot, ST_Point(200, $2), 50)"), point);
    assert_eq!(engine("WHERE NOT ST_Intersects(area, ST_Point(200.0, 7))"), point);
    assert_eq!(engine("ORDER BY spot <-> ST_Point(200, 7)"), point);
    assert_eq!(engine("ORDER BY 2 * ST_Distance(spot, ST_Point(200, 7)) DESC"), point);
    assert_eq!(
        engine("WHERE ST_Within(spot, ST_MakeEnvelope(5, 0, 1, 1, 4326))"),
        "ST_MakeEnvelope: west is past east"
    );
    for tail in [
        "WHERE ST_DWithin(spot, ST_Point(7, 200), 50)",
        "WHERE ST_Within(spot, ST_MakeEnvelope(0, 0, 1, 1, 4326))",
        "WHERE ST_Within(area, ST_MakeEnvelope(5, 0, 1, 1, 4326))",
    ] {
        assert!(prepared(&cat, &given(), None, &format!("SELECT name FROM places {tail}")).0.is_ok());
    }
    let (p, _) = select("SELECT name FROM places WHERE ST_DWithin(spot, ST_Point($2, 7), 50)");
    let far = vec![Param::Text("x".to_string()), Param::Int(200)];
    assert!(matches!(p.rebind(&Binder::new(&cat, &far)), Err(SqlError::Engine(e)) if e == point));
}

#[test]
fn a_statement_says_which_places_it_writes() {
    let count = |sql: &str| written_places(&parse(tokens(sql), vec![]).unwrap()).len();
    assert_eq!(count("SELECT name FROM places WHERE ST_DWithin(spot, ST_Point(1, 2), 5) OR NOT ST_Within(spot, ST_MakeEnvelope(0, 0, 1, 1)) ORDER BY spot <-> ST_Point(3, 4)"), 3);
    assert_eq!(count("SELECT name FROM places ORDER BY 1 - ST_Distance(spot, ST_Point(3, 4)) / ST_Distance(spot, ST_Point(5, 6)) DESC"), 2);
    assert_eq!(count("DELETE FROM places WHERE ST_DWithin(spot, ST_Point(1, 2), 5) AND pop > 1"), 1);
    assert_eq!(count("SELECT name FROM places WHERE ST_Intersects(area, '{}')"), 0);
    assert_eq!(count("INSERT INTO places (_key, name) VALUES ('x', 'y')"), 0);
}

fn geo(kind: &str, coordinates: &str) -> String {
    format!("ST_Intersects(area, ST_GeomFromGeoJSON('{{\"type\":\"{kind}\",\"coordinates\":{coordinates}}}'))")
}

#[test]
fn coordinates_have_the_shape_of_their_kind() {
    for (kind, coordinates) in [
        ("Point", "[1, 2.5]"),
        ("LineString", "[[0,0],[1e2,-1]]"),
        ("Polygon", "[[[0,0],[1,0],[1,1],[0,0]]]"),
        ("MultiPoint", "[[0,0],[1,1]]"),
        ("MultiLineString", "[[[0,0],[1,1]],[]]"),
        ("MultiPolygon", "[[[[0,0],[1,0],[1,1],[0,0]]]]"),
    ] {
        assert_holds(&filters(&geo(kind, coordinates)), "Intersects(");
    }
    for (kind, coordinates, fault) in [
        ("Point", "[1]", "invalid length 1, expected an array of length 2"),
        ("Point", "[]", "invalid length 0, expected an array of length 2"),
        ("Point", "[1,2,3]", "invalid length 3, expected fewer elements in array"),
        ("Point", "[\"a\",2]", "invalid type: string \"a\", expected f64"),
        ("Point", "[1,null]", "invalid type: null, expected f64"),
        ("Point", "{}", "invalid type: map, expected an array of length 2"),
        ("Point", "1.5", "invalid type: floating point `1.5`, expected an array of length 2"),
        ("LineString", "[[0,0],5]", "invalid type: integer `5`, expected an array of length 2"),
        ("LineString", "true", "invalid type: boolean `true`, expected a sequence"),
        ("Polygon", "[[0,0]]", "invalid type: integer `0`, expected an array of length 2"),
        ("Polygon", "[[[0,[]]]]", "invalid type: sequence, expected f64"),
        ("MultiPolygon", "[[[[0,0],[1]]]]", "invalid length 1, expected an array of length 2"),
    ] {
        let sql = format!("SELECT name FROM places WHERE {}", geo(kind, coordinates));
        match prepared(&database(), &given(), None, &sql) {
            (Err(SqlError::Parameter(e)), _) => assert_eq!(e, format!("GeoJSON coordinates: {fault}")),
            (other, _) => panic!("{sql}: {other:?}"),
        }
    }
    fails_where(&geo("Circle", "[1,2]"), "Circle");
    fails(
        "INSERT INTO places (_key, area) VALUES ('x', '{\"type\":\"Point\",\"coordinates\":[1]}')",
        "Parameter(\"GeoJSON coordinates: invalid length 1, expected an array of length 2\")",
    );
    assert_holds(
        &write("INSERT INTO places (_key, area) VALUES ('x', '{\"type\":\"Point\",\"coordinates\":[1,2]}')"),
        "Insert { collection: 1, rows: [(\"x\", [(\"area\", ",
    );
}

#[test]
fn a_vector_is_a_list_of_numbers() {
    assert_holds(&write("INSERT INTO places (_key, v) VALUES ('x', '[1, -2.5e1]')"), "(\"v\", ");
    fails(
        "INSERT INTO places (_key, v) VALUES ('x', '[1, two]')",
        "vector literal: invalid float literal",
    );
    fails(
        "INSERT INTO places (_key, v) VALUES ('x', '[1,]')",
        "vector literal: cannot parse float from empty string",
    );
}

// ── semi-joins ───────────────────────────────────────────────────────────

#[test]
fn a_semi_join_is_a_set_of_rows() {
    let (p, log) = select("SELECT name FROM places WHERE _key IN (SELECT destination FROM lives_in)");
    assert_eq!(
        format!("{:?}", p.filters),
        "[Ids([EntityId { collection: 1, sequence: 3 }, EntityId { collection: 1, sequence: 9 }])]"
    );
    assert_eq!(log.refusals.len(), 1);
    let (p, _) = select("SELECT name FROM places WHERE _key IN (SELECT home FROM people)");
    assert_eq!(format!("{:?}", p.filters), "[Ids([EntityId { collection: 1, sequence: 8 }])]");
}

#[test]
fn a_semi_join_says_what_it_reads() {
    let sql = "SELECT name FROM places WHERE pop = 1 OR NOT (_key IN (SELECT destination FROM lives_in) AND _key IN (SELECT home FROM people))";
    let names = semi_joins(&parse(tokens(sql), vec![]).unwrap());
    let list: Vec<(&str, &str)> =
        names.iter().map(|n| (n.table.as_str(), n.column.as_str())).collect();
    assert_eq!(list, vec![("lives_in", "destination"), ("people", "home")]);
    let cat = database();
    assert_eq!(
        format!("{:?}", cat.semi_read("lives_in", "Source").unwrap()),
        "Endpoints { edge_type: 7, outgoing: true, max_edges: 67108864, max_ids: 1048576 }"
    );
    assert_holds(&format!("{:?}", cat.semi_read("lives_in", "destination")), "outgoing: false");
    assert_eq!(
        format!("{:?}", cat.semi_read("people", "home").unwrap()),
        "Column { collection: 2, column: \"home\" }"
    );
    assert!(cat.semi_read("lives_in", "weight").is_err());
    assert!(cat.semi_read("nowhere", "home").is_err());
}

// ── ranking ──────────────────────────────────────────────────────────────

#[test]
fn orders() {
    assert_eq!(order("pop DESC"), "Scalar { index: 11, descending: true }");
    assert_eq!(order("_id"), "EntityId");
    assert_holds(&order("spot <-> ST_Point(1, 2)"), "Distance { index: 14");
    assert_holds(&order("v <=> '[1,2]'"), "ExactVector { index: 16");
    assert_holds(&order("2 * pop DESC"), "Score { expr: Mul(Lit(2), Scalar { index: 11 }), descending: true }");
    fails("SELECT name FROM places ORDER BY bare", "a scalar index");
    fails("SELECT name FROM places ORDER BY v <=> '[1,2]' DESC", "the nearest is first");
    fails("SELECT name FROM places ORDER BY search_score() DESC", "search_score");
}

#[test]
fn a_search_scores_itself() {
    let (p, _) = select("SELECT name FROM places WHERE search(name, 'rmoe') ORDER BY search_score() DESC");
    assert_holds(&format!("{:?}", p.order), "SearchScore { index: 13, query: \"rmoe\" }");
}

#[test]
fn a_shortlist_without_its_index_is_noted() {
    let (r, log) = prepared(&database(), &given(), Some(9), "SELECT name FROM places ORDER BY v <=> '[1,2]'");
    assert!(r.is_ok());
    assert!(log.notices[0].starts_with("SET LOCAL ef_search = 9 was seen"));
    let mut cat = database();
    cat.collections[0].indexes.push(index(17, "places_q", "v", IndexFamily::QuantizedVector));
    let (r, _) = prepared(&cat, &given(), Some(9), "SELECT name FROM places ORDER BY v <=> '[1,2]'");
    assert_holds(&format!("{r:?}"), "ApproximateVector { index: 17");
}

// ── select lists ─────────────────────────────────────────────────────────

#[test]
fn outputs() {
    let (p, log) = select("SELECT _id, _key, name, upper(name) AS loud, made FROM places");
    assert_eq!(p.columns, vec!["_id", "_key", "name", "loud", "made"]);
    assert_eq!(p.fields, vec!["name", "made"]);
    assert_eq!(format!("{:?}", p.outputs), "[Id, Key, Field(0), Row(0), Row(1)]");
    assert_eq!(p.row_functions.len(), 2);
    assert!(log.notices[0].starts_with("selecting `_key` costs one"));
    let (p, _) = select("SELECT * FROM places");
    assert_eq!(p.columns.len(), 8);
    fails("SELECT nope FROM places", "nope");
    fails("SELECT name FROM nowhere", "nowhere");
}

#[test]
fn a_pattern_drives_its_statement() {
    let sql = "SELECT * FROM GRAPH_TABLE (work MATCH (a IS places WHERE a._key = $1)-[e IS lives_in WHERE e.since > 3]->{1,2}(b IS places WHERE b.pop > 3) COLUMNS (b.name AS name))";
    let seed = vec![Param::Text("rome".to_string())];
    let (r, _) = prepared(&database(), &seed, None, sql);
    let text = plain(format!("{r:?}"));
    assert_holds(&text, "Graph(OwnedGraph { seed: EntityId { collection: 1, sequence: 4 }");
    assert_holds(&text, "context: 3, edge_type: Some(7), min_depth: 1, max_depth: 2");
    let absent = vec![Param::Text("atlantis".to_string())];
    let (r, _) = prepared(&database(), &absent, None, sql);
    assert_holds(&format!("{r:?}"), "GRAPH_TABLE seed: `places` has no row at key `atlantis`");
}

#[test]
fn groups() {
    let (r, _) = prepared(
        &database(),
        &given(),
        None,
        "SELECT name, count(*) AS n, sum(pop) FROM places WHERE pop > 1 GROUP BY name HAVING count(*) > 2 ORDER BY n DESC LIMIT 2",
    );
    let text = plain(format!("{r:?}"));
    assert_holds(&text, "Aggregate(AggregatePlan { collection: 1");
    assert_holds(&text, "group: Some(Index(10))");
    assert_holds(&text, "function: CountStar");
    assert_holds(&text, "function: Sum");
    assert_holds(&text, "order: Accumulator { at: 0, descending: true }");
    assert_holds(&text, "limit: Some(2)");
}

#[test]
fn an_expression_index_holds_no_group() {
    let mut cat = database();
    cat.collections[0].indexes.retain(|i| i.expression.is_some());
    for sql in [
        "SELECT name, count(*) FROM places GROUP BY name",
        "SELECT min(name) FROM places",
        "SELECT name FROM places ORDER BY name",
    ] {
        let (r, _) = prepared(&cat, &given(), None, sql);
        let text = format!("{r:?}");
        assert!(!text.contains("31"), "{sql}: {text}");
    }
}

// ── requests ─────────────────────────────────────────────────────────────

const LIMITS: GraphLimits = GraphLimits { visited: 1_000, edges: 2_000, results: 300 };

#[test]
fn a_request_has_values_and_no_slots() {
    let (p, _) = select("SELECT _id FROM places WHERE name = $1 OR NOT _key > 'k' LIMIT 4");
    let text = format!("{:?}", p.query(LIMITS));
    assert_holds(&text, "filters: [Any([Scalar { index: 10, predicate: Eq(Text(\"Rome\")) }");
    assert_holds(&text, "Not(Key { lower: Excluded(\"k\"), upper: Unbounded })");
    assert_holds(&text, "order: Driver, projection: Ids, total_limit: Some(4)");
    assert!(!text.contains("fill"), "{text}");
    let (p, _) = select("SELECT name FROM places ORDER BY spot <-> ST_Point(1, 2)");
    let text = plain(format!("{:?}", p.query(LIMITS)));
    assert_holds(&text, "Distance { index: 14");
    assert_holds(&text, "descending: false }, projection: Fields([\"name\"])");
}

#[test]
fn a_distance_is_asked_for_as_a_similarity() {
    let (p, _) = select("SELECT name FROM places ORDER BY 1 - (v <=> '[1,2]') DESC");
    let text = plain(format!("{:?}", p.query(LIMITS).order));
    assert_holds(&text, "Score { expr: Sub(Lit(1), Neg(VectorSimilarity { index: 16");
}

#[test]
fn a_traversal_is_asked_for_within_limits() {
    let seed = vec![Param::Text("rome".to_string())];
    let (r, _) = prepared(
        &database(),
        &seed,
        None,
        "SELECT * FROM GRAPH_TABLE (work MATCH (a IS places WHERE a._key = $1)-[e IS lives_in WHERE e.since > 3]->{1,2}(b IS places WHERE b.pop > 3) COLUMNS (b.name AS name))",
    );
    let Plan::Select(p) = r.unwrap().plan else { panic!("select") };
    let text = plain(format!("{:?}", p.query(LIMITS).filters));
    assert_holds(&text, "include_seed: false, max_visited: 1000, max_edges: 2000, result_limit: 300");
    assert_holds(&text, "edge_where: [EdgeTest { property: \"since\", op: Gt");
    assert_holds(&text, "node_where: [Scalar { index: 11");
}

#[test]
fn folds_and_writes_are_asked_for() {
    let sql = "SELECT count(*) FROM places WHERE pop > 1";
    let (r, _) = prepared(&database(), &given(), None, sql);
    let Plan::Aggregate(p) = r.unwrap().plan else { panic!("aggregate") };
    let text = plain(format!("{:?}", p.query(LIMITS)));
    assert_holds(&text, "group: None, accumulators: [OwnedAccumulator { function: CountStar");
    let (r, _) = prepared(&database(), &given(), None, "DELETE FROM places WHERE pop > 1");
    let Plan::Write(p) = r.unwrap().plan else { panic!("write") };
    let text = plain(format!("{:?}", p.query(LIMITS).unwrap()));
    assert_holds(&text, "action: Delete { cascade: false }");
    assert!(WritePlan::Commit.query(LIMITS).is_none());
}

// ── binding again ────────────────────────────────────────────────────────

#[test]
fn binding_again_is_compiling_again() {
    let cat = database();
    let second = vec![Param::Text("oslo".to_string()), Param::Int(28)];
    let first = vec![Param::Text("rome".to_string()), Param::Int(7)];
    for sql in [
        "SELECT name FROM places WHERE name = $1 AND pop > $2 ORDER BY pop",
        "SELECT name FROM places WHERE pop IN ($2, 3) OR NOT _key = $1",
        "SELECT name FROM places WHERE pop BETWEEN $2 AND 50",
        "SELECT name FROM places WHERE to_tsvector('simple', name) @@ to_tsquery('simple', $1)",
        "SELECT name FROM places WHERE ST_DWithin(spot, ST_Point($2, 1), 50)",
        "SELECT * FROM GRAPH_TABLE (work MATCH (a IS places WHERE a._key = $1)-[e IS lives_in]->{1,2}(b IS places WHERE b.pop > $2) COLUMNS (b.name AS name))",
    ] {
        let (a, log) = prepared(&cat, &first, None, sql);
        let (b, _) = prepared(&cat, &second, None, sql);
        assert!(log.refusals.is_empty());
        let (Plan::Select(a), Plan::Select(b)) = (a.unwrap().plan, b.unwrap().plan) else {
            panic!("{sql}");
        };
        let was = format!("{a:?}");
        let again = a.rebind(&Binder::new(&cat, &second)).unwrap();
        assert_eq!(format!("{again:?}"), format!("{b:?}"));
        let twice = again.rebind(&Binder::new(&cat, &second)).unwrap();
        assert_eq!(format!("{twice:?}"), format!("{b:?}"));
        let back = twice.rebind(&Binder::new(&cat, &first)).unwrap();
        assert_eq!(format!("{back:?}"), was);
    }
}

#[test]
fn a_folded_value_is_not_a_slot() {
    let (_, log) = select("SELECT name FROM places WHERE EXTRACT(YEAR FROM made) = $2");
    assert_eq!(log.refusals.len(), 1);
    let rebind = Rebind { refusals: log.refusals };
    assert!(!rebind.ok());
    assert!(rebind.reason().unwrap().starts_with("$2 is folded into"));
    let free = Rebind { refusals: vec![] };
    assert!(free.ok());
    assert!(free.reason().is_none());
}

#[test]
fn a_plan_without_slots_is_bound_to_itself() {
    let (p, _) = select("SELECT name FROM places WHERE pop = 3 AND name LIKE 'r%' ORDER BY pop LIMIT 2");
    let was = format!("{p:?}");
    let none: Vec<Param> = vec![];
    let again = p.rebind(&Binder::new(&database(), &none)).unwrap();
    assert_eq!(format!("{again:?}"), was);
}

#[test]
fn a_plan_reads_each_field_once() {
    let (p, _) = select("SELECT name, name, upper(name), pop FROM places WHERE pop = 3 AND name = 'a' ORDER BY pop");
    let mut seen: Vec<String> = Vec::new();
    for f in &p.fields {
        assert!(!seen.contains(f), "{f} twice");
        seen.push(f.clone());
    }
    assert_eq!(seen, vec!["name", "pop"]);
    assert_eq!(p.driver, CandidateDriver::Auto);
    let (p, _) = select("SELECT name FROM places WHERE _key > 'k'");
    assert_eq!(p.driver, CandidateDriver::Keys);
}

#[test]
fn an_unbound_parameter_is_named() {
    fails_where("pop > $3", "Parameter(\"$3 is not bound; 2 parameter(s) were given\")");
}

// ── writes ───────────────────────────────────────────────────────────────

#[test]
fn rows_are_inserted_whole() {
    assert_eq!(
        write("INSERT INTO places (_key, name, pop) VALUES ('paris', 'Paris', 2)"),
        "Insert { collection: 1, rows: [(\"paris\", [(\"name\", Value(Text(\"Paris\"))), (\"pop\", Value(Int(2)))])] }"
    );
    fails("INSERT INTO places (_key, name) VALUES ('x', 3)", "name");
    fails("INSERT INTO places (_key, nope) VALUES ('x', 3)", "nope");
    assert_eq!(
        write("INSERT INTO places (name) VALUES ('x')"),
        "Insert { collection: 1, rows: [(\"x\", [(\"name\", Value(Text(\"x\")))])] }"
    );
    fails("INSERT INTO places (pop) VALUES (1)", "its first column `pop` is not TEXT");
}

#[test]
fn one_row_is_changed() {
    assert_eq!(
        write("UPDATE places SET pop = 3 WHERE _key = 'rome'"),
        "Update { collection: 1, key: \"rome\", patch: [(\"pop\", Value(Int(3)))] }"
    );
    assert_eq!(
        write("DELETE FROM places WHERE _key = 'rome'"),
        "Delete { collection: 1, key: \"rome\" }"
    );
}

#[test]
fn many_rows_are_changed() {
    assert_holds(
        &write("UPDATE places SET name = upper(name) WHERE pop > 3"),
        "UpdateWhere { collection: 1, filters: [Scalar { index: 11",
    );
    assert_holds(&write("DELETE FROM places WHERE pop < 3"), "DeleteWhere { collection: 1");
}

// ── definitions ──────────────────────────────────────────────────────────

#[test]
fn tables_are_made_and_dropped() {
    assert_holds(
        &write("CREATE TABLE t (a INT NOT NULL, b TIMESTAMPTZ DEFAULT now())"),
        "CreateTable { name: \"t\", fields: [(\"a\", Int), (\"b\", Int)], declared: [(\"b\", \"TIMESTAMPTZ\")]",
    );
    fails("CREATE TABLE t (_odd INT)", "names beginning with `_` are reserved");
    assert_holds(&write("CREATE TABLE IF NOT EXISTS places (a INT)"), "Notice(");
    assert_eq!(
        write("DROP TABLE places CASCADE"),
        "DropTable { collection: 1, name: \"places\", cascade: true }"
    );
    assert_holds(&write("DROP TABLE IF EXISTS nowhere"), "Notice(");
    fails("DROP TABLE nowhere", "nowhere");
}

#[test]
fn indexes_are_made_and_dropped() {
    assert_eq!(
        write("CREATE INDEX i ON places (bare)"),
        "CreateIndex { collection: 1, name: \"i\", method: Scalar { field: \"bare\", unique: false } }"
    );
    assert_holds(&write("CREATE INDEX i ON places USING gist (spot)"), "method: Point { field: \"spot\" }");
    assert_holds(&write("CREATE INDEX i ON places USING gist (area)"), "method: Geometry { field: \"area\" }");
    fails("CREATE INDEX i ON places (nope)", "nope");
    assert_eq!(write("DROP INDEX places_pop"), "DropIndex { index: 11, name: \"places_pop\" }");
    assert_holds(&write("DROP INDEX IF EXISTS nothing"), "Notice(");
    fails("DROP INDEX nothing", "nothing");
    let mut cat = database();
    cat.collections[1].indexes.push(index(65, "late", "home", IndexFamily::Scalar));
    cat.collections[0].indexes.push(index(70, "late", "bare", IndexFamily::Scalar));
    let (r, _) = prepared(&cat, &given(), None, "DROP INDEX late");
    assert_eq!(plain(format!("{:?}", r.unwrap().plan)), "Write(DropIndex { index: 65, name: \"late\" })");
}

#[test]
fn tables_are_altered() {
    assert_holds(&write("ALTER TABLE people ADD COLUMN d INT"), "fields: [(\"home\", Text), (\"d\", Int)]");
    assert_holds(&write("ALTER TABLE people RENAME COLUMN home TO house"), "fields: [(\"house\", Text)]");
    assert_holds(&write("ALTER TABLE people RENAME TO folk"), "Rename { to: \"folk\" }");
    fails("ALTER TABLE people DROP COLUMN nope", "nope");
    let (r, _) = prepared(
        &database(),
        &given(),
        None,
        "EXPLAIN ALTER TABLE people ADD COLUMN d TEXT DEFAULT uuid5('dns', 'a.b') NOT NULL",
    );
    let Plan::ExplainText(text) = r.unwrap().plan else { panic!("text") };
    assert_holds(&text, "1 column rule(s) [d DEFAULT uuid5('dns', 'a.b') NOT NULL]");
}

#[test]
fn an_alteration_keeps_the_other_columns() {
    let text = write("ALTER TABLE places DROP COLUMN pop");
    assert_holds(
        &text,
        "fields: [(\"name\", Text), (\"made\", Int), (\"spot\", Point), (\"area\", Geo), (\"v\", Vector(2)), (\"meta\", Json), (\"bare\", Int)]",
    );
    assert_holds(&text, "declared: [(\"made\", \"TIMESTAMPTZ\")]");
    assert_holds(&text, "drop_indexes: [(11, \"places_pop\")]");
    assert_holds(&write("ALTER TABLE places ALTER COLUMN bare TYPE DATE"), "declared: [(\"made\", \"TIMESTAMPTZ\"), (\"bare\", \"DATE\")]");
    fails("ALTER TABLE places ALTER COLUMN bare TYPE TEXT", "(Int -> Text)");
    fails("ALTER TABLE places RENAME COLUMN bare TO naked", "RENAME COLUMN");
    fails("ALTER TABLE places ADD COLUMN d INT NOT NULL", "ADD COLUMN ... NOT NULL");
    fails("ALTER TABLE places RENAME TO people", "already exists");
}

// ── the rest ─────────────────────────────────────────────────────────────

#[test]
fn the_session_answers_from_constants() {
    let (r, _) = prepared(&database(), &given(), None, "SELECT version(), pg_backend_pid()");
    let Plan::Rows(p) = r.unwrap().plan else { panic!("rows") };
    assert_holds(&format!("{:?}", p.answer()), "PostgreSQL 16.0 (sekejap 0.17.0)");
    assert_holds(&format!("{:?}", p.answer()), "Int(77)");
}

#[test]
fn the_catalog_is_a_source() {
    let (r, _) = prepared(
        &database(),
        &given(),
        None,
        "SELECT name, rows FROM db_tables WHERE rows >= 0 ORDER BY name LIMIT 1",
    );
    let Plan::Rows(p) = r.unwrap().plan else { panic!("rows") };
    let text = plain(format!("{:?}", p.answer()));
    assert_holds(&text, "[Text(\"people\"), Int(0)]");
    assert!(!text.contains("places"), "{text}");
}

fn rows_of(cat: &Catalog, sql: &str) -> Vec<Vec<SqlValue>> {
    match prepared(cat, &given(), None, sql) {
        (Ok(Compiled { plan: Plan::Rows(p), .. }), _) => p.rows,
        (other, _) => panic!("{sql}: {other:?}"),
    }
}

fn shown_rows(sql: &str) -> String {
    plain(format!("{:?}", rows_of(&database(), sql)))
}

#[test]
fn the_catalog_is_listed_both_ways() {
    let sql = "SELECT name, id FROM db_tables";
    let up = "[[Text(\"people\"), Int(2)], [Text(\"places\"), Int(1)]]";
    let down = "[[Text(\"places\"), Int(1)], [Text(\"people\"), Int(2)]]";
    assert_eq!(shown_rows(sql), down);
    assert_eq!(shown_rows(&format!("{sql} ORDER BY name")), up);
    assert_eq!(shown_rows(&format!("{sql} ORDER BY name ASC")), up);
    assert_eq!(shown_rows(&format!("{sql} ORDER BY name DESC")), down);
}

#[test]
fn a_geometry_index_is_defined_with_gist() {
    let text = shown_rows("SELECT indexdef FROM pg_indexes WHERE indexname = 'places_area'");
    assert_eq!(text, "[[Text(\"CREATE INDEX places_area ON public.places USING gist (area)\")]]");
}

#[test]
fn the_relations_speak_of_the_same_tables() {
    let cat = database();
    let classes = rows_of(&cat, "SELECT oid, relname FROM pg_class");
    for class in &classes {
        let (SqlValue::Int(oid), SqlValue::Text(name)) = (&class[0], &class[1]) else {
            panic!("{class:?}");
        };
        let attributes = rows_of(
            &cat,
            &format!("SELECT attname, attnum FROM pg_attribute WHERE attrelid = {oid}"),
        );
        let columns = rows_of(
            &cat,
            &format!("SELECT column_name, ordinal_position FROM information_schema.columns WHERE table_name = '{name}'"),
        );
        assert_eq!(format!("{attributes:?}"), format!("{columns:?}"));
    }
    let keys = rows_of(&cat, "SELECT conrelid FROM pg_constraint");
    let oids: Vec<Vec<SqlValue>> = rows_of(&cat, "SELECT oid FROM pg_class");
    assert_eq!(format!("{keys:?}"), format!("{oids:?}"));
}

#[test]
fn a_shown_index_is_asked_for_again() {
    let text = match &rows_of(&database(), "SHOW CREATE TABLE places")[0][0] {
        SqlValue::Text(text) => text.clone(),
        other => panic!("{other:?}"),
    };
    let mut made = Vec::new();
    for line in text.lines().filter(|line| line.starts_with("CREATE INDEX")) {
        match parse(tokens(line), vec![]) {
            Ok(Stmt::CreateIndex { name, table, method }) => {
                assert_eq!(table, "places");
                made.push(format!("{name}: {method:?}"));
            }
            other => panic!("{line}: {other:?}"),
        }
    }
    assert_eq!(
        made,
        vec![
            "places_name: Btree(\"name\")",
            "places_pop: Btree(\"pop\")",
            "places_made: Btree(\"made\")",
            "places_words: Gin(\"name\")",
            "places_spot: Gist(\"spot\")",
            "places_area: Gist(\"area\")",
            "places_v: Exact(\"v\")",
            "places_folded: LowerBtree(\"name\")",
        ]
    );
}

#[test]
fn a_relation_that_is_not_there_is_refused() {
    let absent = not_provided();
    assert_eq!(absent.len(), 10);
    assert_eq!(absent[0].0, "pg_proc");
    assert_eq!(
        absent[9],
        (
            "pg_stat_activity".to_string(),
            "there is no connection table: a connection is a process here.".to_string()
        )
    );
    for (name, reason) in absent {
        assert!(!reason.is_empty());
        assert!(relation(&name).is_none());
        fails(&format!("SELECT * FROM {name}"), "tier: Three");
        fails(&format!("SELECT * FROM pg_catalog.{name}"), "tier: Three");
    }
}

#[test]
fn the_graph_is_read_where_it_is_asked_for() {
    let asks = |sql: &str| reads_graph(&parse(tokens(sql), vec![]).unwrap());
    assert!(asks("SELECT * FROM db_edges"));
    assert!(asks("SELECT * FROM db_contexts"));
    assert!(asks("EXPLAIN SELECT * FROM db_edges"));
    assert!(asks("SHOW EDGES"));
    assert!(!asks("SHOW TABLES"));
    assert!(!asks("SELECT * FROM db_tables"));
    assert!(!asks("SELECT name FROM places"));
    assert!(!asks("DELETE FROM places WHERE _key = 'rome'"));
}

#[test]
fn a_table_is_shown_as_its_definition() {
    let (r, _) = prepared(&database(), &given(), None, "SHOW CREATE TABLE people");
    let Plan::Rows(p) = r.unwrap().plan else { panic!("rows") };
    assert_holds(&format!("{:?}", p.answer()), "CREATE TABLE people (");
    let mut cat = database();
    let named = DefaultValue::Uuid5 { namespace: "dns".to_string(), name: "a.b".to_string() };
    cat.collections[1].rules = vec![(
        "home".to_string(),
        ColumnRule { default: Some(named), not_null: true },
    )];
    let mut inside = index(66, "people_code", "home", IndexFamily::Scalar);
    inside.expression = Some(IndexExpr::JsonText("code".to_string()));
    cat.collections[1].indexes.push(inside);
    let text = format!("{:?}", rows_of(&cat, "SHOW CREATE TABLE people"));
    assert_holds(&text, "home TEXT DEFAULT uuid5('dns', 'a.b') NOT NULL");
    assert_holds(&text, "CREATE INDEX people_code ON people USING btree ((home->>'code'));");
    let (r, _) = prepared(&database(), &given(), None, "SHOW TimeZone");
    let Plan::Rows(p) = r.unwrap().plan else { panic!("rows") };
    assert_holds(&format!("{:?}", p.answer()), "Text(\"UTC\")");
}

#[test]
fn the_shortlist_is_a_setting() {
    let (r, _) = prepared(&database(), &given(), None, "SET LOCAL ef_search = 40");
    let c = r.unwrap();
    assert_eq!(c.shortlist, Shortlist::Become(40));
    assert!(matches!(c.plan, Plan::Write(WritePlan::Notice(_))));
    let (r, _) = prepared(&database(), &given(), None, "SET LOCAL ef_search TO DEFAULT");
    assert_eq!(r.unwrap().shortlist, Shortlist::Clear);
    for sql in ["RESET ef_search", "RESET diskann.query_search_list_size"] {
        let (r, _) = prepared(&database(), &given(), None, sql);
        assert_eq!(r.unwrap().shortlist, Shortlist::Clear);
    }
    for sql in ["SET datestyle = ISO", "RESET datestyle", "RESET diskann.query_rescore"] {
        let (r, _) = prepared(&database(), &given(), None, sql);
        assert_eq!(r.unwrap().shortlist, Shortlist::Keep);
    }
}

#[test]
fn a_drop_is_explained() {
    let (r, _) = prepared(&database(), &given(), None, "EXPLAIN DROP TABLE places CASCADE");
    let Plan::ExplainText(text) = r.unwrap().plan else { panic!("text") };
    assert_holds(&text, "places");
}
