//! What holds of every statement, on chosen ones.

use sekejap_lang::ast::TimeUnit;
use sekejap_lang::calendar::extract;
use sekejap_lang::catalog::snapshot::snapshot;
use sekejap_lang::compile::bind::{Binder, Scalar};
use sekejap_lang::compile::ddl::family_of;
use sekejap_lang::compile::env::{
    Catalog, Collection, IndexExpr, IndexFamily, IndexInfo, IndexState, StoredRow,
};
use sekejap_lang::compile::log::{Env, Log};
use sekejap_lang::compile::plan::{Bound, OwnedFilter, OwnedScalarFilter};
use sekejap_lang::compile::statement::Plan;
use sekejap_lang::error::SqlError;
use sekejap_lang::instant::date_trunc;
use sekejap_lang::named::{add_entry, holds_name, leave_out, rename_in};
use sekejap_lang::number::Real;
use sekejap_lang::refuse::{lookup, refuse};
use sekejap_lang::scan::{order_text, Order};
use sekejap_lang::stmt::WithIndex;
use sekejap_lang::strings::{prefix_successor, PrefixSuccessor};
use sekejap_lang::timestamp::parse_timestamp;
use sekejap_lang::token::{Sym, Tok, Token};
use sekejap_lang::value::{EntityId, Kind, Value};

fn number(x: f64) -> Real {
    Real { bits: x.to_bits(), shown: format!("{x}"), json: format!("{x:?}") }
}

fn sym(text: &str) -> Option<Sym> {
    let marks = [
        ("#>>", Sym::HashLongArrow),
        ("->>", Sym::LongArrow),
        ("<=>", Sym::VecCosine),
        ("<->", Sym::VecL2),
        ("<#>", Sym::VecDot),
        ("<+>", Sym::VecL1),
        ("::", Sym::Cast),
        ("<>", Sym::Ne),
        ("!=", Sym::Ne),
        ("<=", Sym::Le),
        (">=", Sym::Ge),
        ("||", Sym::Concat),
        ("@@", Sym::Matches),
        ("&&", Sym::Overlaps),
        ("@>", Sym::ContainsOp),
        ("->", Sym::Arrow),
        ("#>", Sym::HashArrow),
        ("<-", Sym::BackArrow),
        ("(", Sym::LParen),
        (")", Sym::RParen),
        ("[", Sym::LBracket),
        ("]", Sym::RBracket),
        ("{", Sym::LBrace),
        ("}", Sym::RBrace),
        (",", Sym::Comma),
        (".", Sym::Dot),
        (";", Sym::Semicolon),
        (":", Sym::Colon),
        ("*", Sym::Star),
        ("+", Sym::Plus),
        ("-", Sym::Minus),
        ("/", Sym::Slash),
        ("=", Sym::Eq),
        ("<", Sym::Lt),
        (">", Sym::Gt),
        ("|", Sym::Pipe),
        ("?", Sym::Question),
        ("~", Sym::Tilde),
    ];
    marks.iter().find(|(mark, _)| text.starts_with(mark)).map(|(_, s)| *s)
}

/// The tokens of a statement, with the end of the statement behind them.
fn tokens(sql: &str) -> Vec<Token> {
    let mut out = Vec::new();
    let mut at = 0;
    while at < sql.len() {
        let rest = &sql[at..];
        let first = rest.chars().next().unwrap();
        let (tok, len) = if first.is_whitespace() {
            at += first.len_utf8();
            continue;
        } else if first.is_alphabetic() || first == '_' {
            let len = rest.find(|c: char| !c.is_alphanumeric() && c != '_').unwrap_or(rest.len());
            (Tok::Word(rest[..len].to_string()), len)
        } else if first == '"' {
            let len = rest[1..].find('"').unwrap() + 2;
            (Tok::Quoted(rest[1..len - 1].to_string()), len)
        } else if first == '\'' {
            let len = rest[1..].find('\'').unwrap() + 2;
            (Tok::Str(rest[1..len - 1].to_string()), len)
        } else if first.is_ascii_digit() {
            let len = rest.find(|c: char| !c.is_ascii_digit() && c != '.').unwrap_or(rest.len());
            let text = &rest[..len];
            (Tok::Num(number(text.parse().unwrap()), !text.contains('.')), len)
        } else if first == '$' {
            let len = 1 + rest[1..].find(|c: char| !c.is_ascii_digit()).unwrap_or(rest.len() - 1);
            (Tok::Param(rest[1..len].parse().unwrap()), len)
        } else {
            let s = sym(rest).unwrap();
            let tok = Tok::Sym(s);
            let len = if rest.starts_with("!=") { 2 } else { tok.written().len() };
            (tok, len)
        };
        out.push(Token { tok, at });
        at += len;
    }
    out.push(Token { tok: Tok::Eof, at });
    out
}

fn index(id: u64, name: &str, field: &str, family: IndexFamily) -> IndexInfo {
    IndexInfo {
        id,
        name: name.to_string(),
        field: field.to_string(),
        family,
        expression: None,
        state: IndexState::Ready,
        unique: false,
    }
}

fn column(name: &str, kind: Kind) -> (String, Kind) {
    (name.to_string(), kind)
}

fn database() -> Catalog {
    let mut folded = index(31, "places_folded", "name", IndexFamily::Scalar);
    folded.expression = Some(IndexExpr::Lower);
    Catalog {
        collections: vec![
            Collection {
                id: 1,
                name: "places".to_string(),
                fields: vec![
                    column("name", Kind::Text),
                    column("pop", Kind::Int),
                    column("made", Kind::Int),
                    column("spot", Kind::Point),
                    column("area", Kind::Geo),
                    column("v", Kind::Vector(2)),
                    column("meta", Kind::Json),
                    column("bare", Kind::Int),
                ],
                declared: vec![("made".to_string(), "TIMESTAMPTZ".to_string())],
                rules: vec![],
                indexes: vec![
                    index(10, "places_name", "name", IndexFamily::Scalar),
                    index(11, "places_pop", "pop", IndexFamily::Scalar),
                    index(12, "places_made", "made", IndexFamily::Scalar),
                    index(13, "places_words", "name", IndexFamily::Text),
                    index(14, "places_spot", "spot", IndexFamily::SpatialPoint),
                    index(15, "places_area", "area", IndexFamily::SpatialGeometry),
                    index(16, "places_v", "v", IndexFamily::ExactVector),
                    folded,
                ],
                occupied: true,
                rows: Some(5),
                tuples: number(5.0),
            },
            Collection {
                id: 2,
                name: "people".to_string(),
                fields: vec![column("home", Kind::Text)],
                declared: vec![],
                rules: vec![],
                indexes: vec![],
                occupied: false,
                rows: Some(0),
                tuples: number(0.0),
            },
        ],
        contexts: vec![("work".to_string(), 3)],
        edge_types: vec![("lives_in".to_string(), 7)],
        rows: vec![
            StoredRow {
                id: EntityId { collection: 1, sequence: 4 },
                key: "rome".to_string(),
                document: vec![
                    ("name".to_string(), Value::Text("Rome".to_string())),
                    ("pop".to_string(), Value::Int(28)),
                ],
            },
            StoredRow {
                id: EntityId { collection: 1, sequence: 5 },
                key: "oslo".to_string(),
                document: vec![("name".to_string(), Value::Text("Oslo".to_string()))],
            },
        ],
        refused_points: vec![],
        refused_bounds: vec![],
        endpoint_sets: true,
        next_layout: 40,
    }
}

fn plan(cat: &Catalog, sql: &str) -> Result<Vec<OwnedFilter>, SqlError> {
    let params = vec![];
    let semi = vec![];
    let env = Env { binder: Binder::new(cat, &params), clock: 0, ef_search: None, semi: &semi };
    let snap = snapshot(cat, &vec![], false, false);
    let mut log = Log::new();
    match env.prepare(&snap, 1, 100, tokens(sql), vec![], &mut log)?.plan {
        Plan::Select(p) => Ok(p.filters),
        other => panic!("{other:?}"),
    }
}

/// Whether an instant lies in the range that a condition over `made` became.
fn admits(condition: &str, t: i64) -> bool {
    let list = plan(&database(), &format!("SELECT name FROM places WHERE {condition}")).unwrap();
    let OwnedFilter::Scalar { predicate: OwnedScalarFilter::Range { lower, upper }, .. } = &list[0]
    else {
        panic!("{list:?}")
    };
    let low = match lower {
        Bound::Included(Scalar::I64(a)) => t >= *a,
        Bound::Excluded(Scalar::I64(a)) => t > *a,
        _ => true,
    };
    let high = match upper {
        Bound::Included(Scalar::I64(b)) => t <= *b,
        Bound::Excluded(Scalar::I64(b)) => t < *b,
        _ => true,
    };
    low && high
}

fn instants() -> Vec<i64> {
    let mut out = Vec::new();
    for text in ["2023-12-31", "2024-01-01", "2024-02-29", "2024-03-01", "2025-01-01", "1969-12-31"] {
        let t = parse_timestamp(text).unwrap();
        out.extend([t - 1, t, t + 1, t + 43_200_000_000]);
    }
    out
}

// ── ranges ───────────────────────────────────────────────────────────────

#[test]
fn a_year_admits_its_own_instants() {
    for t in instants() {
        let year = extract(TimeUnit::Year, t);
        assert_eq!(admits("EXTRACT(YEAR FROM made) = 2024", t), year == 2024, "{t}");
        assert_eq!(admits("EXTRACT(YEAR FROM made) < 2024", t), year < 2024, "{t}");
        assert_eq!(admits("EXTRACT(YEAR FROM made) >= 2024", t), year >= 2024, "{t}");
        assert_eq!(
            admits("EXTRACT(YEAR FROM made) BETWEEN 2023 AND 2024", t),
            (2023..=2024).contains(&year),
            "{t}"
        );
    }
}

#[test]
fn a_truncation_admits_what_it_truncates_to() {
    let month = parse_timestamp("2024-02-01").unwrap();
    let inside = "2024-02-15";
    for t in instants() {
        let cut = date_trunc(TimeUnit::Month, t).unwrap();
        assert_eq!(admits("date_trunc('month', made) = '2024-02-01'", t), cut == month, "{t}");
        assert_eq!(admits("date_trunc('month', made) > '2024-02-01'", t), cut > month, "{t}");
        assert_eq!(
            admits("date_trunc('month', made) BETWEEN '2024-02-01' AND '2024-03-01'", t),
            month <= cut && cut <= parse_timestamp("2024-03-01").unwrap(),
            "{t}"
        );
        assert_eq!(
            admits(&format!("date_trunc('month', made) < '{inside}'"), t),
            cut < parse_timestamp(inside).unwrap(),
            "{t}"
        );
    }
}

#[test]
fn no_instant_truncates_to_the_inside_of_a_month() {
    for t in instants() {
        assert!(!admits("date_trunc('month', made) = '2024-02-15'", t), "{t}");
    }
}

#[test]
fn a_prefix_admits_the_texts_that_begin_with_it() {
    let PrefixSuccessor::Bound(end) = prefix_successor("ro") else { panic!() };
    for text in ["rn", "ro", "roa", "rome", "ro\u{10ffff}", "rp", "r", "Ro", ""] {
        let inside = order_text("ro", text) != Order::Greater && order_text(text, &end) == Order::Less;
        assert_eq!(inside, text.starts_with("ro"), "{text}");
    }
}

// ── indexes ──────────────────────────────────────────────────────────────

#[test]
fn a_filter_names_an_index_that_is_ready() {
    let mut cat = database();
    let sql = "SELECT name FROM places WHERE pop = 1 OR NOT (pop > 3 AND name = 'x')";
    assert!(plan(&cat, sql).is_ok());
    cat.collections[0].indexes[1].state = IndexState::Building { after: 2 };
    match plan(&cat, sql) {
        Err(SqlError::Engine(text)) => assert_eq!(
            text,
            "a scalar index on `pop` is still building; run it to READY before a query can use it"
        ),
        other => panic!("{other:?}"),
    }
    cat.collections[0].indexes[1].state = IndexState::Dropping;
    match plan(&cat, sql) {
        Err(SqlError::Engine(text)) => assert!(text.starts_with("a scalar index on `pop` does not exist.")),
        other => panic!("{other:?}"),
    }
}

#[test]
fn an_expression_index_is_not_the_field_index() {
    let mut cat = database();
    cat.collections[0].indexes.remove(0);
    assert!(plan(&cat, "SELECT name FROM places WHERE name = 'x'").is_err());
    assert!(plan(&cat, "SELECT name FROM places WHERE lower(name) = 'x'").is_ok());
}

#[test]
fn generated_names_are_distinct_and_free() {
    let cat = database();
    let fields = vec![column("a", Kind::Int), column("b", Kind::Text), column("v", Kind::Vector(2))];
    let pair = |key: &str, of: &str| WithIndex { key: key.to_string(), column: of.to_string() };
    let mut log = Log::new();
    let made = cat
        .with_indexes("t", &fields, &vec![pair("hash", "a"), pair("fulltext", "b"), pair("vector", "v")], &mut log)
        .unwrap();
    let names: Vec<&str> = made.list.iter().map(|(name, _)| name.as_str()).collect();
    assert_eq!(names, vec!["t_a_btree", "t_b_gin", "t_v_exact"]);
    assert_eq!(log.notices.len(), 3);
    let twice = vec![pair("hash", "a"), pair("range", "a")];
    assert!(cat.with_indexes("t", &fields, &twice, &mut Log::new()).is_err());
    let odd = vec![pair("hash", "v")];
    assert!(cat.with_indexes("t", &fields, &odd, &mut Log::new()).is_err());
    assert!(family_of("bitmap", "a", Kind::Int).is_err());
    assert_eq!(family_of("spatial", "p", Kind::Point).unwrap().family, "gist");
}

// ── lists by name ────────────────────────────────────────────────────────

#[test]
fn what_is_left_out_is_gone() {
    let mut list = vec![column("a", Kind::Int), column("b", Kind::Text)];
    let left = leave_out(&list, "a");
    assert!(!holds_name(&left, "a"));
    assert_eq!(leave_out(&left, "a"), left);
    assert_eq!(rename_in(&left, "b", "c"), vec![column("c", Kind::Text)]);
    add_entry(&mut list, "d".to_string(), Kind::Bool);
    assert_eq!(list.len(), 3);
}

// ── refusals ─────────────────────────────────────────────────────────────

#[test]
fn a_refusal_ignores_case() {
    assert_eq!(lookup("pg_rewrite"), lookup("PG_Rewrite"));
    assert_eq!(format!("{:?}", refuse("join")), format!("{:?}", refuse("JOIN")));
}
