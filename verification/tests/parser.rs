//! Statements, read from tokens.

use sekejap_lang::error::SqlError;
use sekejap_lang::number::Real;
use sekejap_lang::parser::condition::flatten_and;
use sekejap_lang::parser::cursor::Parser;
use sekejap_lang::parser::namespaces::namespaces;
use sekejap_lang::parser::statement::parse;
use sekejap_lang::ast::{Expr, Predicate};
use sekejap_lang::stmt::Stmt;
use sekejap_lang::token::{Sym, Tok, Token};
use sekejap_lang::value::Kind;

fn number(x: f64) -> Real {
    Real { bits: x.to_bits(), shown: format!("{x}"), json: format!("{x:?}") }
}

fn sym(text: &str) -> Option<Sym> {
    let marks = [
        ("#>>", Sym::HashLongArrow),
        ("->>", Sym::LongArrow),
        ("<=>", Sym::VecCosine),
        ("<->", Sym::VecL2),
        ("<#>", Sym::VecDot),
        ("<+>", Sym::VecL1),
        ("::", Sym::Cast),
        ("<>", Sym::Ne),
        ("!=", Sym::Ne),
        ("<=", Sym::Le),
        (">=", Sym::Ge),
        ("||", Sym::Concat),
        ("@@", Sym::Matches),
        ("&&", Sym::Overlaps),
        ("@>", Sym::ContainsOp),
        ("->", Sym::Arrow),
        ("#>", Sym::HashArrow),
        ("<-", Sym::BackArrow),
        ("(", Sym::LParen),
        (")", Sym::RParen),
        ("[", Sym::LBracket),
        ("]", Sym::RBracket),
        ("{", Sym::LBrace),
        ("}", Sym::RBrace),
        (",", Sym::Comma),
        (".", Sym::Dot),
        (";", Sym::Semicolon),
        (":", Sym::Colon),
        ("*", Sym::Star),
        ("+", Sym::Plus),
        ("-", Sym::Minus),
        ("/", Sym::Slash),
        ("=", Sym::Eq),
        ("<", Sym::Lt),
        (">", Sym::Gt),
        ("|", Sym::Pipe),
        ("?", Sym::Question),
        ("~", Sym::Tilde),
    ];
    marks.iter().find(|(mark, _)| text.starts_with(mark)).map(|(_, s)| *s)
}

/// The tokens of a statement, with the end of the statement behind them.
fn tokens(sql: &str) -> Vec<Token> {
    let mut out = Vec::new();
    let mut at = 0;
    while at < sql.len() {
        let rest = &sql[at..];
        let first = rest.chars().next().unwrap();
        let (tok, len) = if first.is_whitespace() {
            at += first.len_utf8();
            continue;
        } else if first.is_alphabetic() || first == '_' {
            let len = rest.find(|c: char| !c.is_alphanumeric() && c != '_').unwrap_or(rest.len());
            (Tok::Word(rest[..len].to_string()), len)
        } else if first == '"' {
            let len = rest[1..].find('"').unwrap() + 2;
            (Tok::Quoted(rest[1..len - 1].to_string()), len)
        } else if first == '\'' {
            let len = rest[1..].find('\'').unwrap() + 2;
            (Tok::Str(rest[1..len - 1].to_string()), len)
        } else if first.is_ascii_digit() {
            let len = rest.find(|c: char| !c.is_ascii_digit() && c != '.').unwrap_or(rest.len());
            let text = &rest[..len];
            (Tok::Num(number(text.parse().unwrap()), !text.contains('.')), len)
        } else if first == '$' {
            let len = 1 + rest[1..].find(|c: char| !c.is_ascii_digit()).unwrap_or(rest.len() - 1);
            (Tok::Param(rest[1..len].parse().unwrap()), len)
        } else {
            let s = sym(rest).unwrap();
            let tok = Tok::Sym(s);
            let len = if rest.starts_with("!=") { 2 } else { tok.written().len() };
            (tok, len)
        };
        out.push(Token { tok, at });
        at += len;
    }
    out.push(Token { tok: Tok::Eof, at });
    out
}

/// A printed value, with every number replaced by what it shows as.
fn plain(text: String) -> String {
    let mut out = String::new();
    let mut rest = text.as_str();
    while let Some(at) = rest.find("Real { bits: ") {
        out.push_str(&rest[..at]);
        let from = at + rest[at..].find("shown: \"").unwrap() + 8;
        let to = from + rest[from..].find('"').unwrap();
        out.push_str(&rest[from..to]);
        rest = &rest[to + rest[to..].find('}').unwrap() + 1..];
    }
    out.push_str(rest);
    out
}

fn assert_holds(text: &str, part: &str) {
    assert!(text.contains(part), "no `{part}` in {text}");
}

fn shape(sql: &str) -> String {
    plain(format!("{:?}", parse(tokens(sql), vec![])))
}

fn reads(sql: &str, part: &str) {
    let text = shape(sql);
    assert!(text.starts_with("Ok"), "{sql}: {text}");
    assert_holds(&text, part);
}

fn fails(sql: &str, part: &str) {
    let text = shape(sql);
    assert!(text.starts_with("Err"), "{sql}: {text}");
    assert_holds(&text, part);
}

fn reads_where(condition: &str, part: &str) {
    reads(&format!("SELECT a FROM t WHERE {condition}"), part);
}

fn fails_where(condition: &str, part: &str) {
    fails(&format!("SELECT a FROM t WHERE {condition}"), part);
}

// ── predicates ───────────────────────────────────────────────────────────

#[test]
fn comparisons() {
    reads_where("a = 1", "Compare { column: \"a\", op: Eq, value: Num(1, true) }");
    reads_where("a <> 'x'", "Compare { column: \"a\", op: Ne, value: Str(\"x\") }");
    reads_where("a >= -2.5", "op: Ge, value: Num(-2.5, false)");
    reads_where("a < $2", "op: Lt, value: Param(2)");
    reads_where("a = TRUE", "value: Bool(true)");
    reads_where("_key > 'k'", "KeyCompare { op: Gt, value: Str(\"k\") }");
    reads_where("\"odd name\" = 1", "column: \"odd name\"");
}

#[test]
fn ranges_and_lists() {
    reads_where("a BETWEEN 1 AND 2", "Between { column: \"a\", lower: Num(1, true), upper: Num(2, true) }");
    reads_where("_key BETWEEN 'a' AND 'b'", "KeyBetween { lower: Str(\"a\"), upper: Str(\"b\") }");
    reads_where("a IN (1, 2)", "InList { column: \"a\", values: [Num(1, true), Num(2, true)] }");
    reads_where("_key IN ('a')", "KeyInList { values: [Str(\"a\")] }");
}

#[test]
fn absent_values() {
    reads_where("a IS NULL", "IsNull { column: \"a\", negated: false }");
    reads_where("a IS NOT NULL", "IsNull { column: \"a\", negated: true }");
    reads_where("a IS MISSING", "IsMissing { column: \"a\" }");
}

#[test]
fn semi_joins() {
    reads_where(
        "_key IN (SELECT destination FROM knows)",
        "Semi { table: \"knows\", column: \"destination\" }",
    );
}

#[test]
fn one_key_reads_one_value() {
    reads_where(
        "a = (SELECT b FROM u WHERE _key = 'k')",
        "Subquery(ScalarSubquery { column: \"b\", table: \"u\", key: Str(\"k\") })",
    );
}

#[test]
fn instants() {
    reads_where("EXTRACT(YEAR FROM t) = 2024", "Time { column: \"t\", shape: Extract { unit: Year, op: Eq");
    reads_where("date_trunc('month', t) >= '2024-01-01'", "Trunc { unit: Month, op: Ge");
    reads_where("t::date = '2024-01-01'", "CastDate { op: Eq");
    reads_where(
        "t > now() - interval '2 hours'",
        "Clock { op: Gt, value: Clock { date_only: false, offset: -7200000000 } }",
    );
    reads_where("t = current_date", "Clock { date_only: true, offset: 0 }");
}

#[test]
fn text_functions() {
    reads_where("lower(a) = 'x'", "TextFn { column: \"a\", shape: LowerEq { value: Str(\"x\") } }");
    reads_where("a LIKE 'x%'", "shape: Prefix { value: Str(\"x%\")");
    reads_where("lower(a) LIKE 'x%'", "shape: LowerPrefix { value: Str(\"x%\")");
    reads_where("lower = 'x'", "Compare { column: \"lower\", op: Eq, value: Str(\"x\") }");
    reads_where("starts_with(lower, 'x')", "TextFn { column: \"lower\", shape: Prefix { value: Str(\"x\")");
    reads_where("starts_with(lower(a), 'x')", "TextFn { column: \"a\", shape: LowerPrefix { value: Str(\"x\")");
    reads_where("extract > 3", "Compare { column: \"extract\", op: Gt, value: Num(3, true) }");
    reads_where("a->>'m' = 'x'", "shape: JsonEq { member: \"m\", value: Str(\"x\") }");
}

#[test]
fn full_text() {
    reads_where(
        "to_tsvector('simple', a) @@ to_tsquery('simple', 'x & y')",
        "Text { column: \"a\", query: TsQuery { source: Str(\"x & y\"), tsquery_syntax: true, fuzzy: false } }",
    );
    reads_where(
        "search(a, 'x')",
        "Text { column: \"a\", query: TsQuery { source: Str(\"x\"), tsquery_syntax: false, fuzzy: true } }",
    );
}

#[test]
fn places() {
    reads_where("ST_DWithin(a, ST_Point(1, 2), 5)", "predicate: DWithin, column: \"a\", argument: Point(PointArg { lon: Num(1, true), lat: Num(2, true) }), metres: Some(Num(5, true))");
    reads_where("ST_Within(a, ST_MakeEnvelope(0, 0, 1, 1, 4326))", "Envelope { minlon: Num(0, true)");
    reads_where("ST_Intersects(a, ST_GeomFromGeoJSON($1))", "GeoJson(Param(1))");
}

// ── conditions ───────────────────────────────────────────────────────────

#[test]
fn or_binds_looser_than_and() {
    reads_where("a = 1 OR b = 2 AND c = 3", "[Or([Leaf(Compare { column: \"a\"");
    reads_where("a = 1 OR b = 2 AND c = 3", "And([Leaf(Compare { column: \"b\"");
    reads_where("(a = 1 OR b = 2) AND c = 3", "), Leaf(Compare { column: \"c\"");
    reads_where("NOT a = 1", "Not(Leaf(Compare { column: \"a\"");
}

#[test]
fn nesting_a_conjunction_changes_nothing() {
    let flat = shape("SELECT a FROM t WHERE a = 1 AND b = 2 AND c = 3");
    assert_eq!(shape("SELECT a FROM t WHERE a = 1 AND (b = 2 AND c = 3)"), flat);
    assert_eq!(shape("SELECT a FROM t WHERE ((a = 1) AND b = 2) AND c = 3"), flat);
}

#[test]
fn flattening_leaves_no_conjunction() {
    let leaf = |b: bool| Expr::Leaf(Predicate::Constant(b));
    let mut out = Vec::new();
    flatten_and(
        Expr::And(vec![leaf(true), Expr::And(vec![leaf(false), leaf(true)])]),
        &mut out,
    );
    assert_eq!(out.len(), 3);
    assert!(out.iter().all(|e| !matches!(e, Expr::And(_))));
}

#[test]
fn a_constant_is_decided_where_it_stands() {
    reads_where("1 = 1", "Constant(true)");
    reads_where("2 < 1", "Constant(false)");
}

#[test]
fn a_statement_nests_to_a_limit() {
    let open = "(".repeat(20);
    let close = ")".repeat(20);
    reads_where(&format!("{open}a = 1{close}"), "column: \"a\"");
    let open = "(".repeat(40);
    let close = ")".repeat(40);
    let text = shape(&format!("SELECT a FROM t WHERE {open}a = 1{close}"));
    assert!(text.starts_with("Err"), "{text}");
}

// ── select ───────────────────────────────────────────────────────────────

#[test]
fn a_bare_word_is_a_column() {
    reads("SELECT upper(position) FROM t", "Str { func: Upper, args: [Column(\"position\")] }");
    reads("SELECT concat(left, now) FROM t", "args: [Column(\"left\"), Column(\"now\")]");
    reads("SELECT upper(left(a, 1)) FROM t", "func: Left");
    reads("SELECT age(now(), a) FROM t", "Age { left: Now, right: Some(Column(\"a\")) }");
    reads("SELECT upper(a)::vector FROM t", "Str { func: Upper, args: [Column(\"a\")] }");
    fails("SELECT upper(a)::money FROM t", "cast `::MONEY` has no Tier-1 meaning in a row expression");
    fails_where("a = now", "expected a literal or a parameter, found `now`");
}

#[test]
fn select_items() {
    reads("SELECT * FROM t", "(Star, None)");
    reads("SELECT _id, _key AS k FROM t", "[(Id, None), (Key, Some(\"k\"))]");
    reads("SELECT upper(a) AS u FROM t", "Function(Str { func: Upper, args: [Column(\"a\")] })");
    reads("SELECT a || '!' FROM t", "Function(Concat(Column(\"a\"), Lit(Str(\"!\"))))");
    reads("SELECT to_char(a, 'YYYY') FROM t", "ToChar { arg: Column(\"a\"), format: \"YYYY\" }");
    reads("SELECT count(*), sum(a) FROM t", "Aggregate { function: Count, argument: Star }");
    reads("SELECT a::text FROM t", "CastText(Column(\"a\"))");
}

#[test]
fn select_clauses() {
    reads("SELECT a FROM t ORDER BY a DESC LIMIT 5", "order: Some(Column { column: \"a\", descending: true }), limit: Some(5)");
    reads("SELECT a, count(*) FROM t GROUP BY a HAVING count(*) > 2", "having: [HavingPredicate { function: Count, argument: Star, op: Gt, value: Num(2, true) }]");
    reads("SELECT a FROM public.t", "source: Table(\"t\")");
    reads("SELECT a FROM pg_catalog.pg_class", "source: Table(\"pg_catalog.pg_class\")");
}

#[test]
fn ranking() {
    reads("SELECT a FROM t ORDER BY a <-> ST_Point(1, 2)", "Distance { column: \"a\", point: PointArg { lon: Num(1, true), lat: Num(2, true) }, descending: false }");
    reads("SELECT a FROM t ORDER BY a <=> $1", "Vector { column: \"a\", query: Param(1), op: Cosine, descending: false }");
    reads("SELECT a FROM t ORDER BY 2 * a + b DESC", "Score { expr: Add(Mul(Lit(2), Column(\"a\")), Column(\"b\")), descending: true }");
    reads("SELECT a FROM t ORDER BY 2 * (a + b) DESC", "Mul(Lit(2), Add(Column(\"a\"), Column(\"b\")))");
    reads("SELECT a FROM t ORDER BY a - b - c DESC", "Sub(Sub(Column(\"a\"), Column(\"b\")), Column(\"c\"))");
}

#[test]
fn patterns() {
    reads(
        "SELECT * FROM GRAPH_TABLE (work MATCH (a IS people WHERE a._key = 'ann')-[e IS knows WHERE e.since > 2000]->{1,3}(b IS people WHERE b.age > 30) COLUMNS (b.name AS name, e.since AS since))",
        "context: \"work\", seed_collection: \"people\", seed_key: Str(\"ann\")",
    );
    reads(
        "SELECT * FROM GRAPH_TABLE (work MATCH (a IS people WHERE a._key = 'ann')-[e IS knows WHERE e.since > 2000]->{1,3}(b IS people WHERE b.age > 30) COLUMNS (b.name AS name, e.since AS since))",
        "min_depth: 1, max_depth: 3, predicates: [EdgePredicate { property: \"since\", op: Gt",
    );
}

// ── definitions ──────────────────────────────────────────────────────────

#[test]
fn tables() {
    reads(
        "CREATE TABLE IF NOT EXISTS t (_key TEXT PRIMARY KEY, a INT NOT NULL, b TIMESTAMPTZ DEFAULT now(), c GEOMETRY(Point, 4326))",
        "if_not_exists: true",
    );
    reads("CREATE TABLE t (a VECTOR(3))", "kind: Vector(3), declared: \"VECTOR(3)\"");
    reads("CREATE TABLE t (a DOUBLE PRECISION)", "kind: Real, declared: \"DOUBLE PRECISION\"");
    reads("CREATE TABLE t (a INT NOT NULL)", "rule: Some(ColumnRule { default: None, not_null: true })");
    fails("CREATE TABLE t (a HALFVEC)", "Refused { keyword: \"HALFVEC\", tier: Three");
    fails("CREATE TABLE t (a MONEY)", "column type `MONEY` has no Kind");
    fails("CREATE TABLE t (a VECTOR(0))", "VECTOR needs a positive dimension");
}

#[test]
fn a_reported_type_reads_back() {
    for (text, kind) in [
        ("TEXT", Kind::Text),
        ("BIGINT", Kind::Int),
        ("DOUBLE PRECISION", Kind::Real),
        ("BOOLEAN", Kind::Bool),
        ("JSONB", Kind::Json),
        ("GEOMETRY", Kind::Geo),
        ("GEOMETRY(Point, 4326)", Kind::Point),
        ("VECTOR(7)", Kind::Vector(7)),
    ] {
        let mut p = Parser { tokens: tokens(text), at: 0, depth: 1, refused: vec![] };
        assert_eq!(p.column_type().unwrap().0, kind);
        assert!(p.at_end());
    }
}

#[test]
fn a_written_default_reads_back() {
    for (text, value) in [
        ("now()", "Now"),
        ("uuid4()", "Uuid4"),
        ("uuid5('dns', 'a.b')", "Uuid5 { namespace: \"dns\", name: \"a.b\" }"),
    ] {
        reads(
            &format!("CREATE TABLE t (a TEXT DEFAULT {text} NOT NULL)"),
            &format!("rule: Some(ColumnRule {{ default: Some({value}), not_null: true }})"),
        );
    }
}

#[test]
fn a_namespace_is_what_the_engine_takes_for_one() {
    let sql = "CREATE TABLE t (a TEXT DEFAULT uuid5('ns', 'x'), b TEXT DEFAULT uuid_generate_v5('odd', 'uuid5'), c TEXT DEFAULT uuid4())";
    assert_eq!(namespaces(&tokens(sql)), vec!["ns", "odd"]);
    assert!(namespaces(&tokens("SELECT a FROM t WHERE a = 'uuid5'")).is_empty());
    let no = |text: &str| vec![(text.to_string(), "no UUID".to_string())];
    let refused = |sql: &str, text: &str| match parse(tokens(sql), no(text)) {
        Err(SqlError::Unsupported(e)) => assert_eq!(e, "uuid5 namespace: no UUID"),
        other => panic!("{sql}: {other:?}"),
    };
    refused(sql, "ns");
    refused(sql, "odd");
    refused("ALTER TABLE t ADD COLUMN a TEXT DEFAULT uuid5('ns', 'x')", "ns");
    refused("EXPLAIN ALTER TABLE t ADD COLUMN a TEXT DEFAULT uuid5('ns', 'x')", "ns");
    refused("CREATE TABLE t (a TEXT DEFAULT uuid5('ns', 'x') nonsense", "ns");
    assert!(matches!(
        parse(tokens("CREATE TABLE t (a TEXT DEFAULT uuid5('ns' nonsense"), no("ns")),
        Err(SqlError::Syntax { .. })
    ));
    assert!(parse(tokens(sql), no("x")).is_ok());
    assert!(parse(tokens(sql), vec![]).is_ok());
}

#[test]
fn indexes() {
    reads("CREATE INDEX i ON t (a)", "CreateIndex { name: \"i\", table: \"t\", method: Btree(\"a\") }");
    reads("CREATE INDEX i ON t (lower(a))", "method: LowerBtree(\"a\")");
    reads("CREATE INDEX i ON t USING gin (to_tsvector('simple', a))", "method: Gin(\"a\")");
    reads("CREATE INDEX i ON t USING gist (a)", "method: Gist(\"a\")");
}

#[test]
fn alterations() {
    reads("ALTER TABLE t ADD COLUMN a INT", "AddColumn(ColumnDef { name: \"a\", kind: Int");
    reads("ALTER TABLE t DROP COLUMN IF EXISTS a", "DropColumn { column: \"a\", if_exists: true }");
    reads("ALTER TABLE t RENAME COLUMN a TO b", "RenameColumn { from: \"a\", to: \"b\" }");
    reads("ALTER TABLE t RENAME TO u", "RenameTable { to: \"u\" }");
    reads("ALTER TABLE t ALTER COLUMN a TYPE TEXT", "ColumnType { column: \"a\", kind: Text, declared: \"TEXT\" }");
    reads("DROP TABLE IF EXISTS t CASCADE", "DropTable { table: \"t\", if_exists: true, cascade: true }");
    reads("DROP INDEX i", "DropIndex { name: \"i\", if_exists: false }");
}

// ── writes and the session ───────────────────────────────────────────────

#[test]
fn writes() {
    reads("INSERT INTO t (_key, a) VALUES ('x', 1), ('y', NULL)", "rows: [[Str(\"x\"), Num(1, true)], [Str(\"y\"), Null]]");
    reads("UPDATE t SET a = 1 WHERE _key = 'x'", "Update { table: \"t\", assignments: [(\"a\", Num(1, true))], key: Str(\"x\") }");
    reads("UPDATE t SET a = upper(b) WHERE c > 1", "UpdateWhere(UpdateWhere { table: \"t\", assignments: [(\"a\", Row(Str { func: Upper");
    reads("DELETE FROM t WHERE _key = 'x'", "Delete { table: \"t\", key: Str(\"x\") }");
    reads("DELETE FROM t WHERE a > 1", "DeleteWhere(DeleteWhere { table: Some(\"t\")");
    reads("EXPLAIN DELETE FROM t WHERE a > 1", "ExplainDelete(");
}

#[test]
fn sessions() {
    reads("BEGIN", "Begin");
    reads("BEGIN BULK", "BeginBulk");
    reads("END BULK", "EndBulk");
    reads("COMMIT;", "Commit");
    reads("ROLLBACK", "Rollback");
    reads("SHOW TABLES", "Show(Tables)");
    reads("SHOW CREATE TABLE t", "Show(CreateTable(\"t\"))");
    reads("SHOW timezone", "Show(Name(");
    reads("SELECT version(), 1", "SessionRows([(Version, None)");
    reads("SET LOCAL ef_search = 40", "SetLocal { name: \"ef_search\", value: Num(40, true) }");
    reads("SET datestyle = ISO", "SetGuc { name: \"datestyle\", value: \"ISO\" }");
}

// ── errors ───────────────────────────────────────────────────────────────

#[test]
fn what_has_no_meaning_is_named() {
    fails("SELECT a FROM t JOIN u ON t.a = u.a", "Refused { keyword: \"JOIN\"");
    fails("SELECT a FROM t LIMIT 3 OFFSET 2", "Refused { keyword: \"OFFSET\"");
    fails("WITH x AS (SELECT 1) SELECT * FROM x", "Refused { keyword: \"WITH\"");
    fails_where("to_tsvector('simple', a) @@ plainto_tsquery('simple', 'x')", "Refused { keyword: \"PLAINTO_TSQUERY\"");
    fails_where("_id IN (SELECT a FROM u)", "on a column other than the key");
}

#[test]
fn what_is_not_a_statement_fails_where_it_stands() {
    match parse(tokens("SELECT a FROM t WHERE a > ; x"), vec![]) {
        Err(SqlError::Syntax { message, at }) => {
            assert_eq!(message, "expected a literal or a parameter, found `;`");
            assert_eq!(at, 26);
        }
        other => panic!("{other:?}"),
    }
    assert!(matches!(parse(tokens("GRANT ALL"), vec![]), Err(SqlError::Syntax { at: 0, .. })));
    assert!(matches!(parse(tokens("SELECT a FROM t; SELECT b"), vec![]), Err(SqlError::Syntax { .. })));
    assert!(matches!(parse(tokens("SELECT a FROM t;"), vec![]), Ok(Stmt::Select(_))));
    fails_where("a ==", "Err");
}
