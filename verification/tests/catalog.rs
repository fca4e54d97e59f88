//! The catalog relations, over one small database.

use sekejap_lang::catalog::contents::{build, needs_graph};
use sekejap_lang::catalog::relations::{
    nth, relation, relation_by, relation_id, CatalogRelation, RelationId, RELATION_COUNT,
};
use sekejap_lang::catalog::snapshot::{snapshot, EdgeRow, Snapshot};
use sekejap_lang::catalog::types::{
    data_type, declared_of, default_spelling, family_word, object_oid, pg_type_of, state_word,
    target_of, type_len,
};
use sekejap_lang::compile::env::{
    Catalog, Collection, IndexExpr, IndexFamily, IndexInfo, IndexState,
};
use sekejap_lang::error::SqlError;
use sekejap_lang::number::Real;
use sekejap_lang::value::{shown, ColumnRule, DefaultValue, Kind, SqlValue};

fn number(x: f64) -> Real {
    Real { bits: x.to_bits(), shown: format!("{x}"), json: format!("{x:?}") }
}

fn index(id: u64, name: &str, field: &str, family: IndexFamily) -> IndexInfo {
    IndexInfo {
        id,
        name: name.to_string(),
        field: field.to_string(),
        family,
        expression: None,
        state: IndexState::Ready,
        unique: false,
    }
}

fn database() -> Catalog {
    let mut lower = index(12, "places_lower", "name", IndexFamily::Scalar);
    lower.expression = Some(IndexExpr::Lower);
    lower.unique = true;
    Catalog {
        collections: vec![
            Collection {
                id: 1,
                name: "places".to_string(),
                fields: vec![
                    ("name".to_string(), Kind::Text),
                    ("made".to_string(), Kind::Int),
                    ("spot".to_string(), Kind::Point),
                ],
                declared: vec![("made".to_string(), "DATE".to_string())],
                rules: vec![(
                    "made".to_string(),
                    ColumnRule { default: Some(DefaultValue::Now), not_null: true },
                )],
                indexes: vec![index(11, "places_name", "name", IndexFamily::Text), lower],
                occupied: true,
                rows: Some(5),
                tuples: number(5.0),
            },
            Collection {
                id: 2,
                name: "people".to_string(),
                fields: vec![],
                declared: vec![],
                rules: vec![],
                indexes: vec![],
                occupied: false,
                rows: None,
                tuples: number(-1.0),
            },
        ],
        contexts: vec![("work".to_string(), 3)],
        edge_types: vec![("lives_in".to_string(), 7)],
        rows: vec![],
        refused_points: vec![],
        refused_bounds: vec![],
        endpoint_sets: false,
        next_layout: 20,
    }
}

fn image(graph: bool) -> Snapshot {
    let edges = vec![EdgeRow { edge_type: 7, from: 2, to: 1, context: 3 }];
    snapshot(&database(), &edges, true, graph)
}

fn built(r: &CatalogRelation) -> Result<(Vec<Vec<SqlValue>>, Option<String>), SqlError> {
    let edges = vec![EdgeRow { edge_type: 7, from: 2, to: 1, context: 3 }];
    build(&database(), &edges, true, r)
}

fn lines(name: &str) -> Vec<String> {
    let r = relation(name).unwrap();
    let (rows, _) = built(&r).unwrap();
    rows.iter()
        .map(|row| {
            assert_eq!(row.len(), r.columns.len());
            row.iter().map(shown).collect::<Vec<String>>().join(" ")
        })
        .collect()
}

#[test]
fn types_of_the_wire() {
    assert_eq!(pg_type_of(&Kind::Int, None), (20, "int8"));
    assert_eq!(pg_type_of(&Kind::Int, Some("timestamptz")), (1184, "timestamptz"));
    assert_eq!(pg_type_of(&Kind::Int, Some("DATE")), (1082, "date"));
    assert_eq!(pg_type_of(&Kind::Text, Some("TEXT")), (25, "text"));
    assert_eq!(pg_type_of(&Kind::Real, None).1, "float8");
    assert_eq!(pg_type_of(&Kind::Vector(8), None).1, "vector");
    assert_eq!(type_len(20), 8);
    assert_eq!(type_len(25), -1);
    assert_eq!(data_type("int8"), "bigint");
}

#[test]
fn an_object_number_is_a_hash_of_its_name() {
    assert_eq!(object_oid(""), 1_346_672_422);
    assert_eq!(object_oid("places"), 626_532_030);
    assert_eq!(object_oid("café"), 431_049_098);
}

#[test]
fn kinds_are_declared() {
    assert_eq!(declared_of(&Kind::Real), "DOUBLE PRECISION");
    assert_eq!(declared_of(&Kind::Point), "GEOMETRY(Point, 4326)");
    assert_eq!(declared_of(&Kind::Vector(3)), "VECTOR(3)");
    assert_eq!(default_spelling(&DefaultValue::Uuid4), "uuid4()");
}

#[test]
fn indexes_are_described() {
    assert_eq!(family_word(IndexFamily::SpatialPoint), "gist");
    assert_eq!(state_word(IndexState::Building { after: 9 }), "building (after 9)");
    assert_eq!(target_of(&Some(IndexExpr::Lower), "name"), "lower(name)");
    assert_eq!(target_of(&Some(IndexExpr::JsonText("a".to_string())), "meta"), "(meta->>'a')");
    assert_eq!(target_of(&None, "name"), "name");
}

#[test]
fn a_relation_resolves_by_every_name_it_has() {
    for i in 0..RELATION_COUNT {
        let id = nth(i);
        let r = relation_by(id);
        assert_eq!(relation_id(&r.written()), Some(id));
        assert_eq!(relation_id(&r.written().to_uppercase()), Some(id));
    }
    assert_eq!(relation_id("pg_class"), Some(RelationId::PgClass));
    assert_eq!(relation_id("information_schema.tables"), Some(RelationId::IsTables));
    assert_eq!(relation_id("tables"), None);
    assert!(relation("places").is_none());
}

#[test]
fn a_relation_knows_its_columns() {
    let r = relation("db_tables").unwrap();
    assert_eq!(r.written(), "db_tables");
    assert_eq!(r.column_at("NAME"), Some(0));
    assert_eq!(r.column_at("nothing"), None);
    assert_eq!(relation("PG_CATALOG.PG_CLASS").unwrap().written(), "pg_catalog.pg_class");
    assert!(needs_graph(&relation("db_edges").unwrap()));
    assert!(!needs_graph(&r));
}

#[test]
fn every_table_begins_with_its_key() {
    let s = image(false);
    assert_eq!(s.tables[0].fields.len(), 4);
    assert_eq!(s.tables[0].fields[0].name, "_key");
    assert_eq!(s.tables[0].fields[0].kind, Kind::Text);
    assert!(s.tables[0].fields[0].not_null);
    assert_eq!(s.tables[1].fields.len(), 1);
    assert!(s.edges.is_empty());
}

#[test]
fn tables_are_listed() {
    assert_eq!(lines("db_tables"), vec!["'places' 1 5 4", "'people' 2 NULL 1"]);
    assert_eq!(lines("information_schema.schemata").len(), 3);
}

#[test]
fn counts_are_reported_as_numbers() {
    let at = relation("pg_class").unwrap().column_at("reltuples").unwrap();
    let (rows, _) = built(&relation("pg_class").unwrap()).unwrap();
    for (row, want) in rows.iter().zip([5.0f64, 0.0]) {
        match &row[at] {
            SqlValue::Float(n) => {
                assert_eq!(f64::from_bits(n.bits), want);
                assert_eq!(n.shown, format!("{want}"));
                assert_eq!(n.json, serde_json::Value::from(want).to_string());
            }
            other => panic!("{other:?}"),
        }
    }
}

#[test]
fn columns_are_listed() {
    assert_eq!(
        lines("db_columns"),
        vec![
            "'places' '_key' 'Text' 'TEXT' 1 TRUE FALSE",
            "'places' 'name' 'Text' 'TEXT' 2 FALSE FALSE",
            "'places' 'made' 'Int' 'DATE' 3 TRUE TRUE",
            "'places' 'spot' 'Point' 'GEOMETRY(Point, 4326)' 4 FALSE FALSE",
            "'people' '_key' 'Text' 'TEXT' 1 TRUE FALSE",
        ]
    );
    assert_eq!(lines("geometry_columns").len(), 1);
}

#[test]
fn edges_are_named_and_cut() {
    let r = relation("db_edges").unwrap();
    let (rows, notice) = built(&r).unwrap();
    let cells: Vec<String> = rows[0].iter().map(shown).collect();
    assert_eq!(cells, vec!["'lives_in'", "'people'", "'places'", "'work'"]);
    assert!(notice.unwrap().starts_with("db_edges stopped at 65536 descents"));
    let (_, notice) = built(&relation("db_tables").unwrap()).unwrap();
    assert!(notice.is_none());
}

#[test]
fn the_base_graph_has_a_name() {
    assert_eq!(lines("db_contexts"), vec!["'(base graph)' 0", "'work' 3"]);
}

#[test]
fn an_unknown_relation_has_no_rows() {
    let odd = CatalogRelation { schema: "odd", name: "one", columns: vec![] };
    match built(&odd) {
        Err(SqlError::Unsupported(text)) => {
            assert_eq!(text, "no builder for the catalog relation `odd.one`")
        }
        other => panic!("{other:?}"),
    }
}

#[test]
fn rows_carry_values_and_not_only_text() {
    let r = relation("db_tables").unwrap();
    let (rows, _) = built(&r).unwrap();
    assert!(matches!(rows[0][1], SqlValue::Int(1)));
    assert!(matches!(rows[1][2], SqlValue::Null));
}
