//! Writes step by step, rows as they are answered, and what `EXPLAIN` prints.

use sekejap_lang::ast::{CmpOp, StrFunc, TimeUnit};
use sekejap_lang::catalog::relations::relation;
use sekejap_lang::compile::answer::{
    agg_value, group_identity, group_key_value, AggValue, GroupRow, GroupValue, ReturnedRow,
};
use sekejap_lang::compile::plan::{
    AggOutput, AggregatePlan, CandidateDriver, CompiledAlter, CompiledIndex, CompiledSet, GroupOrder,
    Output, OwnedOrder, SelectPlan, Stored, WritePlan,
};
use sekejap_lang::compile::rebind::Rebind;
use sekejap_lang::compile::row::{string_function, CompiledRow};
use sekejap_lang::compile::rows::{compare, drop_repeats, sort_rows, to_op2, RowFilter};
use sekejap_lang::compile::run::{
    build_chunk_rows, next, patch_row, set_row, start, Action, Event, Step,
};
use sekejap_lang::debug::debug_literal;
use sekejap_lang::ast::Literal;
use sekejap_lang::error::SqlError;
use sekejap_lang::explain::{
    answer_text, format_write_plan, rebind_line, render, rewrites_and_row_functions, FilterAnswer,
    FilterLine, PlanDescription, Run, RunWork, Work,
};
use sekejap_lang::number::Real;
use sekejap_lang::result::SqlResult;
use sekejap_lang::scan::Order;
use sekejap_lang::value::{shown, EntityId, Kind, SqlValue, Value};

fn number(x: f64) -> Real {
    Real { bits: x.to_bits(), shown: format!("{x}"), json: format!("{x:?}") }
}

fn text(s: &str) -> SqlValue {
    SqlValue::Text(s.to_string())
}

fn words(list: &[&str]) -> Vec<String> {
    list.iter().map(|s| s.to_string()).collect()
}

/// Runs a plan against a database that answers each step by `answer`, and
/// lists the steps.
fn run(p: &WritePlan, answer: &dyn Fn(&Action) -> Event) -> (Vec<Action>, Result<SqlResult, SqlError>) {
    let notices = words(&["noticed"]);
    let mut done = Vec::new();
    let mut step = start(p, &notices);
    loop {
        match step {
            Step::Finish(r) => return (done, r),
            Step::Do(action, stage) => {
                done.push(action);
                step = next(p, &notices, 1000, stage, answer(&action));
            }
        }
    }
}

// ── writes ───────────────────────────────────────────────────────────────

#[test]
fn every_row_is_put_once() {
    let row = |key: &str| (key.to_string(), vec![("a".to_string(), Stored::Value(Value::Int(1)))]);
    let p = WritePlan::Insert { collection: 1, rows: vec![row("x"), row("y"), row("z")] };
    let (steps, r) = run(&p, &|_| Event::Done);
    assert_eq!(steps, vec![Action::PutRow(0), Action::PutRow(1), Action::PutRow(2)]);
    assert!(matches!(r, Ok(SqlResult::Affected(3))));
    let none = WritePlan::Insert { collection: 1, rows: vec![] };
    let (steps, r) = run(&none, &|_| Event::Done);
    assert!(steps.is_empty());
    assert!(matches!(r, Ok(SqlResult::Affected(0))));
}

#[test]
fn an_absent_row_is_not_updated() {
    let p = WritePlan::Update { collection: 1, key: "x".to_string(), patch: vec![] };
    let (steps, r) = run(&p, &|_| Event::Found(false));
    assert_eq!(steps, vec![Action::FindRow]);
    assert!(matches!(r, Ok(SqlResult::Affected(0))));
    let (steps, r) = run(&p, &|a| match a {
        Action::FindRow => Event::Found(true),
        _ => Event::Done,
    });
    assert_eq!(steps, vec![Action::FindRow, Action::UpdateRow]);
    assert!(matches!(r, Ok(SqlResult::Affected(1))));
    let p = WritePlan::Delete { collection: 1, key: "x".to_string() };
    let (_, r) = run(&p, &|_| Event::Found(true));
    assert!(matches!(r, Ok(SqlResult::Affected(1))));
}

#[test]
fn a_refused_table_leaves_nothing_behind() {
    let p = WritePlan::CreateTable {
        name: "t".to_string(),
        fields: vec![("v".to_string(), Kind::Vector(2))],
        declared: vec![],
        rules: vec![],
        indexes: vec![("t_v".to_string(), CompiledIndex::ExactVector { field: "v".to_string() })],
    };
    let (steps, r) = run(&p, &|a| match a {
        Action::CreateCollection => Event::Created(9),
        Action::CreateIndex { .. } => Event::Failed {
            error: SqlError::Engine("no room".to_string()),
            text: "no room".to_string(),
        },
        Action::DropCollectionToEnd { .. } => Event::Count(0),
        _ => Event::Done,
    });
    let tail = &steps[steps.len() - 3..];
    assert_eq!(
        tail,
        [
            Action::Rollback,
            Action::BeginDropCollection { collection: 9, cascade: true },
            Action::DropCollectionToEnd { collection: 9 },
        ]
    );
    match r {
        Err(SqlError::Unsupported(text)) => {
            assert!(text.contains("the statement left NOTHING behind"));
            assert!(text.contains("no room"));
        }
        other => panic!("{other:?}"),
    }
}

#[test]
fn a_table_is_created_with_its_indexes() {
    let p = WritePlan::CreateTable {
        name: "t".to_string(),
        fields: vec![("a".to_string(), Kind::Int)],
        declared: vec![],
        rules: vec![],
        indexes: vec![(
            "t_a".to_string(),
            CompiledIndex::Scalar { field: "a".to_string(), unique: false },
        )],
    };
    let (steps, r) = run(&p, &|a| match a {
        Action::CreateCollection => Event::Created(9),
        Action::CreateIndex { .. } => Event::Created(12),
        _ => Event::Done,
    });
    assert_eq!(
        steps,
        vec![
            Action::Commit,
            Action::CreateCollection,
            Action::Commit,
            Action::CreateIndex { collection: 9, at: 0 },
            Action::Commit,
            Action::BuildIndex { index: 12, rows: 256 },
            Action::Commit,
        ]
    );
    assert!(r.is_ok(), "{r:?}");
}

#[test]
fn the_end_of_a_transaction_clears_the_shortlist() {
    let (steps, r) = run(&WritePlan::Commit, &|_| Event::Done);
    assert_eq!(steps, vec![Action::Commit, Action::ClearShortlist]);
    assert!(matches!(r, Ok(SqlResult::Affected(0))));
    let (steps, _) = run(&WritePlan::Rollback, &|_| Event::Done);
    assert_eq!(steps, vec![Action::Rollback, Action::ClearShortlist]);
}

#[test]
fn an_index_is_dropped_step_by_step() {
    let p = WritePlan::DropIndex { index: 3, name: "i".to_string() };
    let left = std::cell::Cell::new(2);
    let (steps, r) = run(&p, &|a| match a {
        Action::DropIndexStep { .. } => {
            left.set(left.get() - 1);
            Event::Found(left.get() == 0)
        }
        _ => Event::Done,
    });
    assert_eq!(
        steps,
        vec![
            Action::Commit,
            Action::BeginDropIndex { index: 3 },
            Action::DropIndexStep { index: 3, rows: 256 },
            Action::DropIndexStep { index: 3, rows: 256 },
            Action::Commit,
        ]
    );
    assert!(matches!(r, Ok(SqlResult::Affected(0))));
}

#[test]
fn a_write_over_its_budget_is_refused() {
    let p = WritePlan::DeleteWhere {
        collection: 1,
        filters: vec![],
        cascade: false,
        driver: CandidateDriver::Auto,
    };
    let (_, r) = run(&p, &|_| Event::Progress { done: false, rows_written: 7 });
    match r {
        Err(SqlError::Engine(text)) => assert!(text.starts_with(
            "DELETE: the `rows_written` budget of 1000 was reached after 7 row(s)"
        )),
        other => panic!("{other:?}"),
    }
    let (_, r) = run(&p, &|_| Event::Progress { done: true, rows_written: 7 });
    assert!(matches!(r, Ok(SqlResult::Affected(7))));
}

#[test]
fn bulk_scopes_are_counted() {
    let (steps, r) = run(&WritePlan::BeginBulk, &|a| match a {
        Action::BulkDepth => Event::Count(2),
        _ => Event::Done,
    });
    assert_eq!(steps, vec![Action::BeginBulk, Action::BulkDepth]);
    match r {
        Ok(SqlResult::Notice(text)) => assert_eq!(
            text,
            "noticed; BEGIN BULK: the durability point moves to the matching END BULK; 2 scope(s) open"
        ),
        other => panic!("{other:?}"),
    }
}

#[test]
fn a_failure_ends_the_statement() {
    let p = WritePlan::Delete { collection: 1, key: "x".to_string() };
    let (steps, r) = run(&p, &|_| Event::Failed {
        error: SqlError::Engine("broken".to_string()),
        text: "broken".to_string(),
    });
    assert_eq!(steps.len(), 1);
    assert!(matches!(r, Err(SqlError::Engine(t)) if t == "broken"));
}

#[test]
fn a_rename_is_one_step() {
    let p = WritePlan::AlterTable {
        collection: 1,
        table: "t".to_string(),
        action: CompiledAlter::Rename { to: "u".to_string() },
    };
    let (steps, r) = run(&p, &|_| Event::Done);
    assert!(steps.contains(&Action::RenameCollection));
    assert!(r.is_ok());
}

#[test]
fn a_vector_index_is_built_in_small_chunks() {
    let scalar = build_chunk_rows(&CompiledIndex::Scalar { field: "a".to_string(), unique: false });
    let graph = build_chunk_rows(&CompiledIndex::VamanaGraph { field: "v".to_string() });
    assert!(graph < scalar);
    assert!(graph > 0);
}

#[test]
fn an_update_evaluates_over_its_own_row() {
    let expr = CompiledRow::Add(
        Box::new(CompiledRow::Field { at: 0, time: false }),
        Box::new(CompiledRow::Lit(SqlValue::Int(1))),
    );
    let row = vec![("pop".to_string(), Value::Int(41))];
    let r = set_row(&expr, Kind::Int, "pop", &words(&["pop"]), &row);
    assert_eq!(format!("{r:?}"), "Ok(Value(Int(42)))");
    let upper = CompiledRow::Str {
        func: StrFunc::Upper,
        args: vec![CompiledRow::Field { at: 0, time: false }],
    };
    let row = vec![("name".to_string(), Value::Text("straße".to_string()))];
    let r = set_row(&upper, Kind::Text, "name", &words(&["name"]), &row);
    assert_eq!(format!("{r:?}"), "Ok(Value(Text(\"STRASSE\")))");
    let r = set_row(&upper, Kind::Int, "pop", &words(&["name"]), &row);
    assert!(r.is_err());
}

#[test]
fn an_update_sets_its_columns_in_order() {
    let more = CompiledRow::Add(
        Box::new(CompiledRow::Field { at: 0, time: false }),
        Box::new(CompiledRow::Lit(SqlValue::Int(1))),
    );
    let sets = vec![
        ("name".to_string(), CompiledSet::Lit(Stored::Value(Value::Text("x".to_string())))),
        ("pop".to_string(), CompiledSet::Row { expr: more, kind: Kind::Int }),
    ];
    let row = vec![("pop".to_string(), Value::Int(41))];
    assert_eq!(
        format!("{:?}", patch_row(&sets, &words(&["pop"]), &row)),
        "Ok([(\"name\", Value(Text(\"x\"))), (\"pop\", Value(Int(42)))])"
    );
    let upper = CompiledRow::Str {
        func: StrFunc::Upper,
        args: vec![CompiledRow::Lit(text("a"))],
    };
    let sets = vec![("pop".to_string(), CompiledSet::Row { expr: upper, kind: Kind::Int })];
    assert!(patch_row(&sets, &words(&["pop"]), &row).is_err());
}

// ── row expressions ──────────────────────────────────────────────────────

#[test]
fn row_functions_are_evaluated() {
    let values = vec![SqlValue::Int(1_709_210_096_789_000), text("  Ab ")];
    let time = || Box::new(CompiledRow::Field { at: 0, time: true });
    let year = CompiledRow::Extract { unit: TimeUnit::Year, arg: time() };
    assert_eq!(shown(&year.eval(&values).unwrap()), "2024");
    let iso = CompiledRow::Iso { arg: time(), date_only: true };
    assert_eq!(shown(&iso.eval(&values).unwrap()), "'2024-02-29'");
    let shaped = CompiledRow::ToChar { arg: time(), format: "HH24:MI".to_string() };
    assert_eq!(shown(&shaped.eval(&values).unwrap()), "'12:34'");
    let both = CompiledRow::Concat(
        Box::new(CompiledRow::Lit(text("a"))),
        Box::new(CompiledRow::Lit(text("b"))),
    );
    assert_eq!(shown(&both.eval(&values).unwrap()), "'ab'");
}

#[test]
fn an_absent_argument_gives_an_absent_result() {
    let length = CompiledRow::Str {
        func: StrFunc::Length,
        args: vec![CompiledRow::Field { at: 0, time: false }],
    };
    assert_eq!(shown(&length.eval(&vec![SqlValue::Null]).unwrap()), "NULL");
    assert_eq!(shown(&length.eval(&vec![text("añb")]).unwrap()), "3");
}

#[test]
fn string_functions_use_the_whole_alphabet() {
    let lower = string_function(StrFunc::Lower, &vec![text("ÀÉİ")]).unwrap();
    assert_eq!(shown(&lower), format!("'{}'", "ÀÉİ".to_lowercase()));
    let trimmed = string_function(StrFunc::Trim, &vec![text("\u{2003}x ")]).unwrap();
    assert_eq!(shown(&trimmed), "'x'");
}

// ── rows in memory ───────────────────────────────────────────────────────

#[test]
fn values_of_different_kinds_compare() {
    assert_eq!(compare(&SqlValue::Int(2), &SqlValue::Float(number(2.5))), Some(Order::Less));
    assert_eq!(compare(&SqlValue::Int(12), &text("12")), Some(Order::Equal));
    assert_eq!(compare(&SqlValue::Int(12), &text("twelve")), None);
    assert_eq!(compare(&SqlValue::Null, &SqlValue::Null), None);
    assert_eq!(compare(&text("a"), &text("b")), Some(Order::Less));
    assert_eq!(compare(&SqlValue::Bool(true), &text("false")), Some(Order::Greater));
    assert_eq!(compare(&SqlValue::Bool(true), &text("maybe")), None);
    assert_eq!(compare(&text("maybe"), &SqlValue::Bool(true)), None);
}

#[test]
fn an_incomparable_row_does_not_match() {
    let f = RowFilter::Compare { at: 0, op: to_op2(CmpOp::Ge), value: SqlValue::Int(3) };
    assert!(f.matches(&vec![SqlValue::Int(3)]));
    assert!(!f.matches(&vec![SqlValue::Null]));
    assert!(!f.matches(&vec![text("x")]));
    let either = RowFilter::Any(vec![
        RowFilter::IsNull { at: 0 },
        RowFilter::In { at: 0, values: vec![SqlValue::Int(1), SqlValue::Int(2)] },
    ]);
    assert!(either.matches(&vec![SqlValue::Null]));
    assert!(either.matches(&vec![SqlValue::Int(2)]));
    assert!(!either.matches(&vec![SqlValue::Int(3)]));
    let r = relation("db_tables").unwrap();
    assert_eq!(
        RowFilter::Compare { at: 2, op: to_op2(CmpOp::Gt), value: SqlValue::Int(3) }.written(&r),
        "rows > 3"
    );
}

#[test]
fn sorting_is_in_order_and_stable() {
    let rows = vec![
        vec![SqlValue::Int(10), text("first")],
        vec![SqlValue::Int(9), text("a")],
        vec![SqlValue::Int(10), text("second")],
        vec![SqlValue::Int(-3), text("b")],
    ];
    let sorted = sort_rows(rows, 0);
    let cells: Vec<String> = sorted.iter().map(|r| shown(&r[1])).collect();
    assert_eq!(cells, vec!["'b'", "'a'", "'first'", "'second'"]);
    let rows = vec![
        vec![SqlValue::Float(number(f64::INFINITY))],
        vec![SqlValue::Float(number(f64::NAN))],
        vec![SqlValue::Float(number(2.5))],
        vec![SqlValue::Null],
        vec![SqlValue::Float(number(f64::NEG_INFINITY))],
        vec![SqlValue::Missing],
        vec![SqlValue::Float(number(-1.0))],
    ];
    let cells: Vec<String> = sort_rows(rows, 0).iter().map(|r| shown(&r[0])).collect();
    assert_eq!(cells, vec!["-inf", "-1", "2.5", "MISSING", "NULL", "NaN", "inf"]);
}

#[test]
fn repeats_are_dropped() {
    let rows = vec![
        vec![text("a"), SqlValue::Int(1)],
        vec![text("b"), SqlValue::Int(1)],
        vec![text("a"), SqlValue::Int(1)],
        vec![text("a"), SqlValue::Int(2)],
    ];
    assert_eq!(drop_repeats(rows).len(), 3);
}

// ── answers ──────────────────────────────────────────────────────────────

#[test]
fn a_returned_row_is_shaped_by_its_plan() {
    let p = SelectPlan {
        collection: 1,
        columns: words(&["_id", "name", "loud", "_key"]),
        outputs: vec![Output::Id, Output::Field(0), Output::Row(0), Output::Key],
        fields: words(&["name"]),
        filters: vec![],
        order: OwnedOrder::Driver,
        limit: None,
        driver: CandidateDriver::Auto,
        functions: vec![CompiledRow::Str {
            func: StrFunc::Upper,
            args: vec![CompiledRow::Field { at: 0, time: false }],
        }],
        rewrites: vec![],
        row_functions: vec![],
    };
    assert!(p.reads_keys());
    let row = ReturnedRow {
        id: EntityId { collection: 1, sequence: 7 },
        key: Some("k".to_string()),
        fields: vec![text("rome")],
        order: SqlValue::Null,
    };
    let r = p.row(&row).unwrap();
    let cells: Vec<String> = r.values.iter().map(shown).collect();
    assert_eq!(cells, vec!["1:7", "'rome'", "'ROME'", "'k'"]);
}

#[test]
fn a_group_is_no_row() {
    assert_eq!(group_identity(5), EntityId { collection: 5, sequence: 0 });
    assert_eq!(shown(&agg_value(&AggValue::Count(3))), "3");
    assert_eq!(shown(&group_key_value(&Some(GroupValue::I64(0)), Some(true))), "'1970-01-01'");
    assert_eq!(shown(&group_key_value(&Some(GroupValue::I64(0)), None)), "0");
    assert_eq!(shown(&group_key_value(&None, None)), "NULL");
    let p = AggregatePlan {
        collection: 5,
        columns: words(&["n", "k"]),
        outputs: vec![AggOutput::Value(0), AggOutput::Key],
        filters: vec![],
        group: None,
        accumulators: vec![],
        having: vec![],
        order: GroupOrder::Key,
        driver: CandidateDriver::Auto,
        limit: None,
        key_iso: None,
    };
    let r = p.row(&GroupRow {
        key: Some(GroupValue::Text("a".to_string())),
        values: vec![AggValue::F64(number(0.5))],
    });
    let cells: Vec<String> = r.values.iter().map(shown).collect();
    assert_eq!(cells, vec!["0.5", "'a'"]);
}

// ── explaining ───────────────────────────────────────────────────────────

#[test]
fn explanations() {
    assert_eq!(
        answer_text(FilterAnswer::Folded(2)),
        "nothing: folded into position 2, which answers both"
    );
    assert_eq!(
        rebind_line(&Rebind { refusals: vec![] }),
        "rebind: yes -- every $n is a typed slot, so new parameters are written into this same plan\n"
    );
    assert!(rebind_line(&Rebind { refusals: words(&["a", "b"]) }).starts_with("rebind: no -- a; b; "));
    assert_eq!(
        rewrites_and_row_functions(&vec![], &words(&["f"])),
        "range rewrites: none\nrow functions: \n  f\n"
    );
}

#[test]
fn values_print_as_they_are_written_in_code() {
    assert_eq!(debug_literal(&Literal::Str("a\"b\n".to_string())), "Str(\"a\\\"b\\n\")");
    assert_eq!(debug_literal(&Literal::Param(2)), "Param(2)");
    assert_eq!(debug_literal(&Literal::Num(number(1.5), false)), "Num(1.5, false)");
}

#[test]
fn a_whole_explanation() {
    let p = SelectPlan {
        collection: 1,
        columns: words(&["name"]),
        outputs: vec![Output::Field(0)],
        fields: words(&["name"]),
        filters: vec![],
        order: OwnedOrder::Driver,
        limit: None,
        driver: CandidateDriver::Auto,
        functions: vec![],
        rewrites: words(&["r -> range"]),
        row_functions: vec![],
    };
    let work = Work {
        candidates: 4,
        primary_reads: 0,
        row_decodes: 0,
        scalar_postings: 0,
        spatial_postings: 0,
        text_postings: 0,
        text_tokens: 0,
        graph_edges: 0,
        graph_visited: 0,
        vector_locators: 0,
        vector_sidecars: 0,
        vector_lanes: 0,
        key_postings: 0,
        groups: 0,
        output_bytes: 0,
    };
    let run = Run {
        plan: PlanDescription {
            driver: "scalar".to_string(),
            driver_detail: "places_pop".to_string(),
            driver_is_a_scan: false,
            filters: vec![FilterLine {
                position: 0,
                family: "scalar".to_string(),
                index: Some("places_pop".to_string()),
                field: Some("pop".to_string()),
                detail: "pop > 1".to_string(),
                answer: FilterAnswer::IndexPosting,
            }],
            order_kind: "driver".to_string(),
            order_detail: "as walked".to_string(),
            order_reads_row: false,
            score_leaves: vec![],
            total_limit: None,
            projection: words(&["name"]),
        },
        work: RunWork { work, rows: 2, pages: 1 },
        approximation: None,
        accesses: None,
    };
    let text = render(&p, &run, &words(&["mind"]), &Rebind { refusals: vec![] });
    assert!(text.starts_with("driver: scalar"), "{text}");
    let write = format_write_plan(&run.plan);
    assert_eq!(
        write,
        "driver: scalar\n  walks: places_pop\nfilters:\n  [0] scalar places_pop (pop) pop > 1 -> index posting, probed per candidate\n"
    );
    assert!(text.starts_with(&write), "{text}");
    assert!(text.contains("mind"), "{text}");
    assert!(text.contains("range rewrites: \n  r -> range\nrow functions: none\n"), "{text}");
    assert!(text.ends_with("this same plan\n"), "{text}");
}
