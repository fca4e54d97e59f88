//! `EXPLAIN`: the plan that the engine describes, and the work it counted.

use vstd::prelude::*;
use crate::compile::listing::{indent, indented};
use crate::compile::plan::{SelectPlan, SelectPlanV};
use crate::compile::rebind::Rebind;
use crate::lists::{take_all, take_next};
use crate::text::{
    cat2, cat3, cat4, cat5, cat6, cat7, decimal, decimal_u64, decimal_usize, join, joined, owned,
    texts,
};

verus! {

// ── what the engine describes ────────────────────────────────────────────

/// How a filter is answered.
#[derive(Clone, Copy, Debug, PartialEq, Eq, Structural)]
pub enum FilterAnswer {
    Driver,
    MembershipSet,
    MembershipUnbuilt,
    MembershipOverflow,
    IndexPosting,
    CarriedKey,
    Row,
    /// By the filter at another position.
    Folded(usize),
    GraphFrontier,
}

pub open spec fn answer_words(a: FilterAnswer) -> Seq<char> {
    match a {
        FilterAnswer::Driver => "index posting: the driving walk certifies it"@,
        FilterAnswer::MembershipSet => "membership set built from postings"@,
        FilterAnswer::MembershipUnbuilt => "membership set, not walked yet (no page has run)"@,
        FilterAnswer::MembershipOverflow => {
            "row: the membership walk exceeded its budget and every candidate reads the row"@
        },
        FilterAnswer::IndexPosting => "index posting, probed per candidate"@,
        FilterAnswer::CarriedKey => "index posting: the candidate carries the key"@,
        FilterAnswer::Row => "row"@,
        FilterAnswer::Folded(into) => "nothing: folded into position "@ + decimal(into as int)
            + ", which answers both"@,
        FilterAnswer::GraphFrontier => "traversal frontier, materialised once"@,
    }
}

/// How a filter is answered, in words.
pub fn answer_text(a: FilterAnswer) -> (r: String)
    ensures
        r@ == answer_words(a),
{
    match a {
        FilterAnswer::Driver => owned("index posting: the driving walk certifies it"),
        FilterAnswer::MembershipSet => owned("membership set built from postings"),
        FilterAnswer::MembershipUnbuilt => owned(
            "membership set, not walked yet (no page has run)",
        ),
        FilterAnswer::MembershipOverflow => owned(
            "row: the membership walk exceeded its budget and every candidate reads the row",
        ),
        FilterAnswer::IndexPosting => owned("index posting, probed per candidate"),
        FilterAnswer::CarriedKey => owned("index posting: the candidate carries the key"),
        FilterAnswer::Row => owned("row"),
        FilterAnswer::Folded(into) => cat3(
            "nothing: folded into position ",
            decimal_usize(into).as_str(),
            ", which answers both",
        ),
        FilterAnswer::GraphFrontier => owned("traversal frontier, materialised once"),
    }
}

/// One filter of a prepared query.
#[derive(Debug)]
pub struct FilterLine {
    pub position: usize,
    pub family: String,
    pub index: Option<String>,
    pub field: Option<String>,
    pub detail: String,
    pub answer: FilterAnswer,
}

pub struct FilterLineV {
    pub position: usize,
    pub family: Seq<char>,
    pub index: Option<Seq<char>>,
    pub field: Option<Seq<char>>,
    pub detail: Seq<char>,
    pub answer: FilterAnswer,
}

impl DeepView for FilterLine {
    type V = FilterLineV;

    open spec fn deep_view(&self) -> FilterLineV {
        FilterLineV {
            position: self.position,
            family: self.family@,
            index: self.index.deep_view(),
            field: self.field.deep_view(),
            detail: self.detail@,
            answer: self.answer,
        }
    }
}

/// A prepared query, as the engine describes it.
#[derive(Debug)]
pub struct PlanDescription {
    pub driver: String,
    pub driver_detail: String,
    pub driver_is_a_scan: bool,
    pub filters: Vec<FilterLine>,
    pub order_kind: String,
    pub order_detail: String,
    pub order_reads_row: bool,
    pub score_leaves: Vec<String>,
    pub total_limit: Option<usize>,
    pub projection: Vec<String>,
}

pub struct PlanDescriptionV {
    pub driver: Seq<char>,
    pub driver_detail: Seq<char>,
    pub driver_is_a_scan: bool,
    pub filters: Seq<FilterLineV>,
    pub order_kind: Seq<char>,
    pub order_detail: Seq<char>,
    pub order_reads_row: bool,
    pub score_leaves: Seq<Seq<char>>,
    pub total_limit: Option<usize>,
    pub projection: Seq<Seq<char>>,
}

impl DeepView for PlanDescription {
    type V = PlanDescriptionV;

    open spec fn deep_view(&self) -> PlanDescriptionV {
        PlanDescriptionV {
            driver: self.driver@,
            driver_detail: self.driver_detail@,
            driver_is_a_scan: self.driver_is_a_scan,
            filters: self.filters.deep_view(),
            order_kind: self.order_kind@,
            order_detail: self.order_detail@,
            order_reads_row: self.order_reads_row,
            score_leaves: texts(self.score_leaves@),
            total_limit: self.total_limit,
            projection: texts(self.projection@),
        }
    }
}

/// How an approximate ranking came about.
#[derive(Debug)]
pub struct Approximation {
    pub method: String,
    pub ef: usize,
    pub examined: u64,
    pub reranked: u64,
}

pub struct ApproximationV {
    pub method: Seq<char>,
    pub ef: usize,
    pub examined: u64,
    pub reranked: u64,
}

impl DeepView for Approximation {
    type V = ApproximationV;

    open spec fn deep_view(&self) -> ApproximationV {
        ApproximationV {
            method: self.method@,
            ef: self.ef,
            examined: self.examined,
            reranked: self.reranked,
        }
    }
}

/// What a run counted.
#[derive(Clone, Copy, Debug, PartialEq, Eq, Structural)]
pub struct Work {
    pub candidates: u64,
    pub primary_reads: u64,
    pub row_decodes: u64,
    pub scalar_postings: u64,
    pub spatial_postings: u64,
    pub text_postings: u64,
    pub text_tokens: u64,
    pub graph_edges: u64,
    pub graph_visited: u64,
    pub vector_locators: u64,
    pub vector_sidecars: u64,
    pub vector_lanes: u64,
    pub key_postings: u64,
    pub groups: u64,
    pub output_bytes: u64,
}

/// What a run counted, with its rows and pages.
#[derive(Clone, Copy, Debug, PartialEq, Eq, Structural)]
pub struct RunWork {
    pub work: Work,
    pub rows: u64,
    pub pages: u64,
}

// ── the sections ─────────────────────────────────────────────────────────

pub const SCAN_NOTE: &'static str =
    "  note:  this driver is a SCAN by definition (QL_CONTRACT §6): its work is proportional to the collection, not to the candidates a predicate admits\n";

/// The driver of a query.
pub open spec fn driver_section(p: PlanDescriptionV) -> Seq<char> {
    "driver: "@ + p.driver + "\n  walks: "@ + p.driver_detail + "\n"@ + (if p.driver_is_a_scan {
        SCAN_NOTE@
    } else {
        ""@
    })
}

fn write_driver(p: &PlanDescription) -> (r: String)
    ensures
        r@ == driver_section(p.deep_view()),
{
    cat6(
        "driver: ",
        p.driver.as_str(),
        "\n  walks: ",
        p.driver_detail.as_str(),
        "\n",
        if p.driver_is_a_scan {
            SCAN_NOTE
        } else {
            ""
        },
    )
}

/// The index and the field of a filter.
pub open spec fn filter_place(f: FilterLineV) -> Seq<char> {
    match (f.index, f.field) {
        (Some(index), Some(field)) => " "@ + index + " ("@ + field + ")"@,
        (Some(index), None) => " "@ + index,
        _ => ""@,
    }
}

/// A filter: its place, what it asks and what answers it.
pub open spec fn filter_line(f: FilterLineV) -> Seq<char> {
    "["@ + decimal(f.position as int) + "] "@ + f.family + filter_place(f) + " "@ + (f.detail
        + " -> "@ + answer_words(f.answer))
}

pub open spec fn filter_lines(filters: Seq<FilterLineV>) -> Seq<Seq<char>> {
    filters.map_values(|f: FilterLineV| filter_line(f))
}

pub open spec fn filters_section(filters: Seq<FilterLineV>) -> Seq<char> {
    if filters.len() == 0 {
        "filters: none\n"@
    } else {
        "filters:\n"@ + indented(filter_lines(filters))
    }
}

fn write_filters(filters: &Vec<FilterLine>) -> (r: String)
    ensures
        r@ == filters_section(filters.deep_view()),
{
    let ghost all = filters.deep_view();
    if filters.len() == 0 {
        return owned("filters: none\n");
    }
    let mut lines: Vec<String> = Vec::new();
    let mut i: usize = 0;
    while i < filters.len()
        invariant
            i <= filters@.len(),
            all == filters.deep_view(),
            lines@.len() == i,
            forall|k: int| 0 <= k < i ==> (#[trigger] lines@[k])@ == filter_line(all[k]),
        decreases filters@.len() - i,
    {
        assert(all[i as int] == filters@[i as int].deep_view());
        let f = &filters[i];
        let place = match (&f.index, &f.field) {
            (Some(index), Some(field)) => cat5(" ", index.as_str(), " (", field.as_str(), ")"),
            (Some(index), None) => cat2(" ", index.as_str()),
            _ => owned(""),
        };
        let tail = cat3(f.detail.as_str(), " -> ", answer_text(f.answer).as_str());
        lines.push(
            cat7(
                "[",
                decimal_usize(f.position).as_str(),
                "] ",
                f.family.as_str(),
                place.as_str(),
                " ",
                tail.as_str(),
            ),
        );
        i = i + 1;
    }
    assert(texts(lines@) =~= filter_lines(all));
    cat2("filters:\n", indent(&lines).as_str())
}

pub open spec fn limit_text(limit: Option<usize>) -> Seq<char> {
    match limit {
        Some(n) => decimal(n as int),
        None => "none"@,
    }
}

fn write_limit(limit: Option<usize>) -> (r: String)
    ensures
        r@ == limit_text(limit),
{
    match limit {
        Some(n) => decimal_usize(n),
        None => owned("none"),
    }
}

/// The plan of a write: the driver and the filters.
pub fn format_write_plan(p: &PlanDescription) -> (r: String)
    ensures
        r@ == driver_section(p.deep_view()) + filters_section(p.deep_view().filters),
{
    cat2(write_driver(p).as_str(), write_filters(&p.filters).as_str())
}

/// The order, the leaves of a score, the limit and the projection.
pub open spec fn order_section(p: PlanDescriptionV) -> Seq<char> {
    let order = "order: "@ + p.order_kind + " -- "@ + p.order_detail + (if p.order_reads_row {
        " (the ranking reads the row)"@
    } else {
        ""@
    }) + "\n"@;
    let leaves = if p.score_leaves.len() == 0 {
        ""@
    } else {
        "score leaves:\n"@ + indented(p.score_leaves)
    };
    let projection = if p.projection.len() == 0 {
        "ids only (no row is read for the answer itself)"@
    } else {
        joined(p.projection, ", "@)
    };
    order + leaves + "limit: "@ + limit_text(p.total_limit) + "\nprojection: "@ + projection
        + "\n"@
}

fn write_order(p: &PlanDescription) -> (r: String)
    ensures
        r@ == order_section(p.deep_view()),
{
    let order = cat6(
        "order: ",
        p.order_kind.as_str(),
        " -- ",
        p.order_detail.as_str(),
        if p.order_reads_row {
            " (the ranking reads the row)"
        } else {
            ""
        },
        "\n",
    );
    let leaves = if p.score_leaves.len() == 0 {
        owned("")
    } else {
        cat2("score leaves:\n", indent(&p.score_leaves).as_str())
    };
    let projection = if p.projection.len() == 0 {
        owned("ids only (no row is read for the answer itself)")
    } else {
        join(&p.projection, ", ")
    };
    cat7(
        order.as_str(),
        leaves.as_str(),
        "limit: ",
        write_limit(p.total_limit).as_str(),
        "\nprojection: ",
        projection.as_str(),
        "\n",
    )
}

pub open spec fn approximation_section(a: Option<ApproximationV>) -> Seq<char> {
    match a {
        None => ""@,
        Some(a) => "approximation: "@ + a.method + ", ef="@ + decimal(a.ef as int) + ", examined="@
            + decimal(a.examined as int) + (", reranked="@ + decimal(a.reranked as int) + "\n"@),
    }
}

fn write_approximation(a: &Option<Approximation>) -> (r: String)
    ensures
        r@ == approximation_section(a.deep_view()),
{
    match a {
        None => owned(""),
        Some(a) => {
            let tail = cat3(", reranked=", decimal_u64(a.reranked).as_str(), "\n");
            cat7(
                "approximation: ",
                a.method.as_str(),
                ", ef=",
                decimal_usize(a.ef).as_str(),
                ", examined=",
                decimal_u64(a.examined).as_str(),
                tail.as_str(),
            )
        },
    }
}

/// The counters, in the order they are printed.
pub open spec fn counters(w: Work) -> Seq<(Seq<char>, u64)> {
    seq![
        ("candidates"@, w.candidates),
        ("primary_reads"@, w.primary_reads),
        ("row_decodes"@, w.row_decodes),
        ("scalar_postings"@, w.scalar_postings),
        ("spatial_postings"@, w.spatial_postings),
        ("text_postings"@, w.text_postings),
        ("text_tokens"@, w.text_tokens),
        ("graph_edges"@, w.graph_edges),
        ("graph_visited"@, w.graph_visited),
        ("vector_locators"@, w.vector_locators),
        ("vector_sidecars"@, w.vector_sidecars),
        ("vector_lanes"@, w.vector_lanes),
        ("key_postings"@, w.key_postings),
        ("groups"@, w.groups),
        ("output_bytes"@, w.output_bytes),
    ]
}

pub open spec fn counter_text(c: (Seq<char>, u64)) -> Seq<char> {
    c.0 + "="@ + decimal(c.1 as int)
}

pub open spec fn work_section(w: RunWork) -> Seq<char> {
    "rows: "@ + decimal(w.rows as int) + " in "@ + decimal(w.pages as int) + " page(s)\nwork: "@
        + joined(counters(w.work).map_values(|c: (Seq<char>, u64)| counter_text(c)), " "@) + "\n"@
}

fn counter(name: &str, n: u64) -> (r: String)
    ensures
        r@ == counter_text((name@, n)),
{
    cat3(name, "=", decimal_u64(n).as_str())
}

fn write_work(w: &RunWork) -> (r: String)
    ensures
        r@ == work_section(*w),
{
    let parts = vec![
        counter("candidates", w.work.candidates),
        counter("primary_reads", w.work.primary_reads),
        counter("row_decodes", w.work.row_decodes),
        counter("scalar_postings", w.work.scalar_postings),
        counter("spatial_postings", w.work.spatial_postings),
        counter("text_postings", w.work.text_postings),
        counter("text_tokens", w.work.text_tokens),
        counter("graph_edges", w.work.graph_edges),
        counter("graph_visited", w.work.graph_visited),
        counter("vector_locators", w.work.vector_locators),
        counter("vector_sidecars", w.work.vector_sidecars),
        counter("vector_lanes", w.work.vector_lanes),
        counter("key_postings", w.work.key_postings),
        counter("groups", w.work.groups),
        counter("output_bytes", w.work.output_bytes),
    ];
    assert(texts(parts@) =~= counters(w.work).map_values(|c: (Seq<char>, u64)| counter_text(c)));
    cat7(
        "rows: ",
        decimal_u64(w.rows).as_str(),
        " in ",
        decimal_u64(w.pages).as_str(),
        " page(s)\nwork: ",
        join(&parts, " ").as_str(),
        "\n",
    )
}

pub open spec fn pool_section(accesses: Option<u64>) -> Seq<char> {
    match accesses {
        Some(n) => "pool accesses (process total): "@ + decimal(n as int) + "\n"@,
        None => ""@,
    }
}

/// The notices, one on a line.
pub open spec fn notice_lines(notices: Seq<Seq<char>>) -> Seq<char>
    decreases notices.len(),
{
    if notices.len() == 0 {
        ""@
    } else {
        notice_lines(notices.drop_last()) + "notice: "@ + notices.last() + "\n"@
    }
}

/// The notices, one on a line.
pub fn write_notices(notices: &Vec<String>) -> (r: String)
    ensures
        r@ == notice_lines(texts(notices@)),
{
    let ghost all = texts(notices@);
    let mut out = owned("");
    let mut i: usize = 0;
    assert(all.take(0) =~= Seq::<Seq<char>>::empty());
    while i < notices.len()
        invariant
            i <= notices@.len(),
            all == texts(notices@),
            out@ == notice_lines(all.take(i as int)),
        decreases notices@.len() - i,
    {
        proof {
            take_next(all, i as int);
            assert(all[i as int] == notices@[i as int]@);
        }
        out = cat4(out.as_str(), "notice: ", notices[i].as_str(), "\n");
        i = i + 1;
    }
    proof {
        take_all(all);
    }
    out
}

/// The plan of a query, and what running it counted.
pub open spec fn plan_words(
    p: PlanDescriptionV,
    work: RunWork,
    approximation: Option<ApproximationV>,
    accesses: Option<u64>,
    notices: Seq<Seq<char>>,
) -> Seq<char> {
    driver_section(p) + filters_section(p.filters) + order_section(p)
        + approximation_section(approximation) + work_section(work) + pool_section(accesses)
        + notice_lines(notices)
}

/// The plan of a query, and what running it counted; `accesses` is how often
/// the page pool was asked, where that can be read.
pub fn format(
    p: &PlanDescription,
    work: &RunWork,
    approximation: &Option<Approximation>,
    accesses: Option<u64>,
    notices: &Vec<String>,
) -> (r: String)
    ensures
        r@ == plan_words(
            p.deep_view(),
            *work,
            approximation.deep_view(),
            accesses,
            texts(notices@),
        ),
{
    let pool = match accesses {
        Some(n) => cat3("pool accesses (process total): ", decimal_u64(n).as_str(), "\n"),
        None => owned(""),
    };
    cat7(
        write_driver(p).as_str(),
        write_filters(&p.filters).as_str(),
        write_order(p).as_str(),
        write_approximation(approximation).as_str(),
        write_work(work).as_str(),
        pool.as_str(),
        write_notices(notices).as_str(),
    )
}

// ── rebinding, rewrites and row functions ────────────────────────────────

/// Whether a statement can be bound again, and why not.
pub open spec fn rebind_words(refusals: Seq<Seq<char>>) -> Seq<char> {
    if refusals.len() == 0 {
        "rebind: yes -- every $n is a typed slot, so new parameters are written into this same plan\n"@
    } else {
        "rebind: no -- "@ + joined(refusals, "; "@)
            + "; a new parameter list is COMPILED again from the parsed statement (never re-parsed)\n"@
    }
}

/// Whether a statement can be bound again, and why not.
pub fn rebind_line(rebind: &Rebind) -> (r: String)
    ensures
        r@ == rebind_words(texts(rebind.refusals@)),
{
    match rebind.reason() {
        None => owned(
            "rebind: yes -- every $n is a typed slot, so new parameters are written into this same plan\n",
        ),
        Some(reason) => cat3(
            "rebind: no -- ",
            reason.as_str(),
            "; a new parameter list is COMPILED again from the parsed statement (never re-parsed)\n",
        ),
    }
}

/// A list under a title; `none` where it is empty.
pub open spec fn titled_list(title: Seq<char>, lines: Seq<Seq<char>>) -> Seq<char> {
    if lines.len() == 0 {
        title + "none\n"@
    } else {
        title + "\n"@ + indented(lines)
    }
}

fn write_list(title: &str, lines: &Vec<String>) -> (r: String)
    ensures
        r@ == titled_list(title@, texts(lines@)),
{
    if lines.len() == 0 {
        cat2(title, "none\n")
    } else {
        cat3(title, "\n", indent(lines).as_str())
    }
}

/// The functions that became index ranges, and those that run for each
/// returned row.
pub fn rewrites_and_row_functions(rewrites: &Vec<String>, row_functions: &Vec<String>) -> (r: String)
    ensures
        r@ == titled_list("range rewrites: "@, texts(rewrites@)) + titled_list(
            "row functions: "@,
            texts(row_functions@),
        ),
{
    cat2(
        write_list("range rewrites: ", rewrites).as_str(),
        write_list("row functions: ", row_functions).as_str(),
    )
}

// ── aggregates ───────────────────────────────────────────────────────────

/// How an aggregate walks its groups.
#[derive(Clone, Copy, Debug, PartialEq, Eq, Structural)]
pub enum Shape {
    Streaming,
    Hashed,
    Skip,
    PostingJoin,
}

/// Where a count of a whole collection is from.
#[derive(Clone, Copy, Debug, PartialEq, Eq, Structural)]
pub enum CountSource {
    LiveRecord,
    Walk,
}

impl DeepView for CountSource {
    type V = CountSource;

    open spec fn deep_view(&self) -> CountSource {
        *self
    }
}

pub open spec fn shape_note(s: Shape) -> Seq<char> {
    match s {
        Shape::Streaming => "  note:  the group key IS the driving index's own value, so the groups arrive contiguous: ONE accumulator set is alive, the key comes off the posting with no row read, and a page stops and resumes at a group boundary\n"@,
        Shape::Hashed => "  note:  the group key is not the driving walk's own order, so every group is open at once and none is final until the walk ends; the memory that costs is bounded by the `groups` budget below, and there is no spill\n"@,
        Shape::Skip => "  note:  the group has NO accumulators, so nothing but the EXISTENCE of each value matters: the walk seeks to the successor of the current value's key prefix, one descent per DISTINCT VALUE, and reads neither the postings between them nor any row\n"@,
        Shape::PostingJoin => "  note:  the group key is the driving index's own value and every other accumulator has its own numeric scalar index, so NO ROW IS READ: two index passes, the first turning each value's run of postings into a group with a bounded id bitmap, the second folding each (value, id) into the group whose bitmap claims the id\n"@,
    }
}

fn note_of_shape(s: Shape) -> (r: &'static str)
    ensures
        r@ == shape_note(s),
{
    match s {
        Shape::Streaming => "  note:  the group key IS the driving index's own value, so the groups arrive contiguous: ONE accumulator set is alive, the key comes off the posting with no row read, and a page stops and resumes at a group boundary\n",
        Shape::Hashed => "  note:  the group key is not the driving walk's own order, so every group is open at once and none is final until the walk ends; the memory that costs is bounded by the `groups` budget below, and there is no spill\n",
        Shape::Skip => "  note:  the group has NO accumulators, so nothing but the EXISTENCE of each value matters: the walk seeks to the successor of the current value's key prefix, one descent per DISTINCT VALUE, and reads neither the postings between them nor any row\n",
        Shape::PostingJoin => "  note:  the group key is the driving index's own value and every other accumulator has its own numeric scalar index, so NO ROW IS READ: two index passes, the first turning each value's run of postings into a group with a bounded id bitmap, the second folding each (value, id) into the group whose bitmap claims the id\n",
    }
}

pub open spec fn count_note(c: CountSource) -> Seq<char> {
    match c {
        CountSource::LiveRecord => "  note:  the collection carries a LIVE ROW COUNT record, maintained by the write path inside the same transaction as the rows, so the answer is ONE get: no candidate is walked, no posting is read and no row is touched\n"@,
        CountSource::Walk => "  note:  this collection has no live row-count record -- a database written before the feature, or one the backfill has not reached -- so the count is the complete enumeration of the external-key mapping keyspace, one step per row\n"@,
    }
}

fn note_of_count(c: CountSource) -> (r: &'static str)
    ensures
        r@ == count_note(c),
{
    match c {
        CountSource::LiveRecord => "  note:  the collection carries a LIVE ROW COUNT record, maintained by the write path inside the same transaction as the rows, so the answer is ONE get: no candidate is walked, no posting is read and no row is touched\n",
        CountSource::Walk => "  note:  this collection has no live row-count record -- a database written before the feature, or one the backfill has not reached -- so the count is the complete enumeration of the external-key mapping keyspace, one step per row\n",
    }
}

/// A prepared aggregate, as the engine describes it.
#[derive(Debug)]
pub struct AggregateDescription {
    pub shape: Shape,
    /// The shape, as the engine names it.
    pub shape_name: String,
    pub passes: Vec<String>,
    pub fell_back: Option<String>,
    /// Where a count is from, and how the engine names that.
    pub count: Option<(CountSource, String)>,
    /// The group key, and where it is read.
    pub group: Option<(String, String)>,
    /// Each accumulator, and where it reads its input.
    pub accumulators: Vec<(String, String)>,
    pub having: Vec<String>,
    pub groups_seen: u64,
    pub groups_cap: u64,
    pub total_limit: Option<usize>,
}

pub struct AggregateDescriptionV {
    pub shape: Shape,
    pub shape_name: Seq<char>,
    pub passes: Seq<Seq<char>>,
    pub fell_back: Option<Seq<char>>,
    pub count: Option<(CountSource, Seq<char>)>,
    pub group: Option<(Seq<char>, Seq<char>)>,
    pub accumulators: Seq<(Seq<char>, Seq<char>)>,
    pub having: Seq<Seq<char>>,
    pub groups_seen: u64,
    pub groups_cap: u64,
    pub total_limit: Option<usize>,
}

impl DeepView for AggregateDescription {
    type V = AggregateDescriptionV;

    open spec fn deep_view(&self) -> AggregateDescriptionV {
        AggregateDescriptionV {
            shape: self.shape,
            shape_name: self.shape_name@,
            passes: texts(self.passes@),
            fell_back: self.fell_back.deep_view(),
            count: self.count.deep_view(),
            group: self.group.deep_view(),
            accumulators: self.accumulators.deep_view(),
            having: texts(self.having@),
            groups_seen: self.groups_seen,
            groups_cap: self.groups_cap,
            total_limit: self.total_limit,
        }
    }
}

/// The shape, the passes and why another shape was taken.
pub open spec fn shape_section(p: AggregateDescriptionV) -> Seq<char> {
    "shape: "@ + p.shape_name + "\n"@ + shape_note(p.shape) + (if p.passes.len() == 0 {
        ""@
    } else {
        "passes:\n"@ + indented(p.passes)
    }) + (match p.fell_back {
        Some(reason) => "fell back: "@ + reason + "\n"@,
        None => ""@,
    })
}

pub open spec fn count_section(p: AggregateDescriptionV) -> Seq<char> {
    match p.count {
        None => ""@,
        Some((source, name)) => "count: "@ + name + "\n"@ + count_note(source),
    }
}

pub open spec fn group_section(p: AggregateDescriptionV) -> Seq<char> {
    match p.group {
        None => "group: none -- one group over every candidate\n"@,
        Some((key, source)) => "group: "@ + key + " -> "@ + source + "\n"@,
    }
}

pub open spec fn pair_line(a: (Seq<char>, Seq<char>)) -> Seq<char> {
    a.0 + " -> "@ + a.1
}

pub open spec fn accumulator_section(p: AggregateDescriptionV) -> Seq<char> {
    "accumulators:\n"@ + (if p.accumulators.len() == 0 {
        "  none -- a group with no accumulators is DISTINCT\n"@
    } else {
        indented(p.accumulators.map_values(|a: (Seq<char>, Seq<char>)| pair_line(a)))
    })
}

pub open spec fn having_line(predicate: Seq<char>) -> Seq<char> {
    predicate + " (applied to a finished group, before paging)"@
}

pub open spec fn having_section(p: AggregateDescriptionV) -> Seq<char> {
    if p.having.len() == 0 {
        "having: none\n"@
    } else {
        "having:\n"@ + indented(p.having.map_values(|h: Seq<char>| having_line(h)))
    }
}

/// How many groups a walk opened, and the limits.
pub open spec fn groups_section(p: AggregateDescriptionV) -> Seq<char> {
    "groups: "@ + decimal(p.groups_seen as int) + " seen, cap "@ + decimal(p.groups_cap as int)
        + " accumulator set(s) held at once\ngroup limit: "@ + limit_text(p.total_limit) + "\n"@
}

/// The part of a plan that only an aggregate has.
pub open spec fn aggregate_words(p: AggregateDescriptionV) -> Seq<char> {
    shape_section(p) + count_section(p) + group_section(p) + accumulator_section(p)
        + having_section(p) + groups_section(p)
}

fn write_shape(p: &AggregateDescription) -> (r: String)
    ensures
        r@ == shape_section(p.deep_view()),
{
    let passes = if p.passes.len() == 0 {
        owned("")
    } else {
        cat2("passes:\n", indent(&p.passes).as_str())
    };
    let fell_back = match &p.fell_back {
        Some(reason) => cat3("fell back: ", reason.as_str(), "\n"),
        None => owned(""),
    };
    cat6(
        "shape: ",
        p.shape_name.as_str(),
        "\n",
        note_of_shape(p.shape),
        passes.as_str(),
        fell_back.as_str(),
    )
}

fn write_count(p: &AggregateDescription) -> (r: String)
    ensures
        r@ == count_section(p.deep_view()),
{
    match &p.count {
        None => owned(""),
        Some((source, name)) => cat4("count: ", name.as_str(), "\n", note_of_count(*source)),
    }
}

fn write_group(p: &AggregateDescription) -> (r: String)
    ensures
        r@ == group_section(p.deep_view()),
{
    match &p.group {
        None => owned("group: none -- one group over every candidate\n"),
        Some((key, source)) => cat5("group: ", key.as_str(), " -> ", source.as_str(), "\n"),
    }
}

fn write_accumulators(p: &AggregateDescription) -> (r: String)
    ensures
        r@ == accumulator_section(p.deep_view()),
{
    let ghost all = p.accumulators.deep_view();
    if p.accumulators.len() == 0 {
        return cat2("accumulators:\n", "  none -- a group with no accumulators is DISTINCT\n");
    }
    let mut lines: Vec<String> = Vec::new();
    let mut i: usize = 0;
    while i < p.accumulators.len()
        invariant
            i <= p.accumulators@.len(),
            all == p.accumulators.deep_view(),
            lines@.len() == i,
            forall|k: int| 0 <= k < i ==> (#[trigger] lines@[k])@ == pair_line(all[k]),
        decreases p.accumulators@.len() - i,
    {
        assert(all[i as int] == p.accumulators@[i as int].deep_view());
        lines.push(
            cat3(p.accumulators[i].0.as_str(), " -> ", p.accumulators[i].1.as_str()),
        );
        i = i + 1;
    }
    assert(texts(lines@) =~= all.map_values(|a: (Seq<char>, Seq<char>)| pair_line(a)));
    cat2("accumulators:\n", indent(&lines).as_str())
}

fn write_having(p: &AggregateDescription) -> (r: String)
    ensures
        r@ == having_section(p.deep_view()),
{
    let ghost all = texts(p.having@);
    if p.having.len() == 0 {
        return owned("having: none\n");
    }
    let mut lines: Vec<String> = Vec::new();
    let mut i: usize = 0;
    while i < p.having.len()
        invariant
            i <= p.having@.len(),
            all == texts(p.having@),
            lines@.len() == i,
            forall|k: int| 0 <= k < i ==> (#[trigger] lines@[k])@ == having_line(all[k]),
        decreases p.having@.len() - i,
    {
        assert(all[i as int] == p.having@[i as int]@);
        lines.push(
            cat2(p.having[i].as_str(), " (applied to a finished group, before paging)"),
        );
        i = i + 1;
    }
    assert(texts(lines@) =~= all.map_values(|h: Seq<char>| having_line(h)));
    cat2("having:\n", indent(&lines).as_str())
}

/// The part of a plan that only an aggregate has.
pub fn format_aggregate(p: &AggregateDescription) -> (r: String)
    ensures
        r@ == aggregate_words(p.deep_view()),
{
    let groups = cat7(
        "groups: ",
        decimal_u64(p.groups_seen).as_str(),
        " seen, cap ",
        decimal_u64(p.groups_cap).as_str(),
        " accumulator set(s) held at once\ngroup limit: ",
        write_limit(p.total_limit).as_str(),
        "\n",
    );
    cat6(
        write_shape(p).as_str(),
        write_count(p).as_str(),
        write_group(p).as_str(),
        write_accumulators(p).as_str(),
        write_having(p).as_str(),
        groups.as_str(),
    )
}

// ── whole explanations ───────────────────────────────────────────────────

/// What the run of a query told of itself.
#[derive(Debug)]
pub struct Run {
    pub plan: PlanDescription,
    pub work: RunWork,
    pub approximation: Option<Approximation>,
    /// How often the page pool was asked, where that can be read.
    pub accesses: Option<u64>,
}

pub struct RunV {
    pub plan: PlanDescriptionV,
    pub work: RunWork,
    pub approximation: Option<ApproximationV>,
    pub accesses: Option<u64>,
}

impl DeepView for Run {
    type V = RunV;

    open spec fn deep_view(&self) -> RunV {
        RunV {
            plan: self.plan.deep_view(),
            work: self.work,
            approximation: self.approximation.deep_view(),
            accesses: self.accesses,
        }
    }
}

/// `EXPLAIN` of a `SELECT`: the plan and the work, what became of the
/// functions, and whether the plan can be bound again.
pub open spec fn rendered(
    select: SelectPlanV,
    run: RunV,
    notices: Seq<Seq<char>>,
    refusals: Seq<Seq<char>>,
) -> Seq<char> {
    plan_words(run.plan, run.work, run.approximation, run.accesses, notices) + (titled_list(
        "range rewrites: "@,
        select.rewrites,
    ) + titled_list("row functions: "@, select.row_functions)) + rebind_words(refusals)
}

/// `EXPLAIN` of a `SELECT` that has run.
pub fn render(select: &SelectPlan, run: &Run, notices: &Vec<String>, rebind: &Rebind) -> (r: String)
    ensures
        r@ == rendered(
            select.deep_view(),
            run.deep_view(),
            texts(notices@),
            texts(rebind.refusals@),
        ),
{
    cat3(
        format(&run.plan, &run.work, &run.approximation, run.accesses, notices).as_str(),
        rewrites_and_row_functions(&select.rewrites, &select.row_functions).as_str(),
        rebind_line(rebind).as_str(),
    )
}

/// `EXPLAIN` of a folded answer: its own half, the query under it, and whether
/// the plan can be bound again. A folded answer is never approximate.
pub open spec fn rendered_aggregate(
    own: AggregateDescriptionV,
    run: RunV,
    notices: Seq<Seq<char>>,
    refusals: Seq<Seq<char>>,
) -> Seq<char> {
    aggregate_words(own) + plan_words(run.plan, run.work, None, run.accesses, notices)
        + rebind_words(refusals)
}

/// `EXPLAIN` of a folded answer that has run.
pub fn render_aggregate(
    own: &AggregateDescription,
    run: &Run,
    notices: &Vec<String>,
    rebind: &Rebind,
) -> (r: String)
    ensures
        r@ == rendered_aggregate(
            own.deep_view(),
            run.deep_view(),
            texts(notices@),
            texts(rebind.refusals@),
        ),
{
    cat3(
        format_aggregate(own).as_str(),
        format(&run.plan, &run.work, &None, run.accesses, notices).as_str(),
        rebind_line(rebind).as_str(),
    )
}

} // verus!
