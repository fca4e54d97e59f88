//! Whole statements.

use vstd::prelude::*;
use crate::ast::{
    AggFunc, CmpOp, Expr, ExprV, GraphDirection, Literal, LiteralV, PointArg, PointArgV, Predicate,
    PredicateV, RowExpr, RowExprV, TsQuery, TsQueryV, VecOp,
};
use crate::number::{Real, RealV};
use crate::text::{cat2, cat3, cat4};
use crate::value::{ColumnRule, ColumnRuleV, Kind};

verus! {

// ── ORDER BY ─────────────────────────────────────────────────────────────

/// An arithmetic ranking.
#[allow(inconsistent_fields)]
#[derive(Debug)]
pub enum ScoreNode {
    Lit(Real),
    Column(String),
    Bm25 { column: String, query: TsQuery },
    /// `search_score()`.
    SearchScore,
    VecDistance { column: String, query: Literal, op: VecOp },
    Distance { column: String, point: PointArg },
    Add(Box<ScoreNode>, Box<ScoreNode>),
    Sub(Box<ScoreNode>, Box<ScoreNode>),
    Mul(Box<ScoreNode>, Box<ScoreNode>),
    Div(Box<ScoreNode>, Box<ScoreNode>),
    Neg(Box<ScoreNode>),
}

#[allow(inconsistent_fields)]
pub enum ScoreNodeV {
    Lit(RealV),
    Column(Seq<char>),
    Bm25 { column: Seq<char>, query: TsQueryV },
    SearchScore,
    VecDistance { column: Seq<char>, query: LiteralV, op: VecOp },
    Distance { column: Seq<char>, point: PointArgV },
    Add(Box<ScoreNodeV>, Box<ScoreNodeV>),
    Sub(Box<ScoreNodeV>, Box<ScoreNodeV>),
    Mul(Box<ScoreNodeV>, Box<ScoreNodeV>),
    Div(Box<ScoreNodeV>, Box<ScoreNodeV>),
    Neg(Box<ScoreNodeV>),
}

pub open spec fn score_node_view(s: ScoreNode) -> ScoreNodeV
    decreases s,
{
    match s {
        ScoreNode::Lit(n) => ScoreNodeV::Lit(n.deep_view()),
        ScoreNode::Column(c) => ScoreNodeV::Column(c@),
        ScoreNode::Bm25 { column, query } => ScoreNodeV::Bm25 {
            column: column@,
            query: query.deep_view(),
        },
        ScoreNode::SearchScore => ScoreNodeV::SearchScore,
        ScoreNode::VecDistance { column, query, op } => ScoreNodeV::VecDistance {
            column: column@,
            query: query.deep_view(),
            op,
        },
        ScoreNode::Distance { column, point } => ScoreNodeV::Distance {
            column: column@,
            point: point.deep_view(),
        },
        ScoreNode::Add(a, b) => ScoreNodeV::Add(
            Box::new(score_node_view(*a)),
            Box::new(score_node_view(*b)),
        ),
        ScoreNode::Sub(a, b) => ScoreNodeV::Sub(
            Box::new(score_node_view(*a)),
            Box::new(score_node_view(*b)),
        ),
        ScoreNode::Mul(a, b) => ScoreNodeV::Mul(
            Box::new(score_node_view(*a)),
            Box::new(score_node_view(*b)),
        ),
        ScoreNode::Div(a, b) => ScoreNodeV::Div(
            Box::new(score_node_view(*a)),
            Box::new(score_node_view(*b)),
        ),
        ScoreNode::Neg(a) => ScoreNodeV::Neg(Box::new(score_node_view(*a))),
    }
}

impl DeepView for ScoreNode {
    type V = ScoreNodeV;

    open spec fn deep_view(&self) -> ScoreNodeV {
        score_node_view(*self)
    }
}

#[allow(inconsistent_fields)]
#[derive(Debug)]
pub enum OrderKey {
    Column { column: String, descending: bool },
    Distance { column: String, point: PointArg, descending: bool },
    Vector { column: String, query: Literal, op: VecOp, descending: bool },
    Bm25 { column: String, query: TsQuery, descending: bool },
    Score { expr: ScoreNode, descending: bool },
}

#[allow(inconsistent_fields)]
pub enum OrderKeyV {
    Column { column: Seq<char>, descending: bool },
    Distance { column: Seq<char>, point: PointArgV, descending: bool },
    Vector { column: Seq<char>, query: LiteralV, op: VecOp, descending: bool },
    Bm25 { column: Seq<char>, query: TsQueryV, descending: bool },
    Score { expr: ScoreNodeV, descending: bool },
}

impl DeepView for OrderKey {
    type V = OrderKeyV;

    open spec fn deep_view(&self) -> OrderKeyV {
        match *self {
            OrderKey::Column { column, descending } => OrderKeyV::Column {
                column: column@,
                descending,
            },
            OrderKey::Distance { column, point, descending } => OrderKeyV::Distance {
                column: column@,
                point: point.deep_view(),
                descending,
            },
            OrderKey::Vector { column, query, op, descending } => OrderKeyV::Vector {
                column: column@,
                query: query.deep_view(),
                op,
                descending,
            },
            OrderKey::Bm25 { column, query, descending } => OrderKeyV::Bm25 {
                column: column@,
                query: query.deep_view(),
                descending,
            },
            OrderKey::Score { expr, descending } => OrderKeyV::Score {
                expr: expr.deep_view(),
                descending,
            },
        }
    }
}

// ── the select list ──────────────────────────────────────────────────────

#[derive(Debug)]
pub enum AggArg {
    Star,
    Column(String),
}

pub enum AggArgV {
    Star,
    Column(Seq<char>),
}

impl DeepView for AggArg {
    type V = AggArgV;

    open spec fn deep_view(&self) -> AggArgV {
        match *self {
            AggArg::Star => AggArgV::Star,
            AggArg::Column(c) => AggArgV::Column(c@),
        }
    }
}

impl AggArg {
    pub fn dup(&self) -> (r: AggArg)
        ensures
            r.deep_view() == self.deep_view(),
    {
        match self {
            AggArg::Star => AggArg::Star,
            AggArg::Column(c) => AggArg::Column(c.clone()),
        }
    }
}

/// `GROUP BY column [/ divisor]`.
#[derive(Debug)]
pub struct GroupExpr {
    pub column: String,
    pub divisor: Option<i64>,
}

pub struct GroupExprV {
    pub column: Seq<char>,
    pub divisor: Option<i64>,
}

impl DeepView for GroupExpr {
    type V = GroupExprV;

    open spec fn deep_view(&self) -> GroupExprV {
        GroupExprV { column: self.column@, divisor: self.divisor }
    }
}

#[derive(Debug)]
pub struct HavingPredicate {
    pub function: AggFunc,
    pub argument: AggArg,
    pub op: CmpOp,
    pub value: Literal,
}

pub struct HavingPredicateV {
    pub function: AggFunc,
    pub argument: AggArgV,
    pub op: CmpOp,
    pub value: LiteralV,
}

impl DeepView for HavingPredicate {
    type V = HavingPredicateV;

    open spec fn deep_view(&self) -> HavingPredicateV {
        HavingPredicateV {
            function: self.function,
            argument: self.argument.deep_view(),
            op: self.op,
            value: self.value.deep_view(),
        }
    }
}

#[allow(inconsistent_fields)]
#[derive(Debug)]
pub enum SelectItem {
    Star,
    Id,
    Key,
    Column(String),
    /// An expression, with the words it is named by.
    OrderValue(String),
    Aggregate { function: AggFunc, argument: AggArg },
    Function(Box<RowExpr>),
    Divided { column: String, divisor: i64 },
}

pub enum SelectItemV {
    Star,
    Id,
    Key,
    Column(Seq<char>),
    OrderValue(Seq<char>),
    Aggregate { function: AggFunc, argument: AggArgV },
    Function(Box<RowExprV>),
    Divided { column: Seq<char>, divisor: i64 },
}

impl DeepView for SelectItem {
    type V = SelectItemV;

    open spec fn deep_view(&self) -> SelectItemV {
        match *self {
            SelectItem::Star => SelectItemV::Star,
            SelectItem::Id => SelectItemV::Id,
            SelectItem::Key => SelectItemV::Key,
            SelectItem::Column(c) => SelectItemV::Column(c@),
            SelectItem::OrderValue(w) => SelectItemV::OrderValue(w@),
            SelectItem::Aggregate { function, argument } => SelectItemV::Aggregate {
                function,
                argument: argument.deep_view(),
            },
            SelectItem::Function(e) => SelectItemV::Function(Box::new(e.deep_view())),
            SelectItem::Divided { column, divisor } => SelectItemV::Divided {
                column: column@,
                divisor,
            },
        }
    }
}

// ── GRAPH_TABLE ──────────────────────────────────────────────────────────

#[derive(Debug)]
pub struct EdgePredicate {
    pub property: String,
    pub op: CmpOp,
    pub value: Literal,
}

pub struct EdgePredicateV {
    pub property: Seq<char>,
    pub op: CmpOp,
    pub value: LiteralV,
}

impl DeepView for EdgePredicate {
    type V = EdgePredicateV;

    open spec fn deep_view(&self) -> EdgePredicateV {
        EdgePredicateV { property: self.property@, op: self.op, value: self.value.deep_view() }
    }
}

#[derive(Debug)]
pub struct GraphHop {
    pub edge_type: Option<String>,
    pub direction: GraphDirection,
    pub min_depth: usize,
    pub max_depth: usize,
    pub predicates: Vec<EdgePredicate>,
}

pub struct GraphHopV {
    pub edge_type: Option<Seq<char>>,
    pub direction: GraphDirection,
    pub min_depth: usize,
    pub max_depth: usize,
    pub predicates: Seq<EdgePredicateV>,
}

impl DeepView for GraphHop {
    type V = GraphHopV;

    open spec fn deep_view(&self) -> GraphHopV {
        GraphHopV {
            edge_type: self.edge_type.deep_view(),
            direction: self.direction,
            min_depth: self.min_depth,
            max_depth: self.max_depth,
            predicates: self.predicates.deep_view(),
        }
    }
}

/// One `COLUMNS` entry: an item over the far node, or a property of the edge.
#[derive(Debug)]
pub enum GraphColumn {
    Node(SelectItem),
    Edge(String),
}

pub enum GraphColumnV {
    Node(SelectItemV),
    Edge(Seq<char>),
}

impl DeepView for GraphColumn {
    type V = GraphColumnV;

    open spec fn deep_view(&self) -> GraphColumnV {
        match *self {
            GraphColumn::Node(item) => GraphColumnV::Node(item.deep_view()),
            GraphColumn::Edge(p) => GraphColumnV::Edge(p@),
        }
    }
}

#[derive(Debug)]
pub struct GraphTable {
    pub context: String,
    pub seed_collection: String,
    pub seed_key: Literal,
    pub hop: GraphHop,
    pub target_collection: String,
    pub node_predicates: Vec<Predicate>,
    pub columns: Vec<(GraphColumn, String)>,
}

pub struct GraphTableV {
    pub context: Seq<char>,
    pub seed_collection: Seq<char>,
    pub seed_key: LiteralV,
    pub hop: GraphHopV,
    pub target_collection: Seq<char>,
    pub node_predicates: Seq<PredicateV>,
    pub columns: Seq<(GraphColumnV, Seq<char>)>,
}

impl DeepView for GraphTable {
    type V = GraphTableV;

    open spec fn deep_view(&self) -> GraphTableV {
        GraphTableV {
            context: self.context@,
            seed_collection: self.seed_collection@,
            seed_key: self.seed_key.deep_view(),
            hop: self.hop.deep_view(),
            target_collection: self.target_collection@,
            node_predicates: self.node_predicates.deep_view(),
            columns: self.columns.deep_view(),
        }
    }
}

// ── SELECT ───────────────────────────────────────────────────────────────

#[derive(Debug)]
pub enum Source {
    Table(String),
    Graph(Box<GraphTable>),
    All,
}

pub enum SourceV {
    Table(Seq<char>),
    Graph(Box<GraphTableV>),
    All,
}

impl DeepView for Source {
    type V = SourceV;

    open spec fn deep_view(&self) -> SourceV {
        match *self {
            Source::Table(t) => SourceV::Table(t@),
            Source::Graph(g) => SourceV::Graph(Box::new(g.deep_view())),
            Source::All => SourceV::All,
        }
    }
}

#[derive(Debug)]
pub struct SelectStmt {
    pub items: Vec<(SelectItem, Option<String>)>,
    pub source: Source,
    pub predicates: Vec<Expr>,
    pub distinct: bool,
    pub group: Option<GroupExpr>,
    pub having: Vec<HavingPredicate>,
    pub order: Option<OrderKey>,
    pub limit: Option<usize>,
}

pub struct SelectStmtV {
    pub items: Seq<(SelectItemV, Option<Seq<char>>)>,
    pub source: SourceV,
    pub predicates: Seq<ExprV>,
    pub distinct: bool,
    pub group: Option<GroupExprV>,
    pub having: Seq<HavingPredicateV>,
    pub order: Option<OrderKeyV>,
    pub limit: Option<usize>,
}

impl DeepView for SelectStmt {
    type V = SelectStmtV;

    open spec fn deep_view(&self) -> SelectStmtV {
        SelectStmtV {
            items: self.items.deep_view(),
            source: self.source.deep_view(),
            predicates: self.predicates.deep_view(),
            distinct: self.distinct,
            group: self.group.deep_view(),
            having: self.having.deep_view(),
            order: self.order.deep_view(),
            limit: self.limit,
        }
    }
}

// ── definitions ──────────────────────────────────────────────────────────

#[derive(Debug)]
pub struct ColumnDef {
    pub name: String,
    pub kind: Kind,
    pub declared: String,
    pub primary_key: bool,
    pub rule: Option<ColumnRule>,
}

pub struct ColumnDefV {
    pub name: Seq<char>,
    pub kind: Kind,
    pub declared: Seq<char>,
    pub primary_key: bool,
    pub rule: Option<ColumnRuleV>,
}

impl DeepView for ColumnDef {
    type V = ColumnDefV;

    open spec fn deep_view(&self) -> ColumnDefV {
        ColumnDefV {
            name: self.name@,
            kind: self.kind,
            declared: self.declared@,
            primary_key: self.primary_key,
            rule: self.rule.deep_view(),
        }
    }
}

/// One `key: [column]` of a `CREATE TABLE ... WITH (...)`.
#[derive(Debug)]
pub struct WithIndex {
    pub key: String,
    pub column: String,
}

pub struct WithIndexV {
    pub key: Seq<char>,
    pub column: Seq<char>,
}

impl DeepView for WithIndex {
    type V = WithIndexV;

    open spec fn deep_view(&self) -> WithIndexV {
        WithIndexV { key: self.key@, column: self.column@ }
    }
}

#[allow(inconsistent_fields)]
#[derive(Debug)]
pub enum AlterAction {
    AddColumn(Box<ColumnDef>),
    DropColumn { column: String, if_exists: bool },
    RenameColumn { from: String, to: String },
    RenameTable { to: String },
    ColumnType { column: String, kind: Kind, declared: String },
}

pub enum AlterActionV {
    AddColumn(Box<ColumnDefV>),
    DropColumn { column: Seq<char>, if_exists: bool },
    RenameColumn { from: Seq<char>, to: Seq<char> },
    RenameTable { to: Seq<char> },
    ColumnType { column: Seq<char>, kind: Kind, declared: Seq<char> },
}

impl DeepView for AlterAction {
    type V = AlterActionV;

    open spec fn deep_view(&self) -> AlterActionV {
        match *self {
            AlterAction::AddColumn(c) => AlterActionV::AddColumn(Box::new(c.deep_view())),
            AlterAction::DropColumn { column, if_exists } => AlterActionV::DropColumn {
                column: column@,
                if_exists,
            },
            AlterAction::RenameColumn { from, to } => AlterActionV::RenameColumn {
                from: from@,
                to: to@,
            },
            AlterAction::RenameTable { to } => AlterActionV::RenameTable { to: to@ },
            AlterAction::ColumnType { column, kind, declared } => AlterActionV::ColumnType {
                column: column@,
                kind,
                declared: declared@,
            },
        }
    }
}

/// The action as a statement would write it.
pub open spec fn action_text(action: AlterActionV) -> Seq<char> {
    match action {
        AlterActionV::AddColumn(c) => "ADD COLUMN "@ + c.name + " "@ + c.declared,
        AlterActionV::DropColumn { column, if_exists } => "DROP COLUMN "@ + if if_exists {
            "IF EXISTS "@
        } else {
            ""@
        } + column,
        AlterActionV::RenameColumn { from, to } => "RENAME COLUMN "@ + from + " TO "@ + to,
        AlterActionV::RenameTable { to } => "RENAME TO "@ + to,
        AlterActionV::ColumnType { column, declared, .. } => "ALTER COLUMN "@ + column + " TYPE "@
            + declared,
    }
}

impl AlterAction {
    pub fn written(&self) -> (r: String)
        ensures
            r@ == action_text(self.deep_view()),
    {
        match self {
            AlterAction::AddColumn(c) => cat4(
                "ADD COLUMN ",
                c.name.as_str(),
                " ",
                c.declared.as_str(),
            ),
            AlterAction::DropColumn { column, if_exists } => cat3(
                "DROP COLUMN ",
                if *if_exists {
                    "IF EXISTS "
                } else {
                    ""
                },
                column.as_str(),
            ),
            AlterAction::RenameColumn { from, to } => cat4(
                "RENAME COLUMN ",
                from.as_str(),
                " TO ",
                to.as_str(),
            ),
            AlterAction::RenameTable { to } => cat2("RENAME TO ", to.as_str()),
            AlterAction::ColumnType { column, declared, .. } => cat4(
                "ALTER COLUMN ",
                column.as_str(),
                " TYPE ",
                declared.as_str(),
            ),
        }
    }
}

#[derive(Debug)]
pub enum IndexMethod {
    Btree(String),
    LowerBtree(String),
    Gin(String),
    Gist(String),
    Exact(String),
    /// The quantized family, and the other name it was asked for by.
    Quantized { column: String, alias: Option<String> },
}

pub enum IndexMethodV {
    Btree(Seq<char>),
    LowerBtree(Seq<char>),
    Gin(Seq<char>),
    Gist(Seq<char>),
    Exact(Seq<char>),
    Quantized { column: Seq<char>, alias: Option<Seq<char>> },
}

impl DeepView for IndexMethod {
    type V = IndexMethodV;

    open spec fn deep_view(&self) -> IndexMethodV {
        match *self {
            IndexMethod::Btree(c) => IndexMethodV::Btree(c@),
            IndexMethod::LowerBtree(c) => IndexMethodV::LowerBtree(c@),
            IndexMethod::Gin(c) => IndexMethodV::Gin(c@),
            IndexMethod::Gist(c) => IndexMethodV::Gist(c@),
            IndexMethod::Exact(c) => IndexMethodV::Exact(c@),
            IndexMethod::Quantized { column, alias } => IndexMethodV::Quantized {
                column: column@,
                alias: alias.deep_view(),
            },
        }
    }
}

// ── the session ──────────────────────────────────────────────────────────

/// One item of a `SELECT` without `FROM`.
#[derive(Debug)]
pub enum SessionItem {
    Version,
    DbVersion,
    CurrentSchema,
    CurrentDatabase,
    CurrentUser,
    BackendPid,
    Setting(String),
    Lit(Literal),
}

pub enum SessionItemV {
    Version,
    DbVersion,
    CurrentSchema,
    CurrentDatabase,
    CurrentUser,
    BackendPid,
    Setting(Seq<char>),
    Lit(LiteralV),
}

impl DeepView for SessionItem {
    type V = SessionItemV;

    open spec fn deep_view(&self) -> SessionItemV {
        match *self {
            SessionItem::Version => SessionItemV::Version,
            SessionItem::DbVersion => SessionItemV::DbVersion,
            SessionItem::CurrentSchema => SessionItemV::CurrentSchema,
            SessionItem::CurrentDatabase => SessionItemV::CurrentDatabase,
            SessionItem::CurrentUser => SessionItemV::CurrentUser,
            SessionItem::BackendPid => SessionItemV::BackendPid,
            SessionItem::Setting(s) => SessionItemV::Setting(s@),
            SessionItem::Lit(l) => SessionItemV::Lit(l.deep_view()),
        }
    }
}

#[derive(Debug)]
pub enum Show {
    Tables,
    Edges,
    Indexes(Option<String>),
    CreateTable(String),
    Name(String),
}

pub enum ShowV {
    Tables,
    Edges,
    Indexes(Option<Seq<char>>),
    CreateTable(Seq<char>),
    Name(Seq<char>),
}

impl DeepView for Show {
    type V = ShowV;

    open spec fn deep_view(&self) -> ShowV {
        match *self {
            Show::Tables => ShowV::Tables,
            Show::Edges => ShowV::Edges,
            Show::Indexes(t) => ShowV::Indexes(t.deep_view()),
            Show::CreateTable(t) => ShowV::CreateTable(t@),
            Show::Name(n) => ShowV::Name(n@),
        }
    }
}

/// The value of one `SET` of an `UPDATE ... WHERE`.
#[derive(Debug)]
pub enum SetValue {
    Lit(Literal),
    Row(RowExpr),
}

pub enum SetValueV {
    Lit(LiteralV),
    Row(RowExprV),
}

impl DeepView for SetValue {
    type V = SetValueV;

    open spec fn deep_view(&self) -> SetValueV {
        match *self {
            SetValue::Lit(l) => SetValueV::Lit(l.deep_view()),
            SetValue::Row(e) => SetValueV::Row(e.deep_view()),
        }
    }
}

// ── statements ───────────────────────────────────────────────────────────

/// `UPDATE table SET ... WHERE condition`.
#[derive(Debug)]
pub struct UpdateWhere {
    pub table: String,
    pub assignments: Vec<(String, SetValue)>,
    pub predicates: Vec<Expr>,
}

pub struct UpdateWhereV {
    pub table: Seq<char>,
    pub assignments: Seq<(Seq<char>, SetValueV)>,
    pub predicates: Seq<ExprV>,
}

impl DeepView for UpdateWhere {
    type V = UpdateWhereV;

    open spec fn deep_view(&self) -> UpdateWhereV {
        UpdateWhereV {
            table: self.table@,
            assignments: self.assignments.deep_view(),
            predicates: self.predicates.deep_view(),
        }
    }
}

/// `DELETE FROM table [WHERE condition]`; no table is every one.
#[derive(Debug)]
pub struct DeleteWhere {
    pub table: Option<String>,
    pub predicates: Vec<Expr>,
    pub cascade: bool,
}

pub struct DeleteWhereV {
    pub table: Option<Seq<char>>,
    pub predicates: Seq<ExprV>,
    pub cascade: bool,
}

impl DeepView for DeleteWhere {
    type V = DeleteWhereV;

    open spec fn deep_view(&self) -> DeleteWhereV {
        DeleteWhereV {
            table: self.table.deep_view(),
            predicates: self.predicates.deep_view(),
            cascade: self.cascade,
        }
    }
}

/// One statement.
#[allow(inconsistent_fields)]
#[derive(Debug)]
pub enum Stmt {
    Select(Box<SelectStmt>),
    Explain(Box<SelectStmt>),
    SessionRows(Vec<(SessionItem, Option<String>)>),
    Show(Show),
    Insert { table: String, columns: Vec<String>, rows: Vec<Vec<Literal>> },
    /// An update of the row at one key.
    Update { table: String, assignments: Vec<(String, Literal)>, key: Literal },
    UpdateWhere(UpdateWhere),
    ExplainUpdate(UpdateWhere),
    /// A delete of the row at one key.
    Delete { table: String, key: Literal },
    DeleteWhere(DeleteWhere),
    ExplainDelete(DeleteWhere),
    CreateTable { table: String, columns: Vec<ColumnDef>, if_not_exists: bool },
    CreateIndex { name: String, table: String, method: IndexMethod },
    AlterTable { table: String, action: AlterAction },
    ExplainAlterTable { table: String, action: AlterAction },
    DropTable { table: String, if_exists: bool, cascade: bool },
    ExplainDropTable { table: String, if_exists: bool, cascade: bool },
    DropIndex { name: String, if_exists: bool },
    Begin,
    Commit,
    Rollback,
    BeginBulk,
    EndBulk,
    /// A setting of the engine.
    SetLocal { name: String, value: Literal },
    /// A setting of the client, which changes nothing.
    SetGuc { name: String, value: String },
}

#[allow(inconsistent_fields)]
pub enum StmtV {
    Select(Box<SelectStmtV>),
    Explain(Box<SelectStmtV>),
    SessionRows(Seq<(SessionItemV, Option<Seq<char>>)>),
    Show(ShowV),
    Insert { table: Seq<char>, columns: Seq<Seq<char>>, rows: Seq<Seq<LiteralV>> },
    Update { table: Seq<char>, assignments: Seq<(Seq<char>, LiteralV)>, key: LiteralV },
    UpdateWhere(UpdateWhereV),
    ExplainUpdate(UpdateWhereV),
    Delete { table: Seq<char>, key: LiteralV },
    DeleteWhere(DeleteWhereV),
    ExplainDelete(DeleteWhereV),
    CreateTable { table: Seq<char>, columns: Seq<ColumnDefV>, if_not_exists: bool },
    CreateIndex { name: Seq<char>, table: Seq<char>, method: IndexMethodV },
    AlterTable { table: Seq<char>, action: AlterActionV },
    ExplainAlterTable { table: Seq<char>, action: AlterActionV },
    DropTable { table: Seq<char>, if_exists: bool, cascade: bool },
    ExplainDropTable { table: Seq<char>, if_exists: bool, cascade: bool },
    DropIndex { name: Seq<char>, if_exists: bool },
    Begin,
    Commit,
    Rollback,
    BeginBulk,
    EndBulk,
    SetLocal { name: Seq<char>, value: LiteralV },
    SetGuc { name: Seq<char>, value: Seq<char> },
}

impl DeepView for Stmt {
    type V = StmtV;

    open spec fn deep_view(&self) -> StmtV {
        match *self {
            Stmt::Select(s) => StmtV::Select(Box::new(s.deep_view())),
            Stmt::Explain(s) => StmtV::Explain(Box::new(s.deep_view())),
            Stmt::SessionRows(items) => StmtV::SessionRows(items.deep_view()),
            Stmt::Show(s) => StmtV::Show(s.deep_view()),
            Stmt::Insert { table, columns, rows } => StmtV::Insert {
                table: table@,
                columns: columns.deep_view(),
                rows: rows.deep_view(),
            },
            Stmt::Update { table, assignments, key } => StmtV::Update {
                table: table@,
                assignments: assignments.deep_view(),
                key: key.deep_view(),
            },
            Stmt::UpdateWhere(u) => StmtV::UpdateWhere(u.deep_view()),
            Stmt::ExplainUpdate(u) => StmtV::ExplainUpdate(u.deep_view()),
            Stmt::Delete { table, key } => StmtV::Delete { table: table@, key: key.deep_view() },
            Stmt::DeleteWhere(d) => StmtV::DeleteWhere(d.deep_view()),
            Stmt::ExplainDelete(d) => StmtV::ExplainDelete(d.deep_view()),
            Stmt::CreateTable { table, columns, if_not_exists } => StmtV::CreateTable {
                table: table@,
                columns: columns.deep_view(),
                if_not_exists,
            },
            Stmt::CreateIndex { name, table, method } => StmtV::CreateIndex {
                name: name@,
                table: table@,
                method: method.deep_view(),
            },
            Stmt::AlterTable { table, action } => StmtV::AlterTable {
                table: table@,
                action: action.deep_view(),
            },
            Stmt::ExplainAlterTable { table, action } => StmtV::ExplainAlterTable {
                table: table@,
                action: action.deep_view(),
            },
            Stmt::DropTable { table, if_exists, cascade } => StmtV::DropTable {
                table: table@,
                if_exists,
                cascade,
            },
            Stmt::ExplainDropTable { table, if_exists, cascade } => StmtV::ExplainDropTable {
                table: table@,
                if_exists,
                cascade,
            },
            Stmt::DropIndex { name, if_exists } => StmtV::DropIndex { name: name@, if_exists },
            Stmt::Begin => StmtV::Begin,
            Stmt::Commit => StmtV::Commit,
            Stmt::Rollback => StmtV::Rollback,
            Stmt::BeginBulk => StmtV::BeginBulk,
            Stmt::EndBulk => StmtV::EndBulk,
            Stmt::SetLocal { name, value } => StmtV::SetLocal {
                name: name@,
                value: value.deep_view(),
            },
            Stmt::SetGuc { name, value } => StmtV::SetGuc { name: name@, value: value@ },
        }
    }
}

} // verus!
