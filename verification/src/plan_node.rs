use vstd::prelude::*;
use std::sync::Arc;
use crate::error::{PlanError, PlanNodeKind};
use crate::expression::{clone_expressions, ExpressionPlan};
use crate::plan_join::{JoinPlan, JoinType};
use crate::schema::{schema_view, DataField, DataSchemaRef};

verus! {

/// A plan that produces no rows; the base every builder starts from.
#[derive(Debug)]
pub struct EmptyPlan {
    pub schema: DataSchemaRef,
}

/// A logical table scan, before a data source is bound to it.
#[derive(Debug)]
pub struct ScanPlan {
    pub schema_name: String,
    pub table_schema: DataSchemaRef,
}

/// Keeps a subset of the input's columns, or computed columns over them.
#[derive(Debug)]
pub struct ProjectionPlan {
    pub input: Arc<PlanNode>,
    pub expr: Vec<ExpressionPlan>,
}

/// Grouped aggregation over the input.
#[derive(Debug)]
pub struct AggregatePlan {
    pub input: Arc<PlanNode>,
    pub group_expr: Vec<ExpressionPlan>,
    pub aggr_expr: Vec<ExpressionPlan>,
}

/// Keeps the input rows satisfying a predicate.
#[derive(Debug)]
pub struct FilterPlan {
    pub input: Arc<PlanNode>,
    pub predicate: ExpressionPlan,
}

/// Caps the number of rows of the input.
#[derive(Debug)]
pub struct LimitPlan {
    pub input: Arc<PlanNode>,
    pub n: usize,
}

/// An opaque handle naming one independently readable chunk of a table.
#[derive(PartialEq, Debug)]
pub struct Partition {
    pub name: String,
    pub version: u64,
}

impl Clone for Partition {
    fn clone(&self) -> (r: Self)
        ensures
            r == *self,
    {
        Partition { name: self.name.clone(), version: self.version }
    }
}

/// Summary counts used for planning decisions.
#[derive(Clone, Copy, PartialEq, Eq, Structural, Debug)]
pub struct Statistics {
    pub read_rows: u64,
    pub read_bytes: u64,
}

/// A table bound to a data source: where fan-out into parallel lanes is
/// decided from the partition list.
#[derive(Debug)]
pub struct ReadDataSourcePlan {
    pub db: String,
    pub table: String,
    pub schema: DataSchemaRef,
    pub partitions: Vec<Partition>,
    pub statistics: Statistics,
}

/// A transparent wrapper marking a plan whose result is to be explained.
#[derive(Debug)]
pub struct ExplainPlan {
    pub plan: Arc<PlanNode>,
}

/// A transparent wrapper marking the outermost select.
#[derive(Debug)]
pub struct SelectPlan {
    pub plan: Arc<PlanNode>,
}

/// Sets a session variable; carries no derivable schema.
#[derive(Debug)]
pub struct SettingPlan {
    pub variable: String,
    pub value: String,
}

/// One logical operator of a query plan. Nodes are immutable and share
/// their inputs by reference counting: every modification builds a new
/// tree.
#[derive(Debug)]
pub enum PlanNode {
    Empty(EmptyPlan),
    Projection(ProjectionPlan),
    Aggregate(AggregatePlan),
    Filter(FilterPlan),
    Limit(LimitPlan),
    Scan(ScanPlan),
    Join(JoinPlan),
    ReadSource(ReadDataSourcePlan),
    Explain(ExplainPlan),
    Select(SelectPlan),
    SetVariable(SettingPlan),
}

/// The mathematical model of a plan tree: the same shape as `PlanNode`,
/// with sequences for the lists and with sharing forgotten.
#[verifier::ext_equal]
pub enum PlanView {
    Empty { schema: Seq<DataField> },
    Projection { input: Box<PlanView>, expr: Seq<ExpressionPlan> },
    Aggregate { input: Box<PlanView>, group_expr: Seq<ExpressionPlan>, aggr_expr: Seq<ExpressionPlan> },
    Filter { input: Box<PlanView>, predicate: ExpressionPlan },
    Limit { input: Box<PlanView>, n: usize },
    Scan { schema_name: String, table_schema: Seq<DataField> },
    Join {
        lhs: Box<PlanView>,
        rhs: Box<PlanView>,
        join_type: JoinType,
        cnf_conditions: Seq<ExpressionPlan>,
        schema: Seq<DataField>,
    },
    ReadSource {
        db: String,
        table: String,
        schema: Seq<DataField>,
        partitions: Seq<Partition>,
        statistics: Statistics,
    },
    Explain { plan: Box<PlanView> },
    Select { plan: Box<PlanView> },
    SetVariable { variable: String, value: String },
}

/// The model of a plan node.
pub open spec fn plan_view(p: PlanNode) -> PlanView
    decreases p,
{
    match p {
        PlanNode::Empty(v) => PlanView::Empty { schema: schema_view(v.schema) },
        PlanNode::Projection(v) => PlanView::Projection {
            input: Box::new(plan_view(*v.input)),
            expr: v.expr@,
        },
        PlanNode::Aggregate(v) => PlanView::Aggregate {
            input: Box::new(plan_view(*v.input)),
            group_expr: v.group_expr@,
            aggr_expr: v.aggr_expr@,
        },
        PlanNode::Filter(v) => PlanView::Filter {
            input: Box::new(plan_view(*v.input)),
            predicate: v.predicate,
        },
        PlanNode::Limit(v) => PlanView::Limit { input: Box::new(plan_view(*v.input)), n: v.n },
        PlanNode::Scan(v) => PlanView::Scan {
            schema_name: v.schema_name,
            table_schema: schema_view(v.table_schema),
        },
        PlanNode::Join(v) => PlanView::Join {
            lhs: Box::new(plan_view(*v.lhs)),
            rhs: Box::new(plan_view(*v.rhs)),
            join_type: v.join_type,
            cnf_conditions: v.cnf_conditions@,
            schema: schema_view(v.schema),
        },
        PlanNode::ReadSource(v) => PlanView::ReadSource {
            db: v.db,
            table: v.table,
            schema: schema_view(v.schema),
            partitions: v.partitions@,
            statistics: v.statistics,
        },
        PlanNode::Explain(v) => PlanView::Explain { plan: Box::new(plan_view(*v.plan)) },
        PlanNode::Select(v) => PlanView::Select { plan: Box::new(plan_view(*v.plan)) },
        PlanNode::SetVariable(v) => PlanView::SetVariable { variable: v.variable, value: v.value },
    }
}

/// The models of the nodes of a plan list.
pub open spec fn plan_views(s: Seq<PlanNode>) -> Seq<PlanView> {
    s.map_values(|p: PlanNode| plan_view(p))
}

impl Clone for PlanNode {
    fn clone(&self) -> (r: Self)
        ensures
            plan_view(r) == plan_view(*self),
    {
        match self {
            PlanNode::Empty(v) => PlanNode::Empty(EmptyPlan { schema: v.schema.clone() }),
            PlanNode::Projection(v) => PlanNode::Projection(ProjectionPlan {
                input: v.input.clone(),
                expr: clone_expressions(&v.expr),
            }),
            PlanNode::Aggregate(v) => PlanNode::Aggregate(AggregatePlan {
                input: v.input.clone(),
                group_expr: clone_expressions(&v.group_expr),
                aggr_expr: clone_expressions(&v.aggr_expr),
            }),
            PlanNode::Filter(v) => PlanNode::Filter(FilterPlan {
                input: v.input.clone(),
                predicate: v.predicate.clone(),
            }),
            PlanNode::Limit(v) => PlanNode::Limit(LimitPlan { input: v.input.clone(), n: v.n }),
            PlanNode::Scan(v) => PlanNode::Scan(ScanPlan {
                schema_name: v.schema_name.clone(),
                table_schema: v.table_schema.clone(),
            }),
            PlanNode::Join(v) => PlanNode::Join(v.clone()),
            PlanNode::ReadSource(v) => PlanNode::ReadSource(ReadDataSourcePlan {
                db: v.db.clone(),
                table: v.table.clone(),
                schema: v.schema.clone(),
                partitions: clone_partitions(&v.partitions),
                statistics: v.statistics,
            }),
            PlanNode::Explain(v) => PlanNode::Explain(ExplainPlan { plan: v.plan.clone() }),
            PlanNode::Select(v) => PlanNode::Select(SelectPlan { plan: v.plan.clone() }),
            PlanNode::SetVariable(v) => PlanNode::SetVariable(SettingPlan {
                variable: v.variable.clone(),
                value: v.value.clone(),
            }),
        }
    }
}

/// Copies a partition list; the copy holds the same partitions.
pub fn clone_partitions(partitions: &Vec<Partition>) -> (r: Vec<Partition>)
    ensures
        r@ == partitions@,
{
    let r = partitions.clone();
    proof {
        assert(r@ =~= partitions@);
    }
    r
}

impl PlanNode {
    /// The discriminant of this node.
    pub open spec fn spec_kind(&self) -> PlanNodeKind {
        match self {
            PlanNode::Empty(_) => PlanNodeKind::Empty,
            PlanNode::Projection(_) => PlanNodeKind::Projection,
            PlanNode::Aggregate(_) => PlanNodeKind::Aggregate,
            PlanNode::Filter(_) => PlanNodeKind::Filter,
            PlanNode::Limit(_) => PlanNodeKind::Limit,
            PlanNode::Scan(_) => PlanNodeKind::Scan,
            PlanNode::Join(_) => PlanNodeKind::Join,
            PlanNode::ReadSource(_) => PlanNodeKind::ReadSource,
            PlanNode::Explain(_) => PlanNodeKind::Explain,
            PlanNode::Select(_) => PlanNodeKind::Select,
            PlanNode::SetVariable(_) => PlanNodeKind::SetVariable,
        }
    }

    pub fn kind(&self) -> (r: PlanNodeKind)
        ensures
            r == self.spec_kind(),
    {
        match self {
            PlanNode::Empty(_) => PlanNodeKind::Empty,
            PlanNode::Projection(_) => PlanNodeKind::Projection,
            PlanNode::Aggregate(_) => PlanNodeKind::Aggregate,
            PlanNode::Filter(_) => PlanNodeKind::Filter,
            PlanNode::Limit(_) => PlanNodeKind::Limit,
            PlanNode::Scan(_) => PlanNodeKind::Scan,
            PlanNode::Join(_) => PlanNodeKind::Join,
            PlanNode::ReadSource(_) => PlanNodeKind::ReadSource,
            PlanNode::Explain(_) => PlanNodeKind::Explain,
            PlanNode::Select(_) => PlanNodeKind::Select,
            PlanNode::SetVariable(_) => PlanNodeKind::SetVariable,
        }
    }

    /// A stable label for each variant, for diagnostics.
    pub fn name(&self) -> (r: &'static str)
        ensures
            r@ == self.spec_name(),
    {
        proof {
            reveal_strlit("EmptyPlan");
            reveal_strlit("ProjectionPlan");
            reveal_strlit("AggregatePlan");
            reveal_strlit("FilterPlan");
            reveal_strlit("LimitPlan");
            reveal_strlit("ScanPlan");
            reveal_strlit("JoinPlan");
            reveal_strlit("ReadSourcePlan");
            reveal_strlit("ExplainPlan");
            reveal_strlit("SelectPlan");
            reveal_strlit("SetVariablePlan");
        }
        match self {
            PlanNode::Empty(_) => "EmptyPlan",
            PlanNode::Projection(_) => "ProjectionPlan",
            PlanNode::Aggregate(_) => "AggregatePlan",
            PlanNode::Filter(_) => "FilterPlan",
            PlanNode::Limit(_) => "LimitPlan",
            PlanNode::Scan(_) => "ScanPlan",
            PlanNode::Join(_) => "JoinPlan",
            PlanNode::ReadSource(_) => "ReadSourcePlan",
            PlanNode::Explain(_) => "ExplainPlan",
            PlanNode::Select(_) => "SelectPlan",
            PlanNode::SetVariable(_) => "SetVariablePlan",
        }
    }

    /// The label of each variant, as a character sequence.
    pub open spec fn spec_name(&self) -> Seq<char> {
        match self {
            PlanNode::Empty(_) => "EmptyPlan"@,
            PlanNode::Projection(_) => "ProjectionPlan"@,
            PlanNode::Aggregate(_) => "AggregatePlan"@,
            PlanNode::Filter(_) => "FilterPlan"@,
            PlanNode::Limit(_) => "LimitPlan"@,
            PlanNode::Scan(_) => "ScanPlan"@,
            PlanNode::Join(_) => "JoinPlan"@,
            PlanNode::ReadSource(_) => "ReadSourcePlan"@,
            PlanNode::Explain(_) => "ExplainPlan"@,
            PlanNode::Select(_) => "SelectPlan"@,
            PlanNode::SetVariable(_) => "SetVariablePlan"@,
        }
    }
}

/// The bound on the number of linear traversal steps through a plan
/// tree; it guards against pathological nesting.
pub const MAX_PLAN_DEPTH: usize = 128;

/// How many traversal steps linearization takes from a node to its
/// terminal: wrapping variants, transparent wrappers and joins each cost
/// one step; terminals cost none.
pub open spec fn lin_steps(p: PlanView) -> nat
    decreases p,
{
    match p {
        PlanView::Projection { input, .. } => 1 + lin_steps(*input),
        PlanView::Aggregate { input, .. } => 1 + lin_steps(*input),
        PlanView::Filter { input, .. } => 1 + lin_steps(*input),
        PlanView::Limit { input, .. } => 1 + lin_steps(*input),
        PlanView::Select { plan } => 1 + lin_steps(*plan),
        PlanView::Explain { plan } => 1 + lin_steps(*plan),
        PlanView::Join { lhs, .. } => 1 + lin_steps(*lhs),
        _ => 0,
    }
}

/// The operator list linearization collects, ordered outermost first:
/// wrapping variants are always collected; `Select`, `Explain` and
/// `Join` only when `with_parent` holds (a join contributes its left
/// input only); `Scan` and `ReadSource` terminate the walk and are
/// collected; `Empty` and `SetVariable` terminate it silently.
pub open spec fn lin_chain(p: PlanView, with_parent: bool) -> Seq<PlanView>
    decreases p,
{
    match p {
        PlanView::Projection { input, .. } => seq![p] + lin_chain(*input, with_parent),
        PlanView::Aggregate { input, .. } => seq![p] + lin_chain(*input, with_parent),
        PlanView::Filter { input, .. } => seq![p] + lin_chain(*input, with_parent),
        PlanView::Limit { input, .. } => seq![p] + lin_chain(*input, with_parent),
        PlanView::Select { plan } => (if with_parent {
            seq![p]
        } else {
            Seq::<PlanView>::empty()
        }) + lin_chain(*plan, with_parent),
        PlanView::Explain { plan } => (if with_parent {
            seq![p]
        } else {
            Seq::<PlanView>::empty()
        }) + lin_chain(*plan, with_parent),
        PlanView::Join { lhs, .. } => (if with_parent {
            seq![p]
        } else {
            Seq::<PlanView>::empty()
        }) + lin_chain(*lhs, with_parent),
        PlanView::Scan { .. } => seq![p],
        PlanView::ReadSource { .. } => seq![p],
        PlanView::Empty { .. } => Seq::<PlanView>::empty(),
        PlanView::SetVariable { .. } => Seq::<PlanView>::empty(),
    }
}

/// The output schema of a plan: leaf variants and joins carry it, the
/// wrapping variants delegate to their input, and the two variants whose
/// schema is unspecified fail loudly.
pub open spec fn schema_of(p: PlanView) -> Result<Seq<DataField>, PlanError>
    decreases p,
{
    match p {
        PlanView::Empty { schema } => Ok(schema),
        PlanView::Projection { input, .. } => schema_of(*input),
        PlanView::Aggregate { input, .. } => schema_of(*input),
        PlanView::Filter { input, .. } => schema_of(*input),
        PlanView::Limit { input, .. } => schema_of(*input),
        PlanView::Scan { table_schema, .. } => Ok(table_schema),
        PlanView::Join { schema, .. } => Ok(schema),
        PlanView::ReadSource { schema, .. } => Ok(schema),
        PlanView::Select { plan } => schema_of(*plan),
        PlanView::Explain { .. } => Err(PlanError::SchemaNotDerivable {
            kind: PlanNodeKind::Explain,
        }),
        PlanView::SetVariable { .. } => Err(PlanError::SchemaNotDerivable {
            kind: PlanNodeKind::SetVariable,
        }),
    }
}

/// The model of a schema result.
pub open spec fn schema_result_view(r: Result<DataSchemaRef, PlanError>) -> Result<
    Seq<DataField>,
    PlanError,
> {
    match r {
        Ok(s) => Ok(schema_view(s)),
        Err(e) => Err(e),
    }
}

/// The model of a plan result.
pub open spec fn plan_result_view(r: Result<PlanNode, PlanError>) -> Result<PlanView, PlanError> {
    match r {
        Ok(p) => Ok(plan_view(p)),
        Err(e) => Err(e),
    }
}

impl PlanNode {
    /// The output schema of this plan, or the failure for the two
    /// variants whose schema is explicitly not derivable.
    pub fn schema(&self) -> (r: Result<DataSchemaRef, PlanError>)
        ensures
            schema_result_view(r) == schema_of(plan_view(*self)),
        decreases *self,
    {
        match self {
            PlanNode::Empty(v) => Ok(v.schema.clone()),
            PlanNode::Projection(v) => v.input.schema(),
            PlanNode::Aggregate(v) => v.input.schema(),
            PlanNode::Filter(v) => v.input.schema(),
            PlanNode::Limit(v) => v.input.schema(),
            PlanNode::Scan(v) => Ok(v.table_schema.clone()),
            PlanNode::Join(v) => Ok(v.schema()),
            PlanNode::ReadSource(v) => Ok(v.schema.clone()),
            PlanNode::Select(v) => v.plan.schema(),
            PlanNode::Explain(_) => Err(PlanError::SchemaNotDerivable {
                kind: PlanNodeKind::Explain,
            }),
            PlanNode::SetVariable(_) => Err(PlanError::SchemaNotDerivable {
                kind: PlanNodeKind::SetVariable,
            }),
        }
    }

    /// Walks the single-input chain from this node, collecting the
    /// traversed operators leaf-to-root; a walk of more than
    /// `MAX_PLAN_DEPTH` steps fails and yields no partial list.
    fn build_plan_list(&self, with_parent: bool) -> (r: Result<Vec<PlanNode>, PlanError>)
        ensures
            lin_steps(plan_view(*self)) <= MAX_PLAN_DEPTH ==> (match r {
                Ok(list) => plan_views(list@) == lin_chain(
                    plan_view(*self),
                    with_parent,
                ).reverse(),
                Err(_) => false,
            }),
            lin_steps(plan_view(*self)) > MAX_PLAN_DEPTH ==> r == Err::<
                Vec<PlanNode>,
                PlanError,
            >(PlanError::PlanTooDeep { max_depth: MAX_PLAN_DEPTH }),
    {
        let ghost root = plan_view(*self);
        let mut depth: usize = 0;
        let mut list: Vec<PlanNode> = Vec::new();
        let mut plan: &PlanNode = self;
        loop
            invariant
                root == plan_view(*self),
                depth <= MAX_PLAN_DEPTH + 1,
                lin_steps(root) == depth + lin_steps(plan_view(*plan)),
                lin_chain(root, with_parent) == plan_views(list@) + lin_chain(
                    plan_view(*plan),
                    with_parent,
                ),
            decreases lin_steps(plan_view(*plan)),
        {
            if depth > MAX_PLAN_DEPTH {
                return Err(PlanError::PlanTooDeep { max_depth: MAX_PLAN_DEPTH });
            }
            let ghost pre = list@;
            let ghost cur = plan_view(*plan);
            match plan {
                PlanNode::Projection(v) => {
                    list.push(plan.clone());
                    proof {
                        assert(plan_views(list@) =~= plan_views(pre).push(cur));
                        assert(plan_views(pre).push(cur) + lin_chain(
                            plan_view(*v.input),
                            with_parent,
                        ) =~= plan_views(pre) + lin_chain(cur, with_parent));
                    }
                    plan = &*v.input;
                    depth = depth + 1;
                },
                PlanNode::Aggregate(v) => {
                    list.push(plan.clone());
                    proof {
                        assert(plan_views(list@) =~= plan_views(pre).push(cur));
                        assert(plan_views(pre).push(cur) + lin_chain(
                            plan_view(*v.input),
                            with_parent,
                        ) =~= plan_views(pre) + lin_chain(cur, with_parent));
                    }
                    plan = &*v.input;
                    depth = depth + 1;
                },
                PlanNode::Filter(v) => {
                    list.push(plan.clone());
                    proof {
                        assert(plan_views(list@) =~= plan_views(pre).push(cur));
                        assert(plan_views(pre).push(cur) + lin_chain(
                            plan_view(*v.input),
                            with_parent,
                        ) =~= plan_views(pre) + lin_chain(cur, with_parent));
                    }
                    plan = &*v.input;
                    depth = depth + 1;
                },
                PlanNode::Limit(v) => {
                    list.push(plan.clone());
                    proof {
                        assert(plan_views(list@) =~= plan_views(pre).push(cur));
                        assert(plan_views(pre).push(cur) + lin_chain(
                            plan_view(*v.input),
                            with_parent,
                        ) =~= plan_views(pre) + lin_chain(cur, with_parent));
                    }
                    plan = &*v.input;
                    depth = depth + 1;
                },
                PlanNode::Select(v) => {
                    if with_parent {
                        list.push(plan.clone());
                    }
                    proof {
                        if with_parent {
                            assert(plan_views(list@) =~= plan_views(pre).push(cur));
                        }
                        assert(plan_views(list@) + lin_chain(plan_view(*v.plan), with_parent)
                            =~= plan_views(pre) + lin_chain(cur, with_parent));
                    }
                    plan = &*v.plan;
                    depth = depth + 1;
                },
                PlanNode::Explain(v) => {
                    if with_parent {
                        list.push(plan.clone());
                    }
                    proof {
                        if with_parent {
                            assert(plan_views(list@) =~= plan_views(pre).push(cur));
                        }
                        assert(plan_views(list@) + lin_chain(plan_view(*v.plan), with_parent)
                            =~= plan_views(pre) + lin_chain(cur, with_parent));
                    }
                    plan = &*v.plan;
                    depth = depth + 1;
                },
                PlanNode::Join(v) => {
                    if with_parent {
                        list.push(plan.clone());
                    }
                    proof {
                        if with_parent {
                            assert(plan_views(list@) =~= plan_views(pre).push(cur));
                        }
                        assert(plan_views(list@) + lin_chain(plan_view(*v.lhs), with_parent)
                            =~= plan_views(pre) + lin_chain(cur, with_parent));
                    }
                    plan = &*v.lhs;
                    depth = depth + 1;
                },
                PlanNode::Scan(_) => {
                    list.push(plan.clone());
                    proof {
                        assert(plan_views(list@) =~= plan_views(pre).push(cur));
                        assert(plan_views(pre).push(cur) =~= plan_views(pre) + lin_chain(
                            cur,
                            with_parent,
                        ));
                        lemma_plan_views_reverse(list@);
                    }
                    return Ok(reverse_plans(list));
                },
                PlanNode::ReadSource(_) => {
                    list.push(plan.clone());
                    proof {
                        assert(plan_views(list@) =~= plan_views(pre).push(cur));
                        assert(plan_views(pre).push(cur) =~= plan_views(pre) + lin_chain(
                            cur,
                            with_parent,
                        ));
                        lemma_plan_views_reverse(list@);
                    }
                    return Ok(reverse_plans(list));
                },
                PlanNode::Empty(_) => {
                    proof {
                        assert(plan_views(list@) + lin_chain(cur, with_parent) =~= plan_views(
                            list@,
                        ));
                        lemma_plan_views_reverse(list@);
                    }
                    return Ok(reverse_plans(list));
                },
                PlanNode::SetVariable(_) => {
                    proof {
                        assert(plan_views(list@) + lin_chain(cur, with_parent) =~= plan_views(
                            list@,
                        ));
                        lemma_plan_views_reverse(list@);
                    }
                    return Ok(reverse_plans(list));
                },
            }
        }
    }

    /// The physical operator chain of this plan: its linearization with
    /// the transparent wrappers and joins left out.
    pub fn subplan_to_list(&self) -> (r: Result<Vec<PlanNode>, PlanError>)
        ensures
            lin_steps(plan_view(*self)) <= MAX_PLAN_DEPTH ==> (match r {
                Ok(list) => plan_views(list@) == lin_chain(plan_view(*self), false).reverse(),
                Err(_) => false,
            }),
            lin_steps(plan_view(*self)) > MAX_PLAN_DEPTH ==> r == Err::<
                Vec<PlanNode>,
                PlanError,
            >(PlanError::PlanTooDeep { max_depth: MAX_PLAN_DEPTH }),
    {
        self.build_plan_list(false)
    }

    /// The full linearization of this plan, transparent wrappers and
    /// joins included.
    pub fn plan_to_list(&self) -> (r: Result<Vec<PlanNode>, PlanError>)
        ensures
            lin_steps(plan_view(*self)) <= MAX_PLAN_DEPTH ==> (match r {
                Ok(list) => plan_views(list@) == lin_chain(plan_view(*self), true).reverse(),
                Err(_) => false,
            }),
            lin_steps(plan_view(*self)) > MAX_PLAN_DEPTH ==> r == Err::<
                Vec<PlanNode>,
                PlanError,
            >(PlanError::PlanTooDeep { max_depth: MAX_PLAN_DEPTH }),
    {
        self.build_plan_list(true)
    }

    /// Folds an ordered operator list, leaf first, back into a plan tree
    /// through a builder.
    pub fn plan_list_to_node(list: &Vec<PlanNode>) -> (r: Result<PlanNode, PlanError>)
        ensures
            plan_result_view(r) == crate::plan_builder::rebuild_spec(
                crate::plan_builder::empty_plan_view(),
                plan_views(list@),
            ),
    {
        let ghost all = plan_views(list@);
        let mut builder = crate::plan_builder::PlanBuilder::empty();
        let mut i: usize = 0;
        proof {
            assert(all.skip(0) =~= all);
        }
        while i < list.len()
            invariant
                i <= list@.len(),
                all == plan_views(list@),
                crate::plan_builder::rebuild_spec(crate::plan_builder::empty_plan_view(), all)
                    == crate::plan_builder::rebuild_spec(builder.model(), all.skip(i as int)),
            decreases list@.len() - i,
        {
            let ghost acc = builder.model();
            proof {
                assert(all.skip(i as int)[0] == plan_view(list@[i as int]));
                assert(all.skip(i as int).drop_first() =~= all.skip(i as int + 1));
            }
            let node = &list[i];
            match node {
                PlanNode::Projection(v) => {
                    builder = match builder.project(clone_expressions(&v.expr)) {
                        Ok(b) => b,
                        Err(e) => {
                            return Err(e);
                        },
                    };
                },
                PlanNode::Aggregate(v) => {
                    builder = match builder.aggregate(
                        clone_expressions(&v.group_expr),
                        clone_expressions(&v.aggr_expr),
                    ) {
                        Ok(b) => b,
                        Err(e) => {
                            proof {
                                assert(crate::plan_builder::builder_step(
                                    acc,
                                    all.skip(i as int)[0],
                                ) == Err::<PlanView, PlanError>(e));
                                assert(crate::plan_builder::rebuild_spec(
                                    acc,
                                    all.skip(i as int),
                                ) == Err::<PlanView, PlanError>(e));
                            }
                            return Err(e);
                        },
                    };
                },
                PlanNode::Filter(v) => {
                    builder = match builder.filter(v.predicate.clone()) {
                        Ok(b) => b,
                        Err(e) => {
                            return Err(e);
                        },
                    };
                },
                PlanNode::Limit(v) => {
                    builder = match builder.limit(v.n) {
                        Ok(b) => b,
                        Err(e) => {
                            return Err(e);
                        },
                    };
                },
                PlanNode::ReadSource(_) => {
                    builder = crate::plan_builder::PlanBuilder::from(node);
                },
                PlanNode::Join(_) => {
                    builder = crate::plan_builder::PlanBuilder::from(node);
                },
                PlanNode::Explain(_) => {
                    builder = match builder.explain() {
                        Ok(b) => b,
                        Err(e) => {
                            return Err(e);
                        },
                    };
                },
                PlanNode::Select(_) => {
                    builder = match builder.select() {
                        Ok(b) => b,
                        Err(e) => {
                            return Err(e);
                        },
                    };
                },
                PlanNode::Empty(_) => {},
                PlanNode::Scan(_) => {},
                PlanNode::SetVariable(_) => {},
            }
            proof {
                assert(crate::plan_builder::builder_step(acc, all.skip(i as int)[0]) == Ok::<
                    PlanView,
                    PlanError,
                >(builder.model()));
                assert(crate::plan_builder::rebuild_spec(acc, all.skip(i as int))
                    == crate::plan_builder::rebuild_spec(builder.model(), all.skip(i as int + 1)));
            }
            i = i + 1;
        }
        proof {
            assert(all.skip(i as int) =~= Seq::<PlanView>::empty());
        }
        builder.build()
    }
}

/// Reverses a plan list.
fn reverse_plans(list: Vec<PlanNode>) -> (r: Vec<PlanNode>)
    ensures
        r@ == list@.reverse(),
{
    let ghost all = list@;
    let mut src = list;
    let mut r: Vec<PlanNode> = Vec::new();
    while src.len() > 0
        invariant
            all == src@ + r@.reverse(),
        decreases src@.len(),
    {
        let ghost pre_src = src@;
        let ghost pre_r = r@;
        let node = src.pop().unwrap();
        r.push(node);
        proof {
            assert(r@.reverse() =~= seq![node] + pre_r.reverse());
            assert(src@ + r@.reverse() =~= pre_src + pre_r.reverse());
        }
    }
    proof {
        assert(r@.reverse().reverse() =~= r@);
        assert(all.reverse() =~= r@);
    }
    r
}

/// Reversing a plan list reverses its model.
proof fn lemma_plan_views_reverse(s: Seq<PlanNode>)
    ensures
        plan_views(s.reverse()) == plan_views(s).reverse(),
{
    assert(plan_views(s.reverse()) =~= plan_views(s).reverse());
}

/// The trees the round-trip law speaks of: wrapping variants only, over
/// a single read-source leaf, every aggregate carrying at least one
/// aggregate expression.
pub open spec fn wrap_chain_over_read_source(p: PlanView) -> bool
    decreases p,
{
    match p {
        PlanView::ReadSource { .. } => true,
        PlanView::Projection { input, .. } => wrap_chain_over_read_source(*input),
        PlanView::Aggregate { input, aggr_expr, .. } => aggr_expr.len() >= 1
            && wrap_chain_over_read_source(*input),
        PlanView::Filter { input, .. } => wrap_chain_over_read_source(*input),
        PlanView::Limit { input, .. } => wrap_chain_over_read_source(*input),
        _ => false,
    }
}

/// Round-trip law: for a tree built only from wrapping variants over a
/// single read-source leaf, folding its full linearization back through
/// the builder rebuilds the very same tree.
pub proof fn lemma_linearize_rebuild_round_trip(p: PlanView)
    requires
        wrap_chain_over_read_source(p),
    ensures
        crate::plan_builder::rebuild_spec(
            crate::plan_builder::empty_plan_view(),
            lin_chain(p, true).reverse(),
        ) == Ok::<PlanView, PlanError>(p),
    decreases p,
{
    let empty = crate::plan_builder::empty_plan_view();
    match p {
        PlanView::ReadSource { .. } => {
            assert(lin_chain(p, true) =~= seq![p]);
            assert(lin_chain(p, true).reverse() =~= seq![p]);
            assert(seq![p].drop_first() =~= Seq::<PlanView>::empty());
            assert(crate::plan_builder::builder_step(empty, p) == Ok::<PlanView, PlanError>(p));
            assert(crate::plan_builder::rebuild_spec(p, seq![p].drop_first()) == Ok::<
                PlanView,
                PlanError,
            >(p));
            assert(crate::plan_builder::rebuild_spec(empty, seq![p]) == Ok::<
                PlanView,
                PlanError,
            >(p));
        },
        PlanView::Projection { input, .. } => {
            lemma_linearize_rebuild_round_trip(*input);
            let tail = lin_chain(*input, true);
            assert(lin_chain(p, true).reverse() =~= tail.reverse().push(p));
            crate::plan_builder::lemma_rebuild_snoc(empty, tail.reverse(), p);
            assert(crate::plan_builder::builder_step(*input, p) == Ok::<PlanView, PlanError>(p));
        },
        PlanView::Aggregate { input, .. } => {
            lemma_linearize_rebuild_round_trip(*input);
            let tail = lin_chain(*input, true);
            assert(lin_chain(p, true).reverse() =~= tail.reverse().push(p));
            crate::plan_builder::lemma_rebuild_snoc(empty, tail.reverse(), p);
            assert(crate::plan_builder::builder_step(*input, p) == Ok::<PlanView, PlanError>(p));
        },
        PlanView::Filter { input, .. } => {
            lemma_linearize_rebuild_round_trip(*input);
            let tail = lin_chain(*input, true);
            assert(lin_chain(p, true).reverse() =~= tail.reverse().push(p));
            crate::plan_builder::lemma_rebuild_snoc(empty, tail.reverse(), p);
            assert(crate::plan_builder::builder_step(*input, p) == Ok::<PlanView, PlanError>(p));
        },
        PlanView::Limit { input, .. } => {
            lemma_linearize_rebuild_round_trip(*input);
            let tail = lin_chain(*input, true);
            assert(lin_chain(p, true).reverse() =~= tail.reverse().push(p));
            crate::plan_builder::lemma_rebuild_snoc(empty, tail.reverse(), p);
            assert(crate::plan_builder::builder_step(*input, p) == Ok::<PlanView, PlanError>(p));
        },
        _ => {},
    }
}

} // verus!
