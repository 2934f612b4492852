use vstd::prelude::*;
use std::sync::Arc;
use crate::error::PlanError;
use crate::expression::ExpressionPlan;
use crate::plan_node::{
    plan_view, AggregatePlan, EmptyPlan, ExplainPlan, FilterPlan, LimitPlan, PlanNode, PlanView,
    ProjectionPlan, SelectPlan,
};
use crate::schema::DataSchema;

verus! {

/// The model of the base plan every builder starts from.
pub open spec fn empty_plan_view() -> PlanView {
    PlanView::Empty { schema: Seq::<crate::schema::DataField>::empty() }
}

/// One fold step of plan reconstruction: what appending one listed
/// operator does to the plan accumulated so far. Read-source and join
/// entries replace the base; `Empty`, `Scan` and `SetVariable` entries
/// are no-ops.
pub open spec fn builder_step(acc: PlanView, node: PlanView) -> Result<PlanView, PlanError> {
    match node {
        PlanView::Projection { expr, .. } => Ok(PlanView::Projection {
            input: Box::new(acc),
            expr,
        }),
        PlanView::Aggregate { group_expr, aggr_expr, .. } => if aggr_expr.len() >= 1 {
            Ok(PlanView::Aggregate { input: Box::new(acc), group_expr, aggr_expr })
        } else {
            Err(PlanError::AggregateWithoutExpressions)
        },
        PlanView::Filter { predicate, .. } => Ok(PlanView::Filter {
            input: Box::new(acc),
            predicate,
        }),
        PlanView::Limit { n, .. } => Ok(PlanView::Limit { input: Box::new(acc), n }),
        PlanView::ReadSource { .. } => Ok(node),
        PlanView::Join { .. } => Ok(node),
        PlanView::Explain { .. } => Ok(PlanView::Explain { plan: Box::new(acc) }),
        PlanView::Select { .. } => Ok(PlanView::Select { plan: Box::new(acc) }),
        PlanView::Empty { .. } => Ok(acc),
        PlanView::Scan { .. } => Ok(acc),
        PlanView::SetVariable { .. } => Ok(acc),
    }
}

/// The left fold of `builder_step` over an ordered operator list; the
/// first failing step aborts the fold.
pub open spec fn rebuild_spec(acc: PlanView, list: Seq<PlanView>) -> Result<PlanView, PlanError>
    decreases list.len(),
{
    if list.len() == 0 {
        Ok(acc)
    } else {
        match builder_step(acc, list[0]) {
            Ok(next) => rebuild_spec(next, list.drop_first()),
            Err(e) => Err(e),
        }
    }
}

/// Folding a list with one more operator at its end is one `builder_step`
/// after folding the list.
pub proof fn lemma_rebuild_snoc(acc: PlanView, list: Seq<PlanView>, node: PlanView)
    ensures
        rebuild_spec(acc, list.push(node)) == (match rebuild_spec(acc, list) {
            Ok(base) => builder_step(base, node),
            Err(e) => Err(e),
        }),
    decreases list.len(),
{
    if list.len() == 0 {
        assert(list.push(node)[0] == node);
        assert(list.push(node).drop_first() =~= Seq::<PlanView>::empty());
        assert(rebuild_spec(acc, list) == Ok::<PlanView, PlanError>(acc));
        match builder_step(acc, node) {
            Ok(next) => {
                assert(rebuild_spec(next, list.push(node).drop_first()) == Ok::<
                    PlanView,
                    PlanError,
                >(next));
            },
            Err(_) => {},
        }
    } else {
        assert(list.push(node)[0] == list[0]);
        assert(list.push(node).drop_first() =~= list.drop_first().push(node));
        match builder_step(acc, list[0]) {
            Ok(next) => {
                lemma_rebuild_snoc(next, list.drop_first(), node);
            },
            Err(_) => {},
        }
    }
}

/// A fluent accumulator that wraps logical operators around a base plan;
/// every method returns a new builder and leaves every plan it saw
/// untouched.
#[derive(Debug)]
pub struct PlanBuilder {
    plan: PlanNode,
}

impl PlanBuilder {
    /// The plan accumulated so far.
    pub closed spec fn model(&self) -> PlanView {
        plan_view(self.plan)
    }

    /// A builder over the empty base plan.
    pub fn empty() -> (r: PlanBuilder)
        ensures
            r.model() == empty_plan_view(),
    {
        PlanBuilder { plan: PlanNode::Empty(EmptyPlan { schema: DataSchema::empty() }) }
    }

    /// A builder over an existing plan.
    pub fn from(plan: &PlanNode) -> (r: PlanBuilder)
        ensures
            r.model() == plan_view(*plan),
    {
        PlanBuilder { plan: plan.clone() }
    }

    /// Wraps a projection over the accumulated plan.
    pub fn project(self, expr: Vec<ExpressionPlan>) -> (r: Result<PlanBuilder, PlanError>)
        ensures
            r matches Ok(b) && b.model() == (PlanView::Projection {
                input: Box::new(self.model()),
                expr: expr@,
            }),
    {
        Ok(PlanBuilder {
            plan: PlanNode::Projection(ProjectionPlan { input: Arc::new(self.plan), expr }),
        })
    }

    /// Wraps an aggregate over the accumulated plan; an aggregate needs
    /// at least one aggregate expression.
    pub fn aggregate(
        self,
        group_expr: Vec<ExpressionPlan>,
        aggr_expr: Vec<ExpressionPlan>,
    ) -> (r: Result<PlanBuilder, PlanError>)
        ensures
            aggr_expr@.len() >= 1 ==> (r matches Ok(b) && b.model() == (PlanView::Aggregate {
                input: Box::new(self.model()),
                group_expr: group_expr@,
                aggr_expr: aggr_expr@,
            })),
            aggr_expr@.len() == 0 ==> r == Err::<PlanBuilder, PlanError>(
                PlanError::AggregateWithoutExpressions,
            ),
    {
        if aggr_expr.len() == 0 {
            Err(PlanError::AggregateWithoutExpressions)
        } else {
            Ok(PlanBuilder {
                plan: PlanNode::Aggregate(AggregatePlan {
                    input: Arc::new(self.plan),
                    group_expr,
                    aggr_expr,
                }),
            })
        }
    }

    /// Wraps a filter over the accumulated plan.
    pub fn filter(self, predicate: ExpressionPlan) -> (r: Result<PlanBuilder, PlanError>)
        ensures
            r matches Ok(b) && b.model() == (PlanView::Filter {
                input: Box::new(self.model()),
                predicate,
            }),
    {
        Ok(PlanBuilder {
            plan: PlanNode::Filter(FilterPlan { input: Arc::new(self.plan), predicate }),
        })
    }

    /// Wraps a row cap over the accumulated plan.
    pub fn limit(self, n: usize) -> (r: Result<PlanBuilder, PlanError>)
        ensures
            r matches Ok(b) && b.model() == (PlanView::Limit { input: Box::new(self.model()), n }),
    {
        Ok(PlanBuilder { plan: PlanNode::Limit(LimitPlan { input: Arc::new(self.plan), n }) })
    }

    /// Marks the accumulated plan as the outermost select.
    pub fn select(self) -> (r: Result<PlanBuilder, PlanError>)
        ensures
            r matches Ok(b) && b.model() == (PlanView::Select { plan: Box::new(self.model()) }),
    {
        Ok(PlanBuilder { plan: PlanNode::Select(SelectPlan { plan: Arc::new(self.plan) }) })
    }

    /// Marks the accumulated plan as one to be explained.
    pub fn explain(self) -> (r: Result<PlanBuilder, PlanError>)
        ensures
            r matches Ok(b) && b.model() == (PlanView::Explain { plan: Box::new(self.model()) }),
    {
        Ok(PlanBuilder { plan: PlanNode::Explain(ExplainPlan { plan: Arc::new(self.plan) }) })
    }

    /// Finalizes the builder into the accumulated plan.
    pub fn build(self) -> (r: Result<PlanNode, PlanError>)
        ensures
            r matches Ok(p) && plan_view(p) == self.model(),
    {
        Ok(self.plan)
    }
}

} // verus!
