use vstd::prelude::*;
use crate::plan_join::JoinOperatorKind;

verus! {

/// The discriminant of a plan node, one label per variant; used in
/// diagnostics and in errors that must name the offending node kind.
#[derive(Clone, Copy, PartialEq, Eq, Structural, Debug)]
pub enum PlanNodeKind {
    Empty,
    Scan,
    Projection,
    Aggregate,
    Filter,
    Limit,
    Join,
    ReadSource,
    Explain,
    Select,
    SetVariable,
}

/// Every failure of the planner core. Each variant carries the data a
/// caller needs to act on it: the violated bound, or the offending kind.
#[derive(Clone, Copy, PartialEq, Eq, Structural, Debug)]
pub enum PlanError {
    /// The linear chain of the plan tree exceeds the traversal bound.
    PlanTooDeep { max_depth: usize },
    /// Pipeline compilation met a node kind that cannot stand in a
    /// physical operator chain.
    UnsupportedPipelineNode { kind: PlanNodeKind },
    /// The output schema was requested on a variant for which it is
    /// explicitly not derivable.
    SchemaNotDerivable { kind: PlanNodeKind },
    /// A join was constructed from a source-language operator kind that
    /// has no counterpart among the supported join types.
    UnsupportedJoinOperator { op_kind: JoinOperatorKind },
    /// An aggregate requires at least one aggregate expression.
    AggregateWithoutExpressions,
}

} // verus!
