use vstd::prelude::*;
use std::sync::Arc;
use sqlparser::ast::JoinOperator;
use crate::error::PlanError;
use crate::expression::ExpressionPlan;
use crate::plan_node::PlanNode;
use crate::schema::DataSchemaRef;

verus! {

/// The join kinds the planner supports.
#[derive(Clone, Copy, PartialEq, Eq, Structural, Debug)]
pub enum JoinType {
    Inner,
    LeftOuter,
    RightOuter,
    FullOuter,
    CrossJoin,
}

/// The shape of a source-language join operator, reduced to what the
/// planner decides on: one discriminant per supported operator form, and
/// `Other` for every remaining form (semi, anti, apply, and the rest).
#[derive(Clone, Copy, PartialEq, Eq, Structural, Debug)]
pub enum JoinOperatorKind {
    Inner,
    LeftOuter,
    RightOuter,
    FullOuter,
    CrossJoin,
    Other,
}

#[verifier::external_type_specification]
#[verifier::external_body]
pub struct ExJoinOperator(JoinOperator);

/// Relies on `sqlparser::ast::JoinOperator` being a plain enum: this body
/// only tells its variants apart, one arm per supported operator form.
#[verifier::external_body]
fn classify_join_operator(op: &JoinOperator) -> JoinOperatorKind {
    match op {
        JoinOperator::Inner(_) => JoinOperatorKind::Inner,
        JoinOperator::LeftOuter(_) => JoinOperatorKind::LeftOuter,
        JoinOperator::RightOuter(_) => JoinOperatorKind::RightOuter,
        JoinOperator::FullOuter(_) => JoinOperatorKind::FullOuter,
        JoinOperator::CrossJoin(_) => JoinOperatorKind::CrossJoin,
        _ => JoinOperatorKind::Other,
    }
}

impl JoinType {
    /// The supported mapping from operator kinds to join types; every
    /// unsupported kind is rejected, never silently degraded.
    pub open spec fn spec_from_kind(kind: JoinOperatorKind) -> Result<JoinType, PlanError> {
        match kind {
            JoinOperatorKind::Inner => Ok(JoinType::Inner),
            JoinOperatorKind::LeftOuter => Ok(JoinType::LeftOuter),
            JoinOperatorKind::RightOuter => Ok(JoinType::RightOuter),
            JoinOperatorKind::FullOuter => Ok(JoinType::FullOuter),
            JoinOperatorKind::CrossJoin => Ok(JoinType::CrossJoin),
            JoinOperatorKind::Other => Err(PlanError::UnsupportedJoinOperator { op_kind: kind }),
        }
    }

    /// Maps an operator kind to the join type it stands for, failing on
    /// every kind the planner does not support.
    pub fn try_from_kind(kind: JoinOperatorKind) -> (r: Result<JoinType, PlanError>)
        ensures
            r == JoinType::spec_from_kind(kind),
    {
        match kind {
            JoinOperatorKind::Inner => Ok(JoinType::Inner),
            JoinOperatorKind::LeftOuter => Ok(JoinType::LeftOuter),
            JoinOperatorKind::RightOuter => Ok(JoinType::RightOuter),
            JoinOperatorKind::FullOuter => Ok(JoinType::FullOuter),
            JoinOperatorKind::CrossJoin => Ok(JoinType::CrossJoin),
            JoinOperatorKind::Other => Err(PlanError::UnsupportedJoinOperator { op_kind: kind }),
        }
    }

    /// Maps a source-language join operator. Whatever the classification
    /// of the operator, the result is the supported mapping of some kind.
    pub fn try_from_operator(op: &JoinOperator) -> (r: Result<JoinType, PlanError>)
        ensures
            exists|kind: JoinOperatorKind| r == JoinType::spec_from_kind(kind),
    {
        let kind = classify_join_operator(op);
        let r = JoinType::try_from_kind(kind);
        proof {
            assert(r == JoinType::spec_from_kind(kind));
        }
        r
    }
}

/// A join of two shared input plans, with an explicit output schema:
/// combining two child schemas needs conflict resolution that delegation
/// cannot express.
#[derive(Debug)]
pub struct JoinPlan {
    pub lhs: Arc<PlanNode>,
    pub rhs: Arc<PlanNode>,
    pub join_type: JoinType,
    /// Conjunctive join conditions; an empty list means a natural or
    /// cross join.
    pub cnf_conditions: Vec<ExpressionPlan>,
    pub schema: DataSchemaRef,
}

impl Clone for JoinPlan {
    fn clone(&self) -> (r: Self)
        ensures
            r.lhs == self.lhs,
            r.rhs == self.rhs,
            r.join_type == self.join_type,
            r.cnf_conditions@ == self.cnf_conditions@,
            r.schema == self.schema,
    {
        JoinPlan {
            lhs: self.lhs.clone(),
            rhs: self.rhs.clone(),
            join_type: self.join_type,
            cnf_conditions: crate::expression::clone_expressions(&self.cnf_conditions),
            schema: self.schema.clone(),
        }
    }
}

impl JoinPlan {
    /// The explicit output schema of the join.
    pub fn schema(&self) -> (r: DataSchemaRef)
        ensures
            r == self.schema,
    {
        self.schema.clone()
    }

    /// Builds a join from an already classified operator kind; an
    /// unsupported kind fails here, at construction time.
    pub fn try_create(
        lhs: Arc<PlanNode>,
        rhs: Arc<PlanNode>,
        kind: JoinOperatorKind,
        cnf_conditions: Vec<ExpressionPlan>,
        schema: DataSchemaRef,
    ) -> (r: Result<JoinPlan, PlanError>)
        ensures
            match JoinType::spec_from_kind(kind) {
                Ok(t) => r matches Ok(j) && j.lhs == lhs && j.rhs == rhs && j.join_type == t
                    && j.cnf_conditions@ == cnf_conditions@ && j.schema == schema,
                Err(e) => r == Err::<JoinPlan, PlanError>(e),
            },
    {
        match JoinType::try_from_kind(kind) {
            Ok(join_type) => Ok(JoinPlan { lhs, rhs, join_type, cnf_conditions, schema }),
            Err(e) => Err(e),
        }
    }

    /// Builds a join from a source-language operator, classifying it
    /// first; an unsupported operator fails here, at construction time.
    pub fn try_create_from_operator(
        lhs: Arc<PlanNode>,
        rhs: Arc<PlanNode>,
        op: &JoinOperator,
        cnf_conditions: Vec<ExpressionPlan>,
        schema: DataSchemaRef,
    ) -> (r: Result<JoinPlan, PlanError>)
        ensures
            r matches Err(e) ==> e matches PlanError::UnsupportedJoinOperator { .. },
            r matches Ok(j) ==> j.lhs == lhs && j.rhs == rhs
                && j.cnf_conditions@ == cnf_conditions@ && j.schema == schema,
    {
        let kind = classify_join_operator(op);
        JoinPlan::try_create(lhs, rhs, kind, cnf_conditions, schema)
    }
}

} // verus!
