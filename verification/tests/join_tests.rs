use std::sync::Arc;

use sqlparser::ast::{JoinConstraint, JoinOperator};

use fuse_planner::error::PlanError;
use fuse_planner::plan_join::{JoinOperatorKind, JoinPlan, JoinType};
use fuse_planner::plan_node::{Partition, PlanNode, ReadDataSourcePlan, Statistics};
use fuse_planner::schema::{DataField, DataSchema, DataSchemaRef, DataType};

fn sample_schema() -> DataSchemaRef {
    DataSchema::new(vec![DataField {
        name: "id".to_string(),
        data_type: DataType::UInt64,
        nullable: false,
    }])
}

fn read_source() -> Arc<PlanNode> {
    Arc::new(PlanNode::ReadSource(ReadDataSourcePlan {
        db: "default".to_string(),
        table: "t1".to_string(),
        schema: sample_schema(),
        partitions: vec![Partition { name: "part-0".to_string(), version: 0 }],
        statistics: Statistics { read_rows: 1, read_bytes: 16 },
    }))
}

#[test]
fn supported_kinds_map_to_their_join_types() {
    assert_eq!(JoinType::try_from_kind(JoinOperatorKind::Inner), Ok(JoinType::Inner));
    assert_eq!(JoinType::try_from_kind(JoinOperatorKind::LeftOuter), Ok(JoinType::LeftOuter));
    assert_eq!(JoinType::try_from_kind(JoinOperatorKind::RightOuter), Ok(JoinType::RightOuter));
    assert_eq!(JoinType::try_from_kind(JoinOperatorKind::FullOuter), Ok(JoinType::FullOuter));
    assert_eq!(JoinType::try_from_kind(JoinOperatorKind::CrossJoin), Ok(JoinType::CrossJoin));
}

#[test]
fn the_unsupported_kind_is_rejected() {
    assert_eq!(
        JoinType::try_from_kind(JoinOperatorKind::Other),
        Err(PlanError::UnsupportedJoinOperator { op_kind: JoinOperatorKind::Other })
    );
}

#[test]
fn supported_operators_map_through_classification() {
    assert_eq!(
        JoinType::try_from_operator(&JoinOperator::Inner(JoinConstraint::Natural)),
        Ok(JoinType::Inner)
    );
    assert_eq!(
        JoinType::try_from_operator(&JoinOperator::LeftOuter(JoinConstraint::None)),
        Ok(JoinType::LeftOuter)
    );
    assert_eq!(
        JoinType::try_from_operator(&JoinOperator::RightOuter(JoinConstraint::None)),
        Ok(JoinType::RightOuter)
    );
    assert_eq!(
        JoinType::try_from_operator(&JoinOperator::FullOuter(JoinConstraint::None)),
        Ok(JoinType::FullOuter)
    );
    assert_eq!(
        JoinType::try_from_operator(&JoinOperator::CrossJoin(JoinConstraint::None)),
        Ok(JoinType::CrossJoin)
    );
}

#[test]
fn unrecognized_operators_are_rejected_at_mapping_time() {
    for op in [
        JoinOperator::CrossApply,
        JoinOperator::OuterApply,
        JoinOperator::LeftSemi(JoinConstraint::Natural),
        JoinOperator::Anti(JoinConstraint::Natural),
        JoinOperator::Join(JoinConstraint::Natural),
    ] {
        assert_eq!(
            JoinType::try_from_operator(&op),
            Err(PlanError::UnsupportedJoinOperator { op_kind: JoinOperatorKind::Other })
        );
    }
}

#[test]
fn join_construction_fails_on_an_unrecognized_operator() {
    let result = JoinPlan::try_create_from_operator(
        read_source(),
        read_source(),
        &JoinOperator::CrossApply,
        Vec::new(),
        sample_schema(),
    );
    assert_eq!(
        result.unwrap_err(),
        PlanError::UnsupportedJoinOperator { op_kind: JoinOperatorKind::Other }
    );
}

#[test]
fn a_join_entry_replaces_the_rebuild_base() {
    let join = JoinPlan::try_create_from_operator(
        read_source(),
        read_source(),
        &JoinOperator::Inner(JoinConstraint::Natural),
        Vec::new(),
        sample_schema(),
    )
    .unwrap();
    let list = vec![PlanNode::Join(join)];
    let rebuilt = PlanNode::plan_list_to_node(&list).unwrap();
    match rebuilt {
        PlanNode::Join(j) => assert_eq!(j.join_type, JoinType::Inner),
        other => panic!("expected a join, got {}", other.name()),
    }
}

#[test]
fn join_construction_succeeds_on_a_supported_operator() {
    let join = JoinPlan::try_create_from_operator(
        read_source(),
        read_source(),
        &JoinOperator::Inner(JoinConstraint::Natural),
        Vec::new(),
        sample_schema(),
    )
    .unwrap();
    assert_eq!(join.join_type, JoinType::Inner);
    assert!(join.cnf_conditions.is_empty());
    assert_eq!(join.schema().fields.len(), 1);
}
