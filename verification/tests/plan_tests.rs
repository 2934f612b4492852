use std::sync::Arc;

use fuse_planner::error::{PlanError, PlanNodeKind};
use fuse_planner::expression::ExpressionPlan;
use fuse_planner::plan_builder::PlanBuilder;
use fuse_planner::plan_node::{
    AggregatePlan, ExplainPlan, FilterPlan, LimitPlan, Partition, PlanNode, ProjectionPlan,
    ReadDataSourcePlan, ScanPlan, SelectPlan, SettingPlan, Statistics,
};
use fuse_planner::schema::{DataField, DataSchema, DataSchemaRef, DataType};
use fuse_planner::values::DataValue;

fn sample_schema() -> DataSchemaRef {
    DataSchema::new(vec![
        DataField { name: "k".to_string(), data_type: DataType::Utf8, nullable: false },
        DataField { name: "v".to_string(), data_type: DataType::UInt64, nullable: true },
    ])
}

fn partitions(count: u64) -> Vec<Partition> {
    let mut parts = Vec::new();
    for i in 0..count {
        parts.push(Partition { name: format!("part-{}", i), version: 0 });
    }
    parts
}

fn read_source(part_count: u64) -> PlanNode {
    PlanNode::ReadSource(ReadDataSourcePlan {
        db: "default".to_string(),
        table: "t1".to_string(),
        schema: sample_schema(),
        partitions: partitions(part_count),
        statistics: Statistics { read_rows: 100, read_bytes: 4096 },
    })
}

fn wrap_limit(input: PlanNode, n: usize) -> PlanNode {
    PlanNode::Limit(LimitPlan { input: Arc::new(input), n })
}

fn wrap_filter(input: PlanNode) -> PlanNode {
    PlanNode::Filter(FilterPlan {
        input: Arc::new(input),
        predicate: ExpressionPlan::Field("k".to_string()),
    })
}

fn wrap_projection(input: PlanNode) -> PlanNode {
    PlanNode::Projection(ProjectionPlan {
        input: Arc::new(input),
        expr: vec![ExpressionPlan::Field("v".to_string())],
    })
}

fn wrap_aggregate(input: PlanNode) -> PlanNode {
    PlanNode::Aggregate(AggregatePlan {
        input: Arc::new(input),
        group_expr: vec![ExpressionPlan::Field("k".to_string())],
        aggr_expr: vec![ExpressionPlan::Field("v".to_string())],
    })
}

#[test]
fn name_gives_one_label_per_variant() {
    assert_eq!(read_source(1).name(), "ReadSourcePlan");
    assert_eq!(wrap_limit(read_source(1), 3).name(), "LimitPlan");
    assert_eq!(wrap_filter(read_source(1)).name(), "FilterPlan");
    assert_eq!(wrap_projection(read_source(1)).name(), "ProjectionPlan");
    assert_eq!(wrap_aggregate(read_source(1)).name(), "AggregatePlan");
    let scan = PlanNode::Scan(ScanPlan {
        schema_name: "default".to_string(),
        table_schema: sample_schema(),
    });
    assert_eq!(scan.name(), "ScanPlan");
    let setting = PlanNode::SetVariable(SettingPlan {
        variable: "max_threads".to_string(),
        value: "4".to_string(),
    });
    assert_eq!(setting.name(), "SetVariablePlan");
}

#[test]
fn wrapping_variants_delegate_schema_to_input() {
    let plan = wrap_limit(wrap_filter(wrap_projection(read_source(2))), 5);
    let schema = plan.schema().unwrap();
    assert_eq!(schema.fields.len(), 2);
    assert_eq!(schema.fields[0].name, "k");
    assert_eq!(schema.fields[1].data_type, DataType::UInt64);
}

#[test]
fn explain_schema_fails_loudly() {
    let plan = PlanNode::Explain(ExplainPlan { plan: Arc::new(read_source(1)) });
    assert_eq!(
        plan.schema().unwrap_err(),
        PlanError::SchemaNotDerivable { kind: PlanNodeKind::Explain }
    );
}

#[test]
fn set_variable_schema_fails_loudly() {
    let plan = PlanNode::SetVariable(SettingPlan {
        variable: "max_threads".to_string(),
        value: "4".to_string(),
    });
    assert_eq!(
        plan.schema().unwrap_err(),
        PlanError::SchemaNotDerivable { kind: PlanNodeKind::SetVariable }
    );
}

#[test]
fn subplan_list_skips_transparent_wrappers() {
    let inner = wrap_filter(read_source(1));
    let plan = PlanNode::Select(SelectPlan { plan: Arc::new(inner) });
    let list = plan.subplan_to_list().unwrap();
    assert_eq!(list.len(), 2);
    assert!(matches!(list[0], PlanNode::ReadSource(_)));
    assert!(matches!(list[1], PlanNode::Filter(_)));
}

#[test]
fn plan_list_keeps_transparent_wrappers() {
    let inner = wrap_filter(read_source(1));
    let plan = PlanNode::Select(SelectPlan { plan: Arc::new(inner) });
    let list = plan.plan_to_list().unwrap();
    assert_eq!(list.len(), 3);
    assert!(matches!(list[0], PlanNode::ReadSource(_)));
    assert!(matches!(list[1], PlanNode::Filter(_)));
    assert!(matches!(list[2], PlanNode::Select(_)));
}

#[test]
fn round_trip_rebuilds_the_same_tree() {
    let tree = wrap_limit(wrap_projection(wrap_aggregate(wrap_filter(read_source(3)))), 10);
    let list = tree.plan_to_list().unwrap();
    let rebuilt = PlanNode::plan_list_to_node(&list).unwrap();

    let limit = match &rebuilt {
        PlanNode::Limit(v) => v,
        other => panic!("expected a limit at the root, got {}", other.name()),
    };
    assert_eq!(limit.n, 10);
    let projection = match limit.input.as_ref() {
        PlanNode::Projection(v) => v,
        other => panic!("expected a projection, got {}", other.name()),
    };
    assert_eq!(projection.expr, vec![ExpressionPlan::Field("v".to_string())]);
    let aggregate = match projection.input.as_ref() {
        PlanNode::Aggregate(v) => v,
        other => panic!("expected an aggregate, got {}", other.name()),
    };
    assert_eq!(aggregate.group_expr, vec![ExpressionPlan::Field("k".to_string())]);
    assert_eq!(aggregate.aggr_expr, vec![ExpressionPlan::Field("v".to_string())]);
    let filter = match aggregate.input.as_ref() {
        PlanNode::Filter(v) => v,
        other => panic!("expected a filter, got {}", other.name()),
    };
    assert_eq!(filter.predicate, ExpressionPlan::Field("k".to_string()));
    let source = match filter.input.as_ref() {
        PlanNode::ReadSource(v) => v,
        other => panic!("expected a read source, got {}", other.name()),
    };
    assert_eq!(source.db, "default");
    assert_eq!(source.table, "t1");
    assert_eq!(source.partitions, partitions(3));
    assert_eq!(source.statistics, Statistics { read_rows: 100, read_bytes: 4096 });
}

#[test]
fn linearize_accepts_a_chain_of_exactly_the_bound() {
    let mut plan = read_source(1);
    for _ in 0..128 {
        plan = wrap_limit(plan, 1);
    }
    let list = plan.plan_to_list().unwrap();
    assert_eq!(list.len(), 129);
}

#[test]
fn linearize_rejects_a_chain_past_the_bound() {
    let mut plan = read_source(1);
    for _ in 0..129 {
        plan = wrap_limit(plan, 1);
    }
    assert_eq!(plan.plan_to_list().unwrap_err(), PlanError::PlanTooDeep { max_depth: 128 });
    assert_eq!(plan.subplan_to_list().unwrap_err(), PlanError::PlanTooDeep { max_depth: 128 });
}

#[test]
fn rebuild_of_an_empty_list_is_the_empty_plan() {
    let rebuilt = PlanNode::plan_list_to_node(&Vec::new()).unwrap();
    assert!(matches!(rebuilt, PlanNode::Empty(_)));
}

#[test]
fn rebuild_rejects_an_aggregate_without_aggregate_expressions() {
    let bare_aggregate = PlanNode::Aggregate(AggregatePlan {
        input: Arc::new(read_source(1)),
        group_expr: vec![ExpressionPlan::Field("k".to_string())],
        aggr_expr: Vec::new(),
    });
    let list = vec![read_source(1), bare_aggregate];
    assert_eq!(
        PlanNode::plan_list_to_node(&list).unwrap_err(),
        PlanError::AggregateWithoutExpressions
    );
}

#[test]
fn builder_rejects_an_aggregate_without_aggregate_expressions() {
    let builder = PlanBuilder::from(&read_source(1));
    let result = builder.aggregate(Vec::new(), Vec::new());
    assert_eq!(result.unwrap_err(), PlanError::AggregateWithoutExpressions);
}

#[test]
fn builder_wraps_operators_in_order() {
    let plan = PlanBuilder::from(&read_source(1))
        .filter(ExpressionPlan::Constant(DataValue::Boolean(true)))
        .unwrap()
        .limit(7)
        .unwrap()
        .select()
        .unwrap()
        .build()
        .unwrap();
    let select = match &plan {
        PlanNode::Select(v) => v,
        other => panic!("expected a select at the root, got {}", other.name()),
    };
    let limit = match select.plan.as_ref() {
        PlanNode::Limit(v) => v,
        other => panic!("expected a limit, got {}", other.name()),
    };
    assert_eq!(limit.n, 7);
    assert!(matches!(limit.input.as_ref(), PlanNode::Filter(_)));
}

#[test]
fn round_trip_keeps_an_explain_wrapper() {
    let plan = PlanNode::Explain(ExplainPlan { plan: Arc::new(wrap_limit(read_source(1), 2)) });
    let list = plan.plan_to_list().unwrap();
    let rebuilt = PlanNode::plan_list_to_node(&list).unwrap();
    let explain = match &rebuilt {
        PlanNode::Explain(v) => v,
        other => panic!("expected an explain at the root, got {}", other.name()),
    };
    assert!(matches!(explain.plan.as_ref(), PlanNode::Limit(_)));
}

#[test]
fn empty_plan_terminates_linearization_without_an_entry() {
    let plan = wrap_limit(PlanNode::Empty(fuse_planner::plan_node::EmptyPlan {
        schema: DataSchema::empty(),
    }), 4);
    let list = plan.plan_to_list().unwrap();
    assert_eq!(list.len(), 1);
    assert!(matches!(list[0], PlanNode::Limit(_)));
}
