use std::sync::Arc;

use fuse_planner::error::{PlanError, PlanNodeKind};
use fuse_planner::expression::ExpressionPlan;
use fuse_planner::pipeline::Processor;
use fuse_planner::pipeline_builder::{PipelineBuilder, QueryContext};
use fuse_planner::plan_node::{
    AggregatePlan, FilterPlan, LimitPlan, Partition, PlanNode, ProjectionPlan,
    ReadDataSourcePlan, ScanPlan, Statistics,
};
use fuse_planner::schema::{DataField, DataSchema, DataSchemaRef, DataType};

fn sample_schema() -> DataSchemaRef {
    DataSchema::new(vec![DataField {
        name: "v".to_string(),
        data_type: DataType::Int64,
        nullable: false,
    }])
}

fn partitions(count: u64) -> Vec<Partition> {
    let mut parts = Vec::new();
    for i in 0..count {
        parts.push(Partition { name: format!("part-{}", i), version: 0 });
    }
    parts
}

fn read_source(part_count: u64) -> PlanNode {
    PlanNode::ReadSource(ReadDataSourcePlan {
        db: "default".to_string(),
        table: "t1".to_string(),
        schema: sample_schema(),
        partitions: partitions(part_count),
        statistics: Statistics { read_rows: 100, read_bytes: 4096 },
    })
}

fn compile(max_threads: usize, plan: PlanNode) -> Result<Vec<Vec<Processor>>, PlanError> {
    let builder = PipelineBuilder::create(QueryContext::create(max_threads), plan);
    builder.build().map(|pipeline| pipeline.pipes().clone())
}

fn source_partition_counts(lane: &[Processor]) -> Vec<usize> {
    lane.iter()
        .filter_map(|p| match p {
            Processor::Source { partitions, .. } => Some(partitions.len()),
            _ => None,
        })
        .collect()
}

fn count_matching(lane: &[Processor], f: impl Fn(&Processor) -> bool) -> usize {
    lane.iter().filter(|p| f(p)).count()
}

#[test]
fn ten_partitions_over_three_threads_fan_out_into_three_lanes() {
    let pipes = compile(3, read_source(10)).unwrap();
    // chunk size ceil(10 / 3) = 4: lanes of 4, 4 and 2 partitions, then
    // the final synchronization into one lane.
    assert_eq!(pipes.len(), 1);
    assert_eq!(source_partition_counts(&pipes[0]), vec![4, 4, 2]);
    assert_eq!(pipes[0].last(), Some(&Processor::Merge));
    assert_eq!(pipes[0].len(), 4);
}

#[test]
fn ten_partitions_over_a_zero_thread_budget_stay_in_one_lane() {
    let pipes = compile(0, read_source(10)).unwrap();
    // chunk size 10: a single lane carrying the whole partition list,
    // and nothing to synchronize afterwards.
    assert_eq!(pipes.len(), 1);
    assert_eq!(source_partition_counts(&pipes[0]), vec![10]);
    assert_eq!(count_matching(&pipes[0], |p| matches!(p, Processor::Merge)), 0);
}

#[test]
fn an_oversized_thread_budget_stays_in_one_lane() {
    let pipes = compile(8, read_source(4)).unwrap();
    assert_eq!(pipes.len(), 1);
    assert_eq!(source_partition_counts(&pipes[0]), vec![4]);
}

#[test]
fn source_lanes_carry_consecutive_partition_chunks() {
    let pipes = compile(3, read_source(10)).unwrap();
    let mut seen = Vec::new();
    for p in &pipes[0] {
        if let Processor::Source { db, table, partitions } = p {
            assert_eq!(db, "default");
            assert_eq!(table, "t1");
            seen.extend(partitions.iter().map(|part| part.name.clone()));
        }
    }
    let expected: Vec<String> = (0..10).map(|i| format!("part-{}", i)).collect();
    assert_eq!(seen, expected);
}

#[test]
fn zero_partitions_compile_to_zero_lanes() {
    let pipes = compile(4, read_source(0)).unwrap();
    assert_eq!(pipes.len(), 0);
}

#[test]
fn aggregate_over_four_lanes_is_two_phase() {
    // 8 partitions over 4 threads: chunk size 2, hence 4 source lanes.
    let plan = PlanNode::Aggregate(AggregatePlan {
        input: Arc::new(read_source(8)),
        group_expr: Vec::new(),
        aggr_expr: vec![ExpressionPlan::Field("v".to_string())],
    });
    let pipes = compile(4, plan).unwrap();
    assert_eq!(pipes.len(), 1);
    let lane = &pipes[0];
    // One partial stage per pre-merge lane, one fan-in point, then
    // exactly one final stage at the very end.
    assert_eq!(
        count_matching(lane, |p| matches!(p, Processor::AggregatePartial { .. })),
        4
    );
    assert_eq!(count_matching(lane, |p| matches!(p, Processor::Merge)), 1);
    assert_eq!(
        count_matching(lane, |p| matches!(p, Processor::AggregateFinal { .. })),
        1
    );
    assert!(matches!(lane[lane.len() - 1], Processor::AggregateFinal { .. }));
    assert!(matches!(lane[lane.len() - 2], Processor::Merge));
}

#[test]
fn aggregate_over_one_lane_still_has_both_phases() {
    let plan = PlanNode::Aggregate(AggregatePlan {
        input: Arc::new(read_source(2)),
        group_expr: Vec::new(),
        aggr_expr: vec![ExpressionPlan::Field("v".to_string())],
    });
    let pipes = compile(0, plan).unwrap();
    assert_eq!(pipes.len(), 1);
    let lane = &pipes[0];
    assert_eq!(
        count_matching(lane, |p| matches!(p, Processor::AggregatePartial { .. })),
        1
    );
    assert_eq!(
        count_matching(lane, |p| matches!(p, Processor::AggregateFinal { .. })),
        1
    );
    assert_eq!(count_matching(lane, |p| matches!(p, Processor::Merge)), 0);
}

#[test]
fn limit_over_three_lanes_caps_locally_then_globally() {
    // 9 partitions over 3 threads: chunk size 3, hence 3 source lanes.
    let plan = PlanNode::Limit(LimitPlan { input: Arc::new(read_source(9)), n: 5 });
    let pipes = compile(3, plan).unwrap();
    assert_eq!(pipes.len(), 1);
    let lane = &pipes[0];
    // One local cap per lane and exactly one global cap after the
    // fan-in point.
    assert_eq!(count_matching(lane, |p| matches!(p, Processor::Limit { n: 5 })), 4);
    assert_eq!(count_matching(lane, |p| matches!(p, Processor::Merge)), 1);
    assert!(matches!(lane[lane.len() - 1], Processor::Limit { n: 5 }));
    assert!(matches!(lane[lane.len() - 2], Processor::Merge));
}

#[test]
fn limit_over_one_lane_is_not_capped_twice() {
    let plan = PlanNode::Limit(LimitPlan { input: Arc::new(read_source(3)), n: 5 });
    let pipes = compile(0, plan).unwrap();
    assert_eq!(pipes.len(), 1);
    let lane = &pipes[0];
    assert_eq!(count_matching(lane, |p| matches!(p, Processor::Limit { n: 5 })), 1);
    assert_eq!(count_matching(lane, |p| matches!(p, Processor::Merge)), 0);
}

#[test]
fn filter_and_projection_extend_every_lane_without_fan_in() {
    let plan = PlanNode::Projection(ProjectionPlan {
        input: Arc::new(PlanNode::Filter(FilterPlan {
            input: Arc::new(read_source(4)),
            predicate: ExpressionPlan::Field("v".to_string()),
        })),
        expr: vec![ExpressionPlan::Field("v".to_string())],
    });
    let pipes = compile(2, plan).unwrap();
    // Two source lanes of two partitions each; every lane gets its own
    // filter and projection; the final synchronization makes one lane.
    assert_eq!(pipes.len(), 1);
    let lane = &pipes[0];
    assert_eq!(count_matching(lane, |p| matches!(p, Processor::Filter { .. })), 2);
    assert_eq!(count_matching(lane, |p| matches!(p, Processor::Projection { .. })), 2);
    assert_eq!(count_matching(lane, |p| matches!(p, Processor::Merge)), 1);
}

#[test]
fn a_bare_scan_fails_compilation_naming_the_scan() {
    let plan = PlanNode::Limit(LimitPlan {
        input: Arc::new(PlanNode::Scan(ScanPlan {
            schema_name: "default".to_string(),
            table_schema: sample_schema(),
        })),
        n: 5,
    });
    let err = compile(2, plan).unwrap_err();
    assert_eq!(err, PlanError::UnsupportedPipelineNode { kind: PlanNodeKind::Scan });
}

#[test]
fn a_plan_past_the_depth_bound_fails_compilation() {
    let mut plan = read_source(1);
    for _ in 0..129 {
        plan = PlanNode::Limit(LimitPlan { input: Arc::new(plan), n: 1 });
    }
    assert_eq!(compile(2, plan).unwrap_err(), PlanError::PlanTooDeep { max_depth: 128 });
}
