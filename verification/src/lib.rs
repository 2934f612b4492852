//! The logical-plan representation and physical-pipeline compiler of a
//! query engine: an immutable plan-node tree, its linearization into an
//! ordered operator list and back, and the compilation of such a list
//! into a partition-parallel processing pipeline.

pub mod error;
pub mod expression;
pub mod function_constant;
pub mod plan_builder;
pub mod pipeline;
pub mod pipeline_builder;
pub mod plan_join;
pub mod plan_node;
pub mod schema;
pub mod values;
