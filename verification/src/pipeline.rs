use vstd::prelude::*;
use crate::expression::ExpressionPlan;
use crate::plan_node::Partition;
use crate::schema::{schema_view, DataField, DataSchemaRef};

verus! {

/// One unit of computation standing in a pipeline lane.
#[derive(PartialEq, Debug)]
pub enum Processor {
    /// Reads its own subset of a table's partitions; the sole fan-out
    /// point of a pipeline.
    Source { db: String, table: String, partitions: Vec<Partition> },
    /// Keeps the rows satisfying a predicate.
    Filter { predicate: ExpressionPlan },
    /// Projects each batch onto a target schema.
    Projection { schema: DataSchemaRef, expr: Vec<ExpressionPlan> },
    /// Computes per-lane partial aggregation state.
    AggregatePartial { schema: DataSchemaRef, aggr_expr: Vec<ExpressionPlan> },
    /// Combines collected partial states into final aggregated values.
    AggregateFinal { schema: DataSchemaRef, aggr_expr: Vec<ExpressionPlan> },
    /// Caps the number of rows passing through.
    Limit { n: usize },
    /// The fan-in synchronization point collapsing all lanes into one.
    Merge,
}

/// The mathematical model of a processor.
pub enum ProcessorView {
    Source { db: String, table: String, partitions: Seq<Partition> },
    Filter { predicate: ExpressionPlan },
    Projection { schema: Seq<DataField>, expr: Seq<ExpressionPlan> },
    AggregatePartial { schema: Seq<DataField>, aggr_expr: Seq<ExpressionPlan> },
    AggregateFinal { schema: Seq<DataField>, aggr_expr: Seq<ExpressionPlan> },
    Limit { n: usize },
    Merge,
}

/// The model of a processor.
pub open spec fn processor_view(p: Processor) -> ProcessorView {
    match p {
        Processor::Source { db, table, partitions } => ProcessorView::Source {
            db,
            table,
            partitions: partitions@,
        },
        Processor::Filter { predicate } => ProcessorView::Filter { predicate },
        Processor::Projection { schema, expr } => ProcessorView::Projection {
            schema: schema_view(schema),
            expr: expr@,
        },
        Processor::AggregatePartial { schema, aggr_expr } => ProcessorView::AggregatePartial {
            schema: schema_view(schema),
            aggr_expr: aggr_expr@,
        },
        Processor::AggregateFinal { schema, aggr_expr } => ProcessorView::AggregateFinal {
            schema: schema_view(schema),
            aggr_expr: aggr_expr@,
        },
        Processor::Limit { n } => ProcessorView::Limit { n },
        Processor::Merge => ProcessorView::Merge,
    }
}

/// The model of one lane: its processor chain.
pub open spec fn pipe_view(lane: Seq<Processor>) -> Seq<ProcessorView> {
    lane.map_values(|p: Processor| processor_view(p))
}

/// The model of a lane list.
pub open spec fn pipes_view(pipes: Seq<Vec<Processor>>) -> Seq<Seq<ProcessorView>> {
    pipes.map_values(|lane: Vec<Processor>| pipe_view(lane@))
}

impl Clone for Processor {
    fn clone(&self) -> (r: Self)
        ensures
            processor_view(r) == processor_view(*self),
    {
        match self {
            Processor::Source { db, table, partitions } => Processor::Source {
                db: db.clone(),
                table: table.clone(),
                partitions: crate::plan_node::clone_partitions(partitions),
            },
            Processor::Filter { predicate } => Processor::Filter { predicate: predicate.clone() },
            Processor::Projection { schema, expr } => Processor::Projection {
                schema: schema.clone(),
                expr: crate::expression::clone_expressions(expr),
            },
            Processor::AggregatePartial { schema, aggr_expr } => Processor::AggregatePartial {
                schema: schema.clone(),
                aggr_expr: crate::expression::clone_expressions(aggr_expr),
            },
            Processor::AggregateFinal { schema, aggr_expr } => Processor::AggregateFinal {
                schema: schema.clone(),
                aggr_expr: crate::expression::clone_expressions(aggr_expr),
            },
            Processor::Limit { n } => Processor::Limit { n: *n },
            Processor::Merge => Processor::Merge,
        }
    }
}

/// Copies one lane; the copy models the same processor chain.
fn clone_pipe(lane: &Vec<Processor>) -> (r: Vec<Processor>)
    ensures
        pipe_view(r@) == pipe_view(lane@),
{
    let r = lane.clone();
    proof {
        assert forall|j: int| 0 <= j < r@.len() implies processor_view(r@[j]) == processor_view(
            lane@[j],
        ) by {
            assert(cloned::<Processor>(lane@[j], r@[j]));
        }
        assert(pipe_view(r@) =~= pipe_view(lane@));
    }
    r
}

/// An executable unit: an ordered set of parallel lanes, each one a
/// sequential chain of processors. Lanes are mutated only while a
/// pipeline is compiled; afterwards its structure is fixed.
#[derive(Debug)]
pub struct Pipeline {
    pipes: Vec<Vec<Processor>>,
}

impl Pipeline {
    /// The model of the pipeline: its lanes, each one a processor chain.
    pub closed spec fn model(&self) -> Seq<Seq<ProcessorView>> {
        pipes_view(self.pipes@)
    }

    /// A pipeline with no lanes.
    pub fn create() -> (r: Pipeline)
        ensures
            r.model() == Seq::<Seq<ProcessorView>>::empty(),
    {
        let r = Pipeline { pipes: Vec::new() };
        proof {
            assert(r.model() =~= Seq::<Seq<ProcessorView>>::empty());
        }
        r
    }

    /// The number of current lanes.
    pub fn pipe_num(&self) -> (r: usize)
        ensures
            r == self.model().len(),
    {
        self.pipes.len()
    }

    /// The current lanes, for inspection.
    pub fn pipes(&self) -> (r: &Vec<Vec<Processor>>)
        ensures
            pipes_view(r@) == self.model(),
    {
        &self.pipes
    }

    /// Introduces a new lane whose sole upstream is the given source.
    pub fn add_source(&mut self, source: Processor)
        requires
            source is Source,
        ensures
            final(self).model() == old(self).model().push(seq![processor_view(source)]),
    {
        let ghost pre = self.pipes@;
        let mut lane: Vec<Processor> = Vec::new();
        lane.push(source);
        proof {
            assert(pipe_view(lane@) =~= seq![processor_view(source)]);
        }
        self.pipes.push(lane);
        proof {
            assert(pipes_view(self.pipes@) =~= pipes_view(pre).push(pipe_view(lane@)));
        }
    }

    /// Appends one freshly constructed instance of the given processor
    /// to the end of every current lane.
    pub fn add_simple_transform(&mut self, processor: Processor)
        ensures
            final(self).model() == old(self).model().map_values(
                |lane: Seq<ProcessorView>| lane.push(processor_view(processor)),
            ),
    {
        let ghost pv = processor_view(processor);
        let mut new_pipes: Vec<Vec<Processor>> = Vec::new();
        let mut i: usize = 0;
        while i < self.pipes.len()
            invariant
                i <= self.pipes@.len(),
                self.pipes@ == old(self).pipes@,
                pv == processor_view(processor),
                pipes_view(new_pipes@) == pipes_view(self.pipes@).take(i as int).map_values(
                    |lane: Seq<ProcessorView>| lane.push(pv),
                ),
            decreases self.pipes@.len() - i,
        {
            let ghost pre = new_pipes@;
            let mut lane = clone_pipe(&self.pipes[i]);
            lane.push(processor.clone());
            proof {
                assert(pipe_view(lane@) =~= pipe_view(self.pipes@[i as int]@).push(pv));
            }
            new_pipes.push(lane);
            proof {
                assert(pipes_view(new_pipes@) =~= pipes_view(pre).push(pipe_view(lane@)));
                assert(pipes_view(new_pipes@) =~= pipes_view(self.pipes@).take(
                    i as int + 1,
                ).map_values(|l: Seq<ProcessorView>| l.push(pv)));
            }
            i = i + 1;
        }
        proof {
            assert(pipes_view(self.pipes@).take(i as int) =~= pipes_view(self.pipes@));
        }
        self.pipes = new_pipes;
    }

    /// Collapses all current lanes into exactly one lane behind a fan-in
    /// processor: the single lane records, in order, the chains of the
    /// merged lanes, then the fan-in point. With one lane or none there
    /// is nothing to synchronize and the pipeline is left unchanged.
    pub fn merge_processor(&mut self)
        ensures
            old(self).model().len() > 1 ==> final(self).model() == seq![
                old(self).model().flatten().push(ProcessorView::Merge),
            ],
            old(self).model().len() <= 1 ==> final(self).model() == old(self).model(),
    {
        if self.pipes.len() > 1 {
            let mut merged: Vec<Processor> = Vec::new();
            let mut i: usize = 0;
            while i < self.pipes.len()
                invariant
                    i <= self.pipes@.len(),
                    self.pipes@ == old(self).pipes@,
                    pipe_view(merged@) == pipes_view(self.pipes@).take(i as int).flatten(),
                decreases self.pipes@.len() - i,
            {
                let ghost pre = merged@;
                let mut lane = clone_pipe(&self.pipes[i]);
                merged.append(&mut lane);
                proof {
                    assert(pipe_view(merged@) =~= pipe_view(pre) + pipe_view(
                        self.pipes@[i as int]@,
                    ));
                    assert(pipes_view(self.pipes@).take(i as int + 1) =~= pipes_view(
                        self.pipes@,
                    ).take(i as int).push(pipe_view(self.pipes@[i as int]@)));
                    pipes_view(self.pipes@).take(i as int).lemma_flatten_push(
                        pipe_view(self.pipes@[i as int]@),
                    );
                }
                i = i + 1;
            }
            proof {
                assert(pipes_view(self.pipes@).take(i as int) =~= pipes_view(self.pipes@));
            }
            merged.push(Processor::Merge);
            let ghost merged_view = pipe_view(merged@);
            proof {
                assert(merged_view =~= pipes_view(self.pipes@).flatten().push(
                    ProcessorView::Merge,
                ));
            }
            let mut new_pipes: Vec<Vec<Processor>> = Vec::new();
            new_pipes.push(merged);
            proof {
                assert(pipes_view(new_pipes@) =~= seq![merged_view]);
            }
            self.pipes = new_pipes;
        }
    }
}

} // verus!
