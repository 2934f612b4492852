use vstd::prelude::*;
use crate::error::{PlanError, PlanNodeKind};
use crate::expression::clone_expressions;
use crate::pipeline::{processor_view, Pipeline, Processor, ProcessorView};
use crate::plan_node::{
    lin_chain, lin_steps, plan_view, plan_views, schema_of, Partition, PlanNode, PlanView,
    MAX_PLAN_DEPTH,
};

verus! {

/// The compile-time surface of the execution context: the thread budget
/// that sizes fan-out at the read-source step.
#[derive(Clone, Copy, PartialEq, Eq, Structural, Debug)]
pub struct QueryContext {
    pub max_threads: usize,
}

impl QueryContext {
    pub fn create(max_threads: usize) -> (r: QueryContext)
        ensures
            r.max_threads == max_threads,
    {
        QueryContext { max_threads }
    }

    pub fn get_max_threads(&self) -> (r: usize)
        ensures
            r == self.max_threads,
    {
        self.max_threads
    }
}

/// Every lane extended by one instance of the given processor.
pub open spec fn extend_each(
    pipes: Seq<Seq<ProcessorView>>,
    p: ProcessorView,
) -> Seq<Seq<ProcessorView>> {
    pipes.map_values(|lane: Seq<ProcessorView>| lane.push(p))
}

/// What collapsing all lanes into one does to the lane list: more than
/// one lane becomes a single lane of their chains and a fan-in point;
/// one lane or none is already synchronized and stays as it is.
pub open spec fn merge_spec(pipes: Seq<Seq<ProcessorView>>) -> Seq<Seq<ProcessorView>> {
    if pipes.len() > 1 {
        seq![pipes.flatten().push(ProcessorView::Merge)]
    } else {
        pipes
    }
}

/// The partition-group size at the read-source step: the whole list for
/// a zero or over-large thread budget, else the list split over the
/// budget, rounded upward.
pub open spec fn chunk_size_spec(parts: nat, threads: nat) -> nat {
    if threads == 0 || threads >= parts {
        parts
    } else if parts % threads == 0 {
        parts / threads
    } else {
        parts / threads + 1
    }
}

/// The partition list split into consecutive chunks of the given size.
pub open spec fn chunks_spec(parts: Seq<Partition>, size: nat) -> Seq<Seq<Partition>>
    decreases parts.len(),
{
    if size == 0 || parts.len() == 0 {
        Seq::<Seq<Partition>>::empty()
    } else if parts.len() <= size {
        seq![parts]
    } else {
        seq![parts.take(size as int)] + chunks_spec(parts.skip(size as int), size)
    }
}

/// One new source lane per partition chunk.
pub open spec fn chunk_lanes(
    db: String,
    table: String,
    chunks: Seq<Seq<Partition>>,
) -> Seq<Seq<ProcessorView>> {
    chunks.map_values(
        |c: Seq<Partition>| seq![ProcessorView::Source { db, table, partitions: c }],
    )
}

/// The lanes the read-source step fans out into.
pub open spec fn source_lanes(
    db: String,
    table: String,
    parts: Seq<Partition>,
    threads: nat,
) -> Seq<Seq<ProcessorView>> {
    chunk_lanes(db, table, chunks_spec(parts, chunk_size_spec(parts.len(), threads)))
}

/// What compiling one listed operator does to the lane list. The
/// read-source step is the sole fan-out point; a row cap is applied per
/// lane and, where several lanes remain, globally again behind a fan-in
/// point; an aggregate is split into a per-lane partial stage and one
/// final stage behind a fan-in point; every other variant cannot stand
/// in a physical chain and fails, naming itself.
pub open spec fn pipeline_step(
    threads: nat,
    pipes: Seq<Seq<ProcessorView>>,
    node: PlanView,
) -> Result<Seq<Seq<ProcessorView>>, PlanError> {
    match node {
        PlanView::ReadSource { db, table, partitions, .. } => Ok(
            pipes + source_lanes(db, table, partitions, threads),
        ),
        PlanView::Filter { predicate, .. } => Ok(
            extend_each(pipes, ProcessorView::Filter { predicate }),
        ),
        PlanView::Projection { expr, .. } => match schema_of(node) {
            Ok(s) => Ok(extend_each(pipes, ProcessorView::Projection { schema: s, expr })),
            Err(e) => Err(e),
        },
        PlanView::Aggregate { aggr_expr, .. } => match schema_of(node) {
            Ok(s) => Ok(
                extend_each(
                    merge_spec(
                        extend_each(
                            pipes,
                            ProcessorView::AggregatePartial { schema: s, aggr_expr },
                        ),
                    ),
                    ProcessorView::AggregateFinal { schema: s, aggr_expr },
                ),
            ),
            Err(e) => Err(e),
        },
        PlanView::Limit { n, .. } => {
            let capped = extend_each(pipes, ProcessorView::Limit { n });
            if capped.len() > 1 {
                Ok(extend_each(merge_spec(capped), ProcessorView::Limit { n }))
            } else {
                Ok(capped)
            }
        },
        PlanView::Join { .. } => Err(PlanError::UnsupportedPipelineNode {
            kind: PlanNodeKind::Join,
        }),
        PlanView::Empty { .. } => Err(PlanError::UnsupportedPipelineNode {
            kind: PlanNodeKind::Empty,
        }),
        PlanView::Scan { .. } => Err(PlanError::UnsupportedPipelineNode {
            kind: PlanNodeKind::Scan,
        }),
        PlanView::Select { .. } => Err(PlanError::UnsupportedPipelineNode {
            kind: PlanNodeKind::Select,
        }),
        PlanView::Explain { .. } => Err(PlanError::UnsupportedPipelineNode {
            kind: PlanNodeKind::Explain,
        }),
        PlanView::SetVariable { .. } => Err(PlanError::UnsupportedPipelineNode {
            kind: PlanNodeKind::SetVariable,
        }),
    }
}

/// The left fold of `pipeline_step` over an ordered operator list; the
/// first failing step aborts compilation.
pub open spec fn build_list_spec(
    threads: nat,
    pipes: Seq<Seq<ProcessorView>>,
    list: Seq<PlanView>,
) -> Result<Seq<Seq<ProcessorView>>, PlanError>
    decreases list.len(),
{
    if list.len() == 0 {
        Ok(pipes)
    } else {
        match pipeline_step(threads, pipes, list[0]) {
            Ok(next) => build_list_spec(threads, next, list.drop_first()),
            Err(e) => Err(e),
        }
    }
}

/// The whole compilation: the physical chain of the plan, compiled leaf
/// to root from no lanes, then unconditionally synchronized so that the
/// pipeline ends in at most one lane.
pub open spec fn build_spec(threads: nat, root: PlanView) -> Result<
    Seq<Seq<ProcessorView>>,
    PlanError,
> {
    if lin_steps(root) > MAX_PLAN_DEPTH {
        Err(PlanError::PlanTooDeep { max_depth: MAX_PLAN_DEPTH })
    } else {
        match build_list_spec(
            threads,
            Seq::<Seq<ProcessorView>>::empty(),
            lin_chain(root, false).reverse(),
        ) {
            Ok(pipes) => Ok(merge_spec(pipes)),
            Err(e) => Err(e),
        }
    }
}

/// Fan-out law: with a group size of at least one, the partition list
/// splits into exactly its length divided by the group size, rounded
/// upward — the lane count of the read-source step.
pub proof fn lemma_chunk_count(parts: Seq<Partition>, size: nat)
    requires
        size >= 1,
    ensures
        chunks_spec(parts, size).len() == (parts.len() + size - 1) as int / size as int,
    decreases parts.len(),
{
    let x = parts.len() as int;
    let s = size as int;
    if parts.len() == 0 {
        assert((x + s - 1) / s == 0) by (nonlinear_arith)
            requires
                x == 0,
                s >= 1,
        ;
    } else if parts.len() <= size {
        assert((x + s - 1) / s == 1) by (nonlinear_arith)
            requires
                1 <= x,
                x <= s,
        ;
    } else {
        lemma_chunk_count(parts.skip(s), size);
        assert(parts.skip(s).len() == parts.len() - size);
        assert(1 + ((x - s) + s - 1) / s == (x + s - 1) / s) by (nonlinear_arith)
            requires
                s >= 1,
                x > s,
        ;
    }
}

/// Two-phase limiting law: over exactly one lane, a row cap adds one
/// local cap and nothing else — no fan-in point and no second cap; over
/// several lanes it adds one local cap per lane, then one fan-in point,
/// then exactly one global cap on the single resulting lane.
pub proof fn lemma_limit_two_stage(
    threads: nat,
    pipes: Seq<Seq<ProcessorView>>,
    input: Box<PlanView>,
    n: usize,
)
    ensures
        pipes.len() == 1 ==> pipeline_step(threads, pipes, PlanView::Limit { input, n })
            == Ok::<Seq<Seq<ProcessorView>>, PlanError>(
            seq![pipes[0].push(ProcessorView::Limit { n })],
        ),
        pipes.len() > 1 ==> pipeline_step(threads, pipes, PlanView::Limit { input, n })
            == Ok::<Seq<Seq<ProcessorView>>, PlanError>(
            seq![
                extend_each(pipes, ProcessorView::Limit { n }).flatten().push(
                    ProcessorView::Merge,
                ).push(ProcessorView::Limit { n }),
            ],
        ),
{
    let node = PlanView::Limit { input, n };
    let capped = extend_each(pipes, ProcessorView::Limit { n });
    if pipes.len() == 1 {
        assert(capped =~= seq![pipes[0].push(ProcessorView::Limit { n })]);
    }
    if pipes.len() > 1 {
        assert(extend_each(merge_spec(capped), ProcessorView::Limit { n }) =~= seq![
            capped.flatten().push(ProcessorView::Merge).push(ProcessorView::Limit { n }),
        ]);
    }
}

/// Two-phase aggregation law: whenever any lane exists, compiling an
/// aggregate leaves exactly one lane, ending in exactly one final stage;
/// with one lane the partial stage feeds the final stage directly, with
/// several lanes every lane gets its own partial stage and a single
/// fan-in point stands before the final stage.
pub proof fn lemma_aggregate_two_phase(
    threads: nat,
    pipes: Seq<Seq<ProcessorView>>,
    input: Box<PlanView>,
    group_expr: Seq<crate::expression::ExpressionPlan>,
    aggr_expr: Seq<crate::expression::ExpressionPlan>,
    s: Seq<crate::schema::DataField>,
)
    requires
        schema_of(*input) == Ok::<Seq<crate::schema::DataField>, PlanError>(s),
    ensures
        pipes.len() == 1 ==> pipeline_step(
            threads,
            pipes,
            PlanView::Aggregate { input, group_expr, aggr_expr },
        ) == Ok::<Seq<Seq<ProcessorView>>, PlanError>(
            seq![
                pipes[0].push(ProcessorView::AggregatePartial { schema: s, aggr_expr }).push(
                    ProcessorView::AggregateFinal { schema: s, aggr_expr },
                ),
            ],
        ),
        pipes.len() > 1 ==> pipeline_step(
            threads,
            pipes,
            PlanView::Aggregate { input, group_expr, aggr_expr },
        ) == Ok::<Seq<Seq<ProcessorView>>, PlanError>(
            seq![
                extend_each(
                    pipes,
                    ProcessorView::AggregatePartial { schema: s, aggr_expr },
                ).flatten().push(ProcessorView::Merge).push(
                    ProcessorView::AggregateFinal { schema: s, aggr_expr },
                ),
            ],
        ),
{
    let node = PlanView::Aggregate { input, group_expr, aggr_expr };
    assert(schema_of(node) == Ok::<Seq<crate::schema::DataField>, PlanError>(s));
    let partial = ProcessorView::AggregatePartial { schema: s, aggr_expr };
    let fin = ProcessorView::AggregateFinal { schema: s, aggr_expr };
    let stretched = extend_each(pipes, partial);
    if pipes.len() == 1 {
        assert(extend_each(merge_spec(stretched), fin) =~= seq![
            pipes[0].push(partial).push(fin),
        ]);
    }
    if pipes.len() > 1 {
        assert(extend_each(merge_spec(stretched), fin) =~= seq![
            stretched.flatten().push(ProcessorView::Merge).push(fin),
        ]);
    }
}

/// A bare scan leading the physical chain is rejected with the error
/// naming it.
pub proof fn lemma_scan_rejected(
    threads: nat,
    pipes: Seq<Seq<ProcessorView>>,
    list: Seq<PlanView>,
)
    requires
        list.len() >= 1,
        list[0] matches PlanView::Scan { .. },
    ensures
        build_list_spec(threads, pipes, list) == Err::<Seq<Seq<ProcessorView>>, PlanError>(
            PlanError::UnsupportedPipelineNode { kind: PlanNodeKind::Scan },
        ),
{
}

/// No operator list containing a bare scan ever compiles: the fold
/// fails at the scan, or at some step before it.
pub proof fn lemma_scan_never_compiles(
    threads: nat,
    pipes: Seq<Seq<ProcessorView>>,
    list: Seq<PlanView>,
)
    requires
        exists|i: int| 0 <= i < list.len() && ((#[trigger] list[i]) matches PlanView::Scan { .. }),
    ensures
        build_list_spec(threads, pipes, list) is Err,
    decreases list.len(),
{
    let i = choose|i: int| 0 <= i < list.len() && ((#[trigger] list[i]) matches PlanView::Scan { .. });
    if i == 0 {
        lemma_scan_rejected(threads, pipes, list);
    } else {
        match pipeline_step(threads, pipes, list[0]) {
            Ok(next) => {
                assert(list.drop_first()[i - 1] matches PlanView::Scan { .. });
                lemma_scan_never_compiles(threads, next, list.drop_first());
            },
            Err(_) => {},
        }
    }
}

/// The model of a compilation result.
pub open spec fn pipeline_result_view(r: Result<Pipeline, PlanError>) -> Result<
    Seq<Seq<ProcessorView>>,
    PlanError,
> {
    match r {
        Ok(p) => Ok(p.model()),
        Err(e) => Err(e),
    }
}

/// Compiles a plan into an executable, partition-parallel pipeline.
#[derive(Debug)]
pub struct PipelineBuilder {
    ctx: QueryContext,
    plan: PlanNode,
}

impl PipelineBuilder {
    /// The thread budget compilation sizes its fan-out with.
    pub closed spec fn threads(&self) -> nat {
        self.ctx.max_threads as nat
    }

    /// The model of the plan under compilation.
    pub closed spec fn plan_model(&self) -> PlanView {
        plan_view(self.plan)
    }

    pub fn create(ctx: QueryContext, plan: PlanNode) -> (r: PipelineBuilder)
        ensures
            r.threads() == ctx.max_threads as nat,
            r.plan_model() == plan_view(plan),
    {
        PipelineBuilder { ctx, plan }
    }

    /// Compiles the plan's physical chain, leaf to root, into a
    /// pipeline; no partial pipeline is ever returned.
    pub fn build(&self) -> (r: Result<Pipeline, PlanError>)
        ensures
            pipeline_result_view(r) == build_spec(self.threads(), self.plan_model()),
    {
        let ghost threads = self.threads();
        let ghost root = self.plan_model();
        let mut pipeline = Pipeline::create();
        let plans = match self.plan.subplan_to_list() {
            Ok(l) => l,
            Err(e) => {
                return Err(e);
            },
        };
        let ghost all = plan_views(plans@);
        proof {
            assert(all == lin_chain(root, false).reverse());
            assert(all.skip(0) =~= all);
        }
        let mut i: usize = 0;
        while i < plans.len()
            invariant
                i <= plans@.len(),
                threads == self.threads(),
                root == self.plan_model(),
                all == plan_views(plans@),
                lin_steps(root) <= MAX_PLAN_DEPTH,
                all == lin_chain(root, false).reverse(),
                build_list_spec(threads, Seq::<Seq<ProcessorView>>::empty(), all)
                    == build_list_spec(threads, pipeline.model(), all.skip(i as int)),
            decreases plans@.len() - i,
        {
            let ghost m0 = pipeline.model();
            proof {
                assert(all.skip(i as int)[0] == plan_view(plans@[i as int]));
                assert(all.skip(i as int).drop_first() =~= all.skip(i as int + 1));
            }
            let node = &plans[i];
            match node {
                PlanNode::Limit(v) => {
                    let ghost pv = ProcessorView::Limit { n: v.n };
                    pipeline.add_simple_transform(Processor::Limit { n: v.n });
                    proof {
                        assert(pipeline.model() =~= extend_each(m0, pv));
                    }
                    if pipeline.pipe_num() > 1 {
                        pipeline.merge_processor();
                        let ghost m2 = pipeline.model();
                        pipeline.add_simple_transform(Processor::Limit { n: v.n });
                        proof {
                            assert(m2 == merge_spec(extend_each(m0, pv)));
                            assert(pipeline.model() =~= extend_each(m2, pv));
                        }
                    }
                },
                PlanNode::Projection(v) => {
                    let s = match node.schema() {
                        Ok(s) => s,
                        Err(e) => {
                            return Err(e);
                        },
                    };
                    let ghost pv = ProcessorView::Projection {
                        schema: crate::schema::schema_view(s),
                        expr: v.expr@,
                    };
                    pipeline.add_simple_transform(Processor::Projection {
                        schema: s,
                        expr: clone_expressions(&v.expr),
                    });
                    proof {
                        assert(pipeline.model() =~= extend_each(m0, pv));
                    }
                },
                PlanNode::Filter(v) => {
                    let ghost pv = ProcessorView::Filter { predicate: v.predicate };
                    pipeline.add_simple_transform(Processor::Filter {
                        predicate: v.predicate.clone(),
                    });
                    proof {
                        assert(pipeline.model() =~= extend_each(m0, pv));
                    }
                },
                PlanNode::Aggregate(v) => {
                    let s = match node.schema() {
                        Ok(s) => s,
                        Err(e) => {
                            return Err(e);
                        },
                    };
                    let ghost sv = crate::schema::schema_view(s);
                    let ghost partial = ProcessorView::AggregatePartial {
                        schema: sv,
                        aggr_expr: v.aggr_expr@,
                    };
                    let ghost fin = ProcessorView::AggregateFinal {
                        schema: sv,
                        aggr_expr: v.aggr_expr@,
                    };
                    pipeline.add_simple_transform(Processor::AggregatePartial {
                        schema: s.clone(),
                        aggr_expr: clone_expressions(&v.aggr_expr),
                    });
                    proof {
                        assert(pipeline.model() =~= extend_each(m0, partial));
                    }
                    pipeline.merge_processor();
                    let ghost m2 = pipeline.model();
                    pipeline.add_simple_transform(Processor::AggregateFinal {
                        schema: s,
                        aggr_expr: clone_expressions(&v.aggr_expr),
                    });
                    proof {
                        assert(m2 == merge_spec(extend_each(m0, partial)));
                        assert(pipeline.model() =~= extend_each(m2, fin));
                    }
                },
                PlanNode::ReadSource(v) => {
                    let workers: usize = self.ctx.get_max_threads();
                    let parts_len: usize = v.partitions.len();
                    let ghost ps = v.partitions@;
                    if parts_len > 0 {
                        let chunk_size: usize = if workers == 0 || workers >= parts_len {
                            parts_len
                        } else if parts_len % workers == 0 {
                            parts_len / workers
                        } else {
                            proof {
                                assert(workers >= 2);
                                assert(parts_len / workers < parts_len) by (nonlinear_arith)
                                    requires
                                        2 <= workers,
                                        workers < parts_len,
                                ;
                            }
                            parts_len / workers + 1
                        };
                        proof {
                            if workers >= 1 && workers < parts_len {
                                assert(parts_len / workers >= 1) by (nonlinear_arith)
                                    requires
                                        1 <= workers,
                                        workers < parts_len,
                                ;
                            }
                            assert(chunk_size as nat == chunk_size_spec(ps.len(), threads));
                            assert(chunk_size >= 1);
                        }
                        let ghost cs = chunk_size as nat;
                        proof {
                            assert(ps.skip(0) =~= ps);
                        }
                        let mut k: usize = 0;
                        while k < parts_len
                            invariant
                                k <= parts_len,
                                parts_len == ps.len(),
                                ps == v.partitions@,
                                chunk_size >= 1,
                                cs == chunk_size as nat,
                                m0 + chunk_lanes(v.db, v.table, chunks_spec(ps, cs))
                                    == pipeline.model() + chunk_lanes(
                                    v.db,
                                    v.table,
                                    chunks_spec(ps.skip(k as int), cs),
                                ),
                            decreases parts_len - k,
                        {
                            let remaining: usize = parts_len - k;
                            let this_chunk: usize = if remaining > chunk_size {
                                chunk_size
                            } else {
                                remaining
                            };
                            let mut chunk: Vec<Partition> = Vec::new();
                            let mut j: usize = 0;
                            while j < this_chunk
                                invariant
                                    j <= this_chunk,
                                    k + this_chunk <= parts_len,
                                    parts_len == v.partitions@.len(),
                                    chunk@ == v.partitions@.subrange(
                                        k as int,
                                        k as int + j as int,
                                    ),
                                decreases this_chunk - j,
                            {
                                chunk.push(v.partitions[k + j].clone());
                                proof {
                                    assert(chunk@ =~= v.partitions@.subrange(
                                        k as int,
                                        k as int + j as int + 1,
                                    ));
                                }
                                j = j + 1;
                            }
                            let ghost m_pre = pipeline.model();
                            pipeline.add_source(Processor::Source {
                                db: v.db.clone(),
                                table: v.table.clone(),
                                partitions: chunk,
                            });
                            proof {
                                let rest = ps.skip(k as int);
                                let lane = seq![
                                    ProcessorView::Source {
                                        db: v.db,
                                        table: v.table,
                                        partitions: chunk@,
                                    },
                                ];
                                assert(pipeline.model() == m_pre.push(lane));
                                if rest.len() <= cs {
                                    assert(chunk@ =~= rest);
                                    assert(chunks_spec(rest, cs) == seq![rest]);
                                    assert(ps.skip(k as int + this_chunk as int) =~= Seq::<
                                        Partition,
                                    >::empty());
                                    assert(chunk_lanes(v.db, v.table, chunks_spec(rest, cs))
                                        =~= seq![lane]);
                                    assert(m_pre + seq![lane] =~= m_pre.push(lane) + chunk_lanes(
                                        v.db,
                                        v.table,
                                        chunks_spec(ps.skip(k as int + this_chunk as int), cs),
                                    ));
                                } else {
                                    assert(chunk@ =~= rest.take(cs as int));
                                    assert(rest.skip(cs as int) =~= ps.skip(
                                        k as int + this_chunk as int,
                                    ));
                                    assert(chunks_spec(rest, cs) == seq![rest.take(cs as int)]
                                        + chunks_spec(rest.skip(cs as int), cs));
                                    assert(chunk_lanes(v.db, v.table, chunks_spec(rest, cs))
                                        =~= seq![lane] + chunk_lanes(
                                        v.db,
                                        v.table,
                                        chunks_spec(rest.skip(cs as int), cs),
                                    ));
                                    assert(m_pre + (seq![lane] + chunk_lanes(
                                        v.db,
                                        v.table,
                                        chunks_spec(rest.skip(cs as int), cs),
                                    )) =~= m_pre.push(lane) + chunk_lanes(
                                        v.db,
                                        v.table,
                                        chunks_spec(rest.skip(cs as int), cs),
                                    ));
                                }
                            }
                            k = k + this_chunk;
                        }
                        proof {
                            assert(ps.skip(k as int) =~= Seq::<Partition>::empty());
                            assert(chunk_lanes(v.db, v.table, chunks_spec(ps.skip(k as int), cs))
                                =~= Seq::<Seq<ProcessorView>>::empty());
                            assert(pipeline.model() + Seq::<Seq<ProcessorView>>::empty()
                                =~= pipeline.model());
                            assert(pipeline.model() == m0 + source_lanes(
                                v.db,
                                v.table,
                                ps,
                                threads,
                            ));
                        }
                    } else {
                        proof {
                            assert(chunks_spec(ps, chunk_size_spec(ps.len(), threads))
                                =~= Seq::<Seq<Partition>>::empty());
                            assert(chunk_lanes(
                                v.db,
                                v.table,
                                Seq::<Seq<Partition>>::empty(),
                            ) =~= Seq::<Seq<ProcessorView>>::empty());
                            assert(m0 + source_lanes(v.db, v.table, ps, threads) =~= m0);
                        }
                    }
                },
                PlanNode::Join(_) => {
                    return Err(PlanError::UnsupportedPipelineNode { kind: PlanNodeKind::Join });
                },
                PlanNode::Empty(_) => {
                    return Err(PlanError::UnsupportedPipelineNode { kind: PlanNodeKind::Empty });
                },
                PlanNode::Scan(_) => {
                    return Err(PlanError::UnsupportedPipelineNode { kind: PlanNodeKind::Scan });
                },
                PlanNode::Select(_) => {
                    return Err(PlanError::UnsupportedPipelineNode {
                        kind: PlanNodeKind::Select,
                    });
                },
                PlanNode::Explain(_) => {
                    return Err(PlanError::UnsupportedPipelineNode {
                        kind: PlanNodeKind::Explain,
                    });
                },
                PlanNode::SetVariable(_) => {
                    return Err(PlanError::UnsupportedPipelineNode {
                        kind: PlanNodeKind::SetVariable,
                    });
                },
            }
            proof {
                assert(pipeline_step(threads, m0, all.skip(i as int)[0]) == Ok::<
                    Seq<Seq<ProcessorView>>,
                    PlanError,
                >(pipeline.model()));
                assert(build_list_spec(threads, m0, all.skip(i as int)) == build_list_spec(
                    threads,
                    pipeline.model(),
                    all.skip(i as int + 1),
                ));
            }
            i = i + 1;
        }
        proof {
            assert(all.skip(i as int) =~= Seq::<PlanView>::empty());
        }
        pipeline.merge_processor();
        Ok(pipeline)
    }
}

} // verus!
