//! What a run of the indexing pipeline does to the two stores. A run is recorded
//! as the sequence of its steps; the stores change only where a step reports a
//! write that succeeded: a vector row added under the run's path, or the path
//! recorded in the catalog with itself as vector key.
use vstd::prelude::*;
use crate::content_extractor::is_extractable;
use crate::metadata_store::{catalog_after_record, lemma_record_leaves_one_row, rows_for_path, CatalogRow};
use crate::pipeline::{
    is_skipped, process_accepts, process_step, started, PipelineError, ProcessAction, ProcessEvent,
    ProcessRun, ProcessStage,
};
use crate::vector_store::{index_after_add, lemma_add_counts_once, rows_with_key, VectorStore};

verus! {

/// The contents of both stores as the properties below see them: the keys of the
/// vector rows in the order they were added, and the catalog rows.
pub struct Stores {
    pub index_keys: Seq<Seq<char>>,
    pub catalog: Seq<CatalogRow>,
}

/// Whether `steps` (each the event handed in, the run after it and the action
/// asked for) is a sequence of steps that a run in state `r` can take.
pub open spec fn valid_trace(r: ProcessRun, steps: Seq<(ProcessEvent, ProcessRun, ProcessAction)>) -> bool
    decreases steps.len(),
{
    steps.len() > 0 ==> {
        &&& process_accepts(r.stage, steps[0].0)
        &&& process_step(r, steps[0].0, steps[0].1, steps[0].2)
        &&& valid_trace(steps[0].1, steps.drop_first())
    }
}

/// The stores after the driver of a run on `path` reports `event`.
pub open spec fn event_effect(s: Stores, path: Seq<char>, event: ProcessEvent) -> Stores {
    match event {
        ProcessEvent::VectorStored(Ok(_)) => Stores {
            index_keys: index_after_add(s.index_keys, path),
            catalog: s.catalog,
        },
        ProcessEvent::FileRecorded(Ok(id)) => Stores {
            index_keys: s.index_keys,
            catalog: catalog_after_record(s.catalog, id as int, path, path),
        },
        _ => s,
    }
}

/// The stores after the steps of a run that was in state `r`.
pub open spec fn trace_effect(
    s: Stores,
    r: ProcessRun,
    steps: Seq<(ProcessEvent, ProcessRun, ProcessAction)>,
) -> Stores
    decreases steps.len(),
{
    if steps.len() == 0 {
        s
    } else {
        trace_effect(event_effect(s, r.file_path@, steps[0].0), steps[0].1, steps.drop_first())
    }
}

/// The catalog identity that a finishing action reports, if it reports one.
pub open spec fn indexed_id(a: ProcessAction) -> Option<i64> {
    match a {
        ProcessAction::Finish(Ok(resp)) => resp.file_id,
        _ => None,
    }
}

/// The stores after a run on `path` that stands at `stage` goes on to succeed with
/// catalog identity `id`.
spec fn rest_of_success(s: Stores, path: Seq<char>, stage: ProcessStage, id: i64) -> Stores {
    let stored = if stage == ProcessStage::RecordingFile {
        s.index_keys
    } else {
        index_after_add(s.index_keys, path)
    };
    Stores { index_keys: stored, catalog: catalog_after_record(s.catalog, id as int, path, path) }
}

proof fn lemma_successful_trace(
    r: ProcessRun,
    steps: Seq<(ProcessEvent, ProcessRun, ProcessAction)>,
    s: Stores,
)
    requires
        valid_trace(r, steps),
        steps.len() > 0,
        indexed_id(steps.last().2) is Some,
    ensures
        r.stage != ProcessStage::Finished,
        trace_effect(s, r, steps) == rest_of_success(
            s,
            r.file_path@,
            r.stage,
            indexed_id(steps.last().2)->Some_0,
        ),
    decreases steps.len(),
{
    let event = steps[0].0;
    let next = steps[0].1;
    let rest = steps.drop_first();
    let s1 = event_effect(s, r.file_path@, event);
    if steps.len() == 1 {
        assert(steps.last() == steps[0]);
        assert(rest.len() == 0);
        assert(trace_effect(s1, next, rest) == s1);
    } else {
        assert(rest.len() > 0);
        assert(rest.last() == steps.last());
        lemma_successful_trace(next, rest, s1);
    }
}

/// A run on a path that does not exist ends at once with `NotFound` and leaves
/// both stores as they were.
pub proof fn lemma_missing_path_touches_nothing(
    file_path: String,
    index: VectorStore,
    s: Stores,
    steps: Seq<(ProcessEvent, ProcessRun, ProcessAction)>,
)
    requires
        valid_trace(started(file_path, index), steps),
        steps.len() > 0,
        steps[0].0 == (ProcessEvent::PathChecked { exists: false }),
    ensures
        steps.len() == 1,
        steps[0].2 == ProcessAction::Finish(Err(PipelineError::NotFound(file_path))),
        trace_effect(s, started(file_path, index), steps) == s,
{
    let rest = steps.drop_first();
    assert(steps[0].1.stage == ProcessStage::Finished);
    assert(valid_trace(steps[0].1, rest));
    assert(rest.len() == 0);
    assert(trace_effect(s, steps[0].1, rest) == s);
}

/// A run on an existing path whose extension is not a text extension ends at once
/// as skipped, with no catalog identity and no vector key, and leaves both stores
/// as they were.
pub proof fn lemma_unrecognized_extension_is_skipped(
    file_path: String,
    index: VectorStore,
    s: Stores,
    steps: Seq<(ProcessEvent, ProcessRun, ProcessAction)>,
)
    requires
        valid_trace(started(file_path, index), steps),
        steps.len() > 0,
        steps[0].0 == (ProcessEvent::PathChecked { exists: true }),
        !is_extractable(file_path@),
    ensures
        steps.len() == 1,
        is_skipped(steps[0].2),
        trace_effect(s, started(file_path, index), steps) == s,
{
    let rest = steps.drop_first();
    assert(steps[0].1.stage == ProcessStage::Finished);
    assert(valid_trace(steps[0].1, rest));
    assert(rest.len() == 0);
    assert(trace_effect(s, steps[0].1, rest) == s);
}

/// Processing the same path twice, each time to success, leaves exactly one
/// catalog row for the path, the one the second run wrote, while the vector index
/// holds two more rows under the path than before: one from each run.
pub proof fn lemma_reprocessing_keeps_one_catalog_row(
    file_path: String,
    index: VectorStore,
    s: Stores,
    first: Seq<(ProcessEvent, ProcessRun, ProcessAction)>,
    second: Seq<(ProcessEvent, ProcessRun, ProcessAction)>,
)
    requires
        valid_trace(started(file_path, index), first),
        first.len() > 0,
        indexed_id(first.last().2) is Some,
        valid_trace(started(file_path, index), second),
        second.len() > 0,
        indexed_id(second.last().2) is Some,
    ensures
        ({
            let after = trace_effect(
                trace_effect(s, started(file_path, index), first),
                started(file_path, index),
                second,
            );
            &&& rows_for_path(after.catalog, file_path@) == 1
            &&& after.catalog.last() == (CatalogRow {
                id: indexed_id(second.last().2)->Some_0 as int,
                path: file_path@,
                vector_key: file_path@,
            })
            &&& rows_with_key(after.index_keys, file_path@) == rows_with_key(
                s.index_keys,
                file_path@,
            ) + 2
        }),
{
    let r0 = started(file_path, index);
    let p = file_path@;
    let id1 = indexed_id(first.last().2)->Some_0;
    let id2 = indexed_id(second.last().2)->Some_0;
    lemma_successful_trace(r0, first, s);
    let mid = trace_effect(s, r0, first);
    lemma_successful_trace(r0, second, mid);
    lemma_add_counts_once(s.index_keys, p);
    lemma_add_counts_once(mid.index_keys, p);
    lemma_record_leaves_one_row(mid.catalog, id2 as int, p, p);
}

/// Whether some step of `steps` handed in an embedding of length `len`.
pub open spec fn embeds_with_length(steps: Seq<(ProcessEvent, ProcessRun, ProcessAction)>, len: usize) -> bool {
    exists|i: int| 0 <= i < steps.len() && #[trigger] steps[i].0 == ProcessEvent::Embedded(Ok(len))
}

proof fn lemma_index_changes_only_after_admission(
    r: ProcessRun,
    steps: Seq<(ProcessEvent, ProcessRun, ProcessAction)>,
    s: Stores,
)
    requires
        valid_trace(r, steps),
    ensures
        trace_effect(s, r, steps).index_keys != s.index_keys ==> r.stage
            == ProcessStage::StoringVector || embeds_with_length(steps, r.index.dimension),
    decreases steps.len(),
{
    if steps.len() > 0 {
        let event = steps[0].0;
        let next = steps[0].1;
        let rest = steps.drop_first();
        let s1 = event_effect(s, r.file_path@, event);
        lemma_index_changes_only_after_admission(next, rest, s1);
        if trace_effect(s, r, steps).index_keys != s.index_keys && r.stage
            != ProcessStage::StoringVector {
            assert(s1.index_keys == s.index_keys);
            if next.stage == ProcessStage::StoringVector {
                assert(steps[0].0 == ProcessEvent::Embedded(Ok(r.index.dimension)));
            } else {
                let i = choose|i: int|
                    0 <= i < rest.len() && #[trigger] rest[i].0 == ProcessEvent::Embedded(
                        Ok(next.index.dimension),
                    );
                assert(steps[i + 1] == rest[i]);
            }
        }
    }
}

/// A run adds a row to the vector index only after the embedding service handed it a
/// vector of exactly the index's dimension: a vector of any other length is never
/// stored, neither cut nor padded.
pub proof fn lemma_only_admitted_vectors_are_stored(
    file_path: String,
    index: VectorStore,
    s: Stores,
    steps: Seq<(ProcessEvent, ProcessRun, ProcessAction)>,
)
    requires
        valid_trace(started(file_path, index), steps),
        trace_effect(s, started(file_path, index), steps).index_keys != s.index_keys,
    ensures
        embeds_with_length(steps, index.dimension),
{
    lemma_index_changes_only_after_admission(started(file_path, index), steps, s);
}

} // verus!
