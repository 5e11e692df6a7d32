//! The two operations of the indexing service as step functions: `ProcessRun`
//! takes a file from its path to a vector row and a catalog row, `QueryRun` takes a
//! query text to a ranked list of paths. Each step takes what the last action
//! brought back (an event) and names the next action. Whoever drives a run performs
//! each action (a file-system check, a read, a call to the embedding service, a
//! write to one of the stores) and hands the outcome back, until a `Finish` action
//! carries the result.
use vstd::prelude::*;
use crate::content_extractor::{is_extractable, should_extract};
use crate::ollama_client::OllamaError;
use crate::vector_store::{collect_hits, ranked, IndexError, IndexHit, SearchPlan, VectorStore};

verus! {

/// How many results a search returns when the request does not say.
pub const DEFAULT_TOP_K: usize = 5;

/// A request to index one file.
#[derive(Debug, Clone, PartialEq, Eq)]
pub struct ProcessFileRequest {
    pub file_path: String,
}

/// The result of indexing one file: a message, and the catalog identity and vector
/// key of the file where it was indexed (both absent where it was skipped).
#[derive(Debug, Clone, PartialEq, Eq)]
pub struct ProcessFileResponse {
    pub message: String,
    pub file_id: Option<i64>,
    pub vector_id: Option<String>,
}

/// A search request: the query text and how many results are wanted.
#[derive(Debug, Clone, PartialEq, Eq)]
pub struct SearchRequest {
    pub query: String,
    pub top_k: Option<usize>,
}

impl SearchRequest {
    /// The number of results asked for, `DEFAULT_TOP_K` where none is given.
    pub fn top_k_or_default(&self) -> (r: usize)
        ensures
            r == match self.top_k {
                Some(k) => k,
                None => DEFAULT_TOP_K,
            },
    {
        match self.top_k {
            Some(k) => k,
            None => DEFAULT_TOP_K,
        }
    }
}

/// Failures of either store.
#[derive(Debug, Clone, PartialEq, Eq)]
pub enum StorageError {
    /// The vector index refused the vector or failed.
    Index(IndexError),
    /// The catalog failed; the database's description of the failure.
    Catalog(String),
}

/// Failures of a pipeline operation.
#[derive(Debug, Clone, PartialEq, Eq)]
pub enum PipelineError {
    /// The path to process does not exist.
    NotFound(String),
    /// A recognized file could not be read.
    Extraction(String),
    /// The embedding service failed.
    Upstream(OllamaError),
    /// One of the stores failed. Where the catalog fails after the vector row was
    /// written, that row stays behind without a catalog row; it is not rolled back.
    Storage(StorageError),
}

/// The message of a file that was indexed.
pub open spec fn processed_message() -> Seq<char> {
    "File processed successfully"@
}

/// The message of a file that had no text to index.
pub open spec fn skipped_message() -> Seq<char> {
    "No text extracted or unsupported file type"@
}

/// Where a `ProcessRun` stands: the outcome of which action it waits for.
#[derive(Debug, Clone, Copy, PartialEq, Eq, Structural)]
pub enum ProcessStage {
    CheckingPath,
    ReadingText,
    Embedding,
    StoringVector,
    RecordingFile,
    Finished,
}

/// What an action of a `ProcessRun` brought back.
#[derive(Debug, PartialEq, Eq)]
pub enum ProcessEvent {
    /// Whether the path exists.
    PathChecked { exists: bool },
    /// The file's full text, or why it could not be read.
    TextRead(Result<String, String>),
    /// The length of the embedding computed for the text, or the service's failure.
    /// The embedding itself stays with the driver until it is stored.
    Embedded(Result<usize, OllamaError>),
    /// Whether the vector row was added.
    VectorStored(Result<(), IndexError>),
    /// The catalog identity of the file's row, or why it could not be written.
    FileRecorded(Result<i64, String>),
}

/// The next thing a `ProcessRun` needs done.
#[derive(Debug, PartialEq, Eq)]
pub enum ProcessAction {
    /// Find out whether the path exists.
    CheckPath(String),
    /// Read the whole file as text.
    ReadText(String),
    /// Compute the embedding of this text.
    Embed(String),
    /// Add one row to the vector index: this key with the embedding just computed.
    StoreVector { key: String },
    /// Record the path in the catalog with this vector key.
    RecordFile { path: String, vector_key: String },
    /// The run is over, with this result.
    Finish(Result<ProcessFileResponse, PipelineError>),
}

/// One indexing operation on one path.
#[derive(Debug)]
pub struct ProcessRun {
    pub file_path: String,
    pub index: VectorStore,
    pub stage: ProcessStage,
}

/// Which event a stage waits for.
pub open spec fn process_accepts(stage: ProcessStage, event: ProcessEvent) -> bool {
    match stage {
        ProcessStage::CheckingPath => event is PathChecked,
        ProcessStage::ReadingText => event is TextRead,
        ProcessStage::Embedding => event is Embedded,
        ProcessStage::StoringVector => event is VectorStored,
        ProcessStage::RecordingFile => event is FileRecorded,
        ProcessStage::Finished => false,
    }
}

/// The action that ends a run for a file with nothing to index.
pub open spec fn is_skipped(a: ProcessAction) -> bool {
    match a {
        ProcessAction::Finish(Ok(resp)) => resp.message@ == skipped_message() && resp.file_id is None
            && resp.vector_id is None,
        _ => false,
    }
}

/// The action that ends a run for a file indexed under catalog identity `id`.
pub open spec fn is_indexed(a: ProcessAction, id: i64, path: String) -> bool {
    match a {
        ProcessAction::Finish(Ok(resp)) => resp.message@ == processed_message() && resp.file_id
            == Some(id) && resp.vector_id == Some(path),
        _ => false,
    }
}

/// A run that has just started on `file_path`.
pub open spec fn started(file_path: String, index: VectorStore) -> ProcessRun {
    ProcessRun { file_path, index, stage: ProcessStage::CheckingPath }
}

/// One step of a run: from `r`, on `event`, the run becomes `next` and asks for `a`.
pub open spec fn process_step(
    r: ProcessRun,
    event: ProcessEvent,
    next: ProcessRun,
    a: ProcessAction,
) -> bool {
    let path = r.file_path;
    let done = next.stage == ProcessStage::Finished;
    &&& next.file_path == path
    &&& next.index == r.index
    &&& match event {
        ProcessEvent::PathChecked { exists } => if !exists {
            done && a == ProcessAction::Finish(Err(PipelineError::NotFound(path)))
        } else if !is_extractable(path@) {
            done && is_skipped(a)
        } else {
            next.stage == ProcessStage::ReadingText && a == ProcessAction::ReadText(path)
        },
        ProcessEvent::TextRead(Err(e)) => done && a == ProcessAction::Finish(
            Err(PipelineError::Extraction(e)),
        ),
        ProcessEvent::TextRead(Ok(text)) => if text@.len() == 0 {
            done && is_skipped(a)
        } else {
            next.stage == ProcessStage::Embedding && a == ProcessAction::Embed(text)
        },
        ProcessEvent::Embedded(Err(e)) => done && a == ProcessAction::Finish(
            Err(PipelineError::Upstream(e)),
        ),
        ProcessEvent::Embedded(Ok(len)) => if len != r.index.dimension {
            done && a == ProcessAction::Finish(
                Err(
                    PipelineError::Storage(
                        StorageError::Index(
                            IndexError::DimensionMismatch {
                                expected: r.index.dimension,
                                actual: len,
                            },
                        ),
                    ),
                ),
            )
        } else {
            next.stage == ProcessStage::StoringVector && a == ProcessAction::StoreVector {
                key: path,
            }
        },
        ProcessEvent::VectorStored(Err(e)) => done && a == ProcessAction::Finish(
            Err(PipelineError::Storage(StorageError::Index(e))),
        ),
        ProcessEvent::VectorStored(Ok(_)) => next.stage == ProcessStage::RecordingFile && a
            == ProcessAction::RecordFile { path, vector_key: path },
        ProcessEvent::FileRecorded(Err(e)) => done && a == ProcessAction::Finish(
            Err(PipelineError::Storage(StorageError::Catalog(e))),
        ),
        ProcessEvent::FileRecorded(Ok(id)) => done && is_indexed(a, id, path),
    }
}

fn skipped() -> (a: ProcessAction)
    ensures
        is_skipped(a),
{
    ProcessAction::Finish(
        Ok(
            ProcessFileResponse {
                message: String::from_str("No text extracted or unsupported file type"),
                file_id: None,
                vector_id: None,
            },
        ),
    )
}

fn copy_store(index: &VectorStore) -> (r: VectorStore)
    ensures
        r == *index,
{
    VectorStore { table_name: index.table_name.clone(), dimension: index.dimension }
}

impl ProcessRun {
    /// Starts indexing the file at `file_path` into `index`; the first action asks
    /// whether the path exists.
    pub fn start(file_path: String, index: &VectorStore) -> (r: (ProcessRun, ProcessAction))
        ensures
            r.0 == started(file_path, *index),
            r.1 == ProcessAction::CheckPath(file_path),
    {
        let a = ProcessAction::CheckPath(file_path.clone());
        (ProcessRun { file_path, index: copy_store(index), stage: ProcessStage::CheckingPath }, a)
    }

    /// Whether the run is over.
    pub fn is_finished(&self) -> (r: bool)
        ensures
            r == (self.stage == ProcessStage::Finished),
    {
        self.stage == ProcessStage::Finished
    }

    /// Whether `event` is what the run waits for.
    pub fn expects(&self, event: &ProcessEvent) -> (r: bool)
        ensures
            r == process_accepts(self.stage, *event),
    {
        match self.stage {
            ProcessStage::CheckingPath => matches!(event, ProcessEvent::PathChecked { .. }),
            ProcessStage::ReadingText => matches!(event, ProcessEvent::TextRead(_)),
            ProcessStage::Embedding => matches!(event, ProcessEvent::Embedded(_)),
            ProcessStage::StoringVector => matches!(event, ProcessEvent::VectorStored(_)),
            ProcessStage::RecordingFile => matches!(event, ProcessEvent::FileRecorded(_)),
            ProcessStage::Finished => false,
        }
    }

    /// Takes the outcome of the last action and names the next one.
    ///
    /// A missing path ends the run with `NotFound`; a path whose extension is not a
    /// text extension, or a file with empty text, ends it as skipped; a failed read,
    /// embedding, vector write or catalog write ends it with that failure; an
    /// embedding of the wrong length is refused before anything is written. No step
    /// undoes an earlier write.
    pub fn step(&mut self, event: ProcessEvent) -> (a: ProcessAction)
        requires
            process_accepts(old(self).stage, event),
        ensures
            process_step(*old(self), event, *final(self), a),
    {
        match event {
            ProcessEvent::PathChecked { exists } => {
                if !exists {
                    self.stage = ProcessStage::Finished;
                    ProcessAction::Finish(Err(PipelineError::NotFound(self.file_path.clone())))
                } else if !should_extract(self.file_path.as_str()) {
                    self.stage = ProcessStage::Finished;
                    skipped()
                } else {
                    self.stage = ProcessStage::ReadingText;
                    ProcessAction::ReadText(self.file_path.clone())
                }
            },
            ProcessEvent::TextRead(Err(e)) => {
                self.stage = ProcessStage::Finished;
                ProcessAction::Finish(Err(PipelineError::Extraction(e)))
            },
            ProcessEvent::TextRead(Ok(text)) => {
                if text.as_str().is_empty() {
                    self.stage = ProcessStage::Finished;
                    skipped()
                } else {
                    self.stage = ProcessStage::Embedding;
                    ProcessAction::Embed(text)
                }
            },
            ProcessEvent::Embedded(Err(e)) => {
                self.stage = ProcessStage::Finished;
                ProcessAction::Finish(Err(PipelineError::Upstream(e)))
            },
            ProcessEvent::Embedded(Ok(len)) => {
                match self.index.check_upsert(len) {
                    Err(e) => {
                        self.stage = ProcessStage::Finished;
                        ProcessAction::Finish(Err(PipelineError::Storage(StorageError::Index(e))))
                    },
                    Ok(()) => {
                        self.stage = ProcessStage::StoringVector;
                        ProcessAction::StoreVector { key: self.file_path.clone() }
                    },
                }
            },
            ProcessEvent::VectorStored(Err(e)) => {
                self.stage = ProcessStage::Finished;
                ProcessAction::Finish(Err(PipelineError::Storage(StorageError::Index(e))))
            },
            ProcessEvent::VectorStored(Ok(())) => {
                self.stage = ProcessStage::RecordingFile;
                ProcessAction::RecordFile {
                    path: self.file_path.clone(),
                    vector_key: self.file_path.clone(),
                }
            },
            ProcessEvent::FileRecorded(Err(e)) => {
                self.stage = ProcessStage::Finished;
                ProcessAction::Finish(Err(PipelineError::Storage(StorageError::Catalog(e))))
            },
            ProcessEvent::FileRecorded(Ok(id)) => {
                self.stage = ProcessStage::Finished;
                ProcessAction::Finish(
                    Ok(
                        ProcessFileResponse {
                            message: String::from_str("File processed successfully"),
                            file_id: Some(id),
                            vector_id: Some(self.file_path.clone()),
                        },
                    ),
                )
            },
        }
    }
}

/// Where a `QueryRun` stands.
#[derive(Debug, Clone, Copy, PartialEq, Eq, Structural)]
pub enum QueryStage {
    Embedding,
    Searching,
    Finished,
}

/// What an action of a `QueryRun` brought back.
#[derive(Debug, PartialEq, Eq)]
pub enum QueryEvent {
    /// The length of the query's embedding, or the service's failure. The embedding
    /// itself stays with the driver, which searches with it.
    Embedded(Result<usize, OllamaError>),
    /// The engine's result batches, nearest rows first, or its failure.
    Searched(Result<Vec<Vec<IndexHit>>, IndexError>),
}

/// The next thing a `QueryRun` needs done.
#[derive(Debug, PartialEq, Eq)]
pub enum QueryAction {
    /// Compute the embedding of the query text.
    Embed(String),
    /// Ask the vector index for at most `limit` rows nearest to the embedding.
    Search { limit: usize },
    /// The search is over: the rows found, nearest first, each key being a path
    /// and each distance its score.
    Finish(Result<Vec<IndexHit>, PipelineError>),
}

/// One search operation.
#[derive(Debug)]
pub struct QueryRun {
    pub top_k: usize,
    pub index: VectorStore,
    pub stage: QueryStage,
}

/// Which event a stage waits for.
pub open spec fn query_accepts(stage: QueryStage, event: QueryEvent) -> bool {
    match stage {
        QueryStage::Embedding => event is Embedded,
        QueryStage::Searching => event is Searched,
        QueryStage::Finished => false,
    }
}

/// The action that ends a search with exactly the rows `hits`.
pub open spec fn finds(a: QueryAction, hits: Seq<IndexHit>) -> bool {
    match a {
        QueryAction::Finish(Ok(found)) => found@ == hits,
        _ => false,
    }
}

/// One step of a search: from `r`, on `event`, the run becomes `next` and asks for `a`.
pub open spec fn query_step(r: QueryRun, event: QueryEvent, next: QueryRun, a: QueryAction) -> bool {
    let done = next.stage == QueryStage::Finished;
    &&& next.top_k == r.top_k
    &&& next.index == r.index
    &&& match event {
        QueryEvent::Embedded(Err(e)) => done && a == QueryAction::Finish(
            Err(PipelineError::Upstream(e)),
        ),
        QueryEvent::Embedded(Ok(len)) => if len != r.index.dimension {
            done && a == QueryAction::Finish(
                Err(
                    PipelineError::Storage(
                        StorageError::Index(
                            IndexError::DimensionMismatch {
                                expected: r.index.dimension,
                                actual: len,
                            },
                        ),
                    ),
                ),
            )
        } else if r.top_k == 0 {
            done && finds(a, Seq::empty())
        } else {
            next.stage == QueryStage::Searching && a == QueryAction::Search { limit: r.top_k }
        },
        QueryEvent::Searched(Err(e)) => done && a == QueryAction::Finish(
            Err(PipelineError::Storage(StorageError::Index(e))),
        ),
        QueryEvent::Searched(Ok(batches)) => done && finds(a, ranked(batches@, r.top_k as nat)),
    }
}

impl QueryRun {
    /// Starts a search of `index` for the `top_k` rows nearest to the meaning of
    /// `query`; the first action asks for the query's embedding.
    pub fn start(query: String, top_k: usize, index: &VectorStore) -> (r: (QueryRun, QueryAction))
        ensures
            r.0 == (QueryRun { top_k, index: *index, stage: QueryStage::Embedding }),
            r.1 == QueryAction::Embed(query),
    {
        (QueryRun { top_k, index: copy_store(index), stage: QueryStage::Embedding }, QueryAction::Embed(query))
    }

    /// Whether the run is over.
    pub fn is_finished(&self) -> (r: bool)
        ensures
            r == (self.stage == QueryStage::Finished),
    {
        self.stage == QueryStage::Finished
    }

    /// Whether `event` is what the run waits for.
    pub fn expects(&self, event: &QueryEvent) -> (r: bool)
        ensures
            r == query_accepts(self.stage, *event),
    {
        match self.stage {
            QueryStage::Embedding => matches!(event, QueryEvent::Embedded(_)),
            QueryStage::Searching => matches!(event, QueryEvent::Searched(_)),
            QueryStage::Finished => false,
        }
    }

    /// Takes the outcome of the last action and names the next one. The engine's
    /// rows come back in its order, at most `top_k` of them, with no re-ranking and
    /// no merging of rows that share a path.
    pub fn step(&mut self, event: QueryEvent) -> (a: QueryAction)
        requires
            query_accepts(old(self).stage, event),
        ensures
            query_step(*old(self), event, *final(self), a),
    {
        match event {
            QueryEvent::Embedded(Err(e)) => {
                self.stage = QueryStage::Finished;
                QueryAction::Finish(Err(PipelineError::Upstream(e)))
            },
            QueryEvent::Embedded(Ok(len)) => {
                match self.index.plan_search(len, self.top_k) {
                    Err(e) => {
                        self.stage = QueryStage::Finished;
                        QueryAction::Finish(Err(PipelineError::Storage(StorageError::Index(e))))
                    },
                    Ok(SearchPlan::Nothing) => {
                        self.stage = QueryStage::Finished;
                        QueryAction::Finish(Ok(Vec::new()))
                    },
                    Ok(SearchPlan::Query { limit }) => {
                        self.stage = QueryStage::Searching;
                        QueryAction::Search { limit }
                    },
                }
            },
            QueryEvent::Searched(Err(e)) => {
                self.stage = QueryStage::Finished;
                QueryAction::Finish(Err(PipelineError::Storage(StorageError::Index(e))))
            },
            QueryEvent::Searched(Ok(batches)) => {
                self.stage = QueryStage::Finished;
                QueryAction::Finish(Ok(collect_hits(batches, self.top_k)))
            },
        }
    }
}

} // verus!
