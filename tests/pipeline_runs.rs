use magic_core::ollama_client::OllamaError;
use magic_core::pipeline::{
    PipelineError, ProcessAction, ProcessEvent, ProcessFileResponse, ProcessRun, QueryAction,
    QueryEvent, QueryRun, SearchRequest, StorageError, DEFAULT_TOP_K,
};
use magic_core::vector_store::{IndexError, IndexHit, VectorStore};

fn index() -> VectorStore {
    VectorStore::new("files".to_string(), 768)
}

fn skipped_response() -> ProcessAction {
    ProcessAction::Finish(Ok(ProcessFileResponse {
        message: "No text extracted or unsupported file type".to_string(),
        file_id: None,
        vector_id: None,
    }))
}

/// Stores kept by the test, written as a driver of the pipeline writes them:
/// vector rows appended, catalog rows replaced by path or vector key.
struct TestStores {
    index_keys: Vec<String>,
    catalog: Vec<(i64, String, String)>,
    next_id: i64,
}

impl TestStores {
    fn new() -> Self {
        TestStores { index_keys: Vec::new(), catalog: Vec::new(), next_id: 1 }
    }

    /// Drives one run on `path` whose file holds `text`; embeddings have length `dim`.
    fn process(&mut self, path: &str, exists: bool, text: &str, dim: usize) -> ProcessAction {
        let (mut run, mut action) = ProcessRun::start(path.to_string(), &index());
        loop {
            let event = match &action {
                ProcessAction::CheckPath(_) => ProcessEvent::PathChecked { exists },
                ProcessAction::ReadText(_) => ProcessEvent::TextRead(Ok(text.to_string())),
                ProcessAction::Embed(_) => ProcessEvent::Embedded(Ok(dim)),
                ProcessAction::StoreVector { key } => {
                    self.index_keys.push(key.clone());
                    ProcessEvent::VectorStored(Ok(()))
                }
                ProcessAction::RecordFile { path, vector_key } => {
                    self.catalog.retain(|(_, p, k)| p != path && k != vector_key);
                    let id = self.next_id;
                    self.next_id += 1;
                    self.catalog.push((id, path.clone(), vector_key.clone()));
                    ProcessEvent::FileRecorded(Ok(id))
                }
                ProcessAction::Finish(_) => return action,
            };
            assert!(run.expects(&event));
            action = run.step(event);
        }
    }

    fn catalog_rows_for(&self, path: &str) -> usize {
        self.catalog.iter().filter(|(_, p, _)| p == path).count()
    }

    fn index_rows_for(&self, path: &str) -> usize {
        self.index_keys.iter().filter(|k| k.as_str() == path).count()
    }
}

#[test]
fn run_starts_by_checking_the_path() {
    let (run, action) = ProcessRun::start("a.txt".to_string(), &index());
    assert_eq!(action, ProcessAction::CheckPath("a.txt".to_string()));
    assert!(!run.is_finished());
    assert_eq!(run.file_path, "a.txt");
    assert_eq!(run.index, index());
}

#[test]
fn successful_run_asks_for_each_step_in_turn() {
    let (mut run, _) = ProcessRun::start("docs/a.md".to_string(), &index());
    assert_eq!(
        run.step(ProcessEvent::PathChecked { exists: true }),
        ProcessAction::ReadText("docs/a.md".to_string())
    );
    assert_eq!(
        run.step(ProcessEvent::TextRead(Ok("hello".to_string()))),
        ProcessAction::Embed("hello".to_string())
    );
    assert_eq!(
        run.step(ProcessEvent::Embedded(Ok(768))),
        ProcessAction::StoreVector { key: "docs/a.md".to_string() }
    );
    assert_eq!(
        run.step(ProcessEvent::VectorStored(Ok(()))),
        ProcessAction::RecordFile {
            path: "docs/a.md".to_string(),
            vector_key: "docs/a.md".to_string()
        }
    );
    assert_eq!(
        run.step(ProcessEvent::FileRecorded(Ok(42))),
        ProcessAction::Finish(Ok(ProcessFileResponse {
            message: "File processed successfully".to_string(),
            file_id: Some(42),
            vector_id: Some("docs/a.md".to_string()),
        }))
    );
    assert!(run.is_finished());
}

#[test]
fn missing_path_is_not_found_and_touches_no_store() {
    let mut stores = TestStores::new();
    let outcome = stores.process("/no/such/file.txt", false, "", 768);
    assert_eq!(
        outcome,
        ProcessAction::Finish(Err(PipelineError::NotFound("/no/such/file.txt".to_string())))
    );
    assert!(stores.index_keys.is_empty());
    assert!(stores.catalog.is_empty());
}

#[test]
fn unrecognized_extension_is_skipped_and_touches_no_store() {
    let mut stores = TestStores::new();
    let outcome = stores.process("photo.png", true, "binary", 768);
    assert_eq!(outcome, skipped_response());
    assert!(stores.index_keys.is_empty());
    assert!(stores.catalog.is_empty());
}

#[test]
fn empty_text_is_skipped_and_touches_no_store() {
    let mut stores = TestStores::new();
    let outcome = stores.process("empty.txt", true, "", 768);
    assert_eq!(outcome, skipped_response());
    assert!(stores.index_keys.is_empty());
    assert!(stores.catalog.is_empty());
}

#[test]
fn reprocessing_keeps_one_catalog_row_and_two_vector_rows() {
    let mut stores = TestStores::new();
    let first = stores.process("notes.md", true, "first version", 768);
    let second = stores.process("notes.md", true, "second version", 768);
    assert!(matches!(first, ProcessAction::Finish(Ok(ProcessFileResponse { file_id: Some(1), .. }))));
    assert!(matches!(second, ProcessAction::Finish(Ok(ProcessFileResponse { file_id: Some(2), .. }))));
    assert_eq!(stores.catalog_rows_for("notes.md"), 1);
    assert_eq!(stores.index_rows_for("notes.md"), 2);
    assert_eq!(stores.catalog, vec![(2, "notes.md".to_string(), "notes.md".to_string())]);
}

#[test]
fn embedding_of_wrong_length_is_refused_before_storing() {
    let mut stores = TestStores::new();
    let outcome = stores.process("notes.txt", true, "text", 1024);
    assert_eq!(
        outcome,
        ProcessAction::Finish(Err(PipelineError::Storage(StorageError::Index(
            IndexError::DimensionMismatch { expected: 768, actual: 1024 }
        ))))
    );
    assert!(stores.index_keys.is_empty());
    assert!(stores.catalog.is_empty());
}

#[test]
fn failures_end_the_run_with_their_kind() {
    let (mut run, _) = ProcessRun::start("a.txt".to_string(), &index());
    run.step(ProcessEvent::PathChecked { exists: true });
    assert_eq!(
        run.step(ProcessEvent::TextRead(Err("permission denied".to_string()))),
        ProcessAction::Finish(Err(PipelineError::Extraction("permission denied".to_string())))
    );

    let (mut run, _) = ProcessRun::start("a.txt".to_string(), &index());
    run.step(ProcessEvent::PathChecked { exists: true });
    run.step(ProcessEvent::TextRead(Ok("x".to_string())));
    assert_eq!(
        run.step(ProcessEvent::Embedded(Err(OllamaError::Reqwest("connection refused".to_string())))),
        ProcessAction::Finish(Err(PipelineError::Upstream(OllamaError::Reqwest(
            "connection refused".to_string()
        ))))
    );

    let (mut run, _) = ProcessRun::start("a.txt".to_string(), &index());
    run.step(ProcessEvent::PathChecked { exists: true });
    run.step(ProcessEvent::TextRead(Ok("x".to_string())));
    run.step(ProcessEvent::Embedded(Ok(768)));
    assert_eq!(
        run.step(ProcessEvent::VectorStored(Err(IndexError::Engine("disk full".to_string())))),
        ProcessAction::Finish(Err(PipelineError::Storage(StorageError::Index(
            IndexError::Engine("disk full".to_string())
        ))))
    );

    let (mut run, _) = ProcessRun::start("a.txt".to_string(), &index());
    run.step(ProcessEvent::PathChecked { exists: true });
    run.step(ProcessEvent::TextRead(Ok("x".to_string())));
    run.step(ProcessEvent::Embedded(Ok(768)));
    run.step(ProcessEvent::VectorStored(Ok(())));
    assert_eq!(
        run.step(ProcessEvent::FileRecorded(Err("database is locked".to_string()))),
        ProcessAction::Finish(Err(PipelineError::Storage(StorageError::Catalog(
            "database is locked".to_string()
        ))))
    );
    assert!(run.is_finished());
}

#[test]
fn run_expects_only_the_pending_event() {
    let (mut run, _) = ProcessRun::start("a.txt".to_string(), &index());
    assert!(run.expects(&ProcessEvent::PathChecked { exists: true }));
    assert!(!run.expects(&ProcessEvent::TextRead(Ok("x".to_string()))));
    run.step(ProcessEvent::PathChecked { exists: false });
    assert!(!run.expects(&ProcessEvent::PathChecked { exists: true }));
}

fn hit(key: &str, distance: f32) -> IndexHit {
    IndexHit { key: key.to_string(), distance_bits: distance.to_bits() }
}

#[test]
fn search_embeds_then_queries_with_top_k() {
    let (mut run, action) = QueryRun::start("rust vectors".to_string(), 3, &index());
    assert_eq!(action, QueryAction::Embed("rust vectors".to_string()));
    assert_eq!(run.step(QueryEvent::Embedded(Ok(768))), QueryAction::Search { limit: 3 });
    let batches = vec![vec![hit("a.md", 0.0), hit("a.md", 0.5)], vec![hit("b.txt", 0.75), hit("c.txt", 1.0)]];
    assert_eq!(
        run.step(QueryEvent::Searched(Ok(batches))),
        QueryAction::Finish(Ok(vec![hit("a.md", 0.0), hit("a.md", 0.5), hit("b.txt", 0.75)]))
    );
    assert!(run.is_finished());
}

#[test]
fn search_with_top_k_zero_is_empty() {
    let (mut run, _) = QueryRun::start("q".to_string(), 0, &index());
    assert_eq!(run.step(QueryEvent::Embedded(Ok(768))), QueryAction::Finish(Ok(Vec::new())));
}

#[test]
fn search_with_wrong_length_is_refused() {
    let (mut run, _) = QueryRun::start("q".to_string(), 5, &index());
    assert_eq!(
        run.step(QueryEvent::Embedded(Ok(1024))),
        QueryAction::Finish(Err(PipelineError::Storage(StorageError::Index(
            IndexError::DimensionMismatch { expected: 768, actual: 1024 }
        ))))
    );
}

#[test]
fn search_failures_keep_their_kind() {
    let (mut run, _) = QueryRun::start("q".to_string(), 5, &index());
    assert_eq!(
        run.step(QueryEvent::Embedded(Err(OllamaError::ApiError { status: 500, body: "boom".to_string() }))),
        QueryAction::Finish(Err(PipelineError::Upstream(OllamaError::ApiError {
            status: 500,
            body: "boom".to_string()
        })))
    );
    let (mut run, _) = QueryRun::start("q".to_string(), 5, &index());
    assert!(run.expects(&QueryEvent::Embedded(Ok(768))));
    assert!(!run.expects(&QueryEvent::Searched(Ok(Vec::new()))));
    run.step(QueryEvent::Embedded(Ok(768)));
    assert_eq!(
        run.step(QueryEvent::Searched(Err(IndexError::Engine("table missing".to_string())))),
        QueryAction::Finish(Err(PipelineError::Storage(StorageError::Index(IndexError::Engine(
            "table missing".to_string()
        )))))
    );
}

#[test]
fn search_request_defaults_to_five_results() {
    let req = SearchRequest { query: "q".to_string(), top_k: None };
    assert_eq!(req.top_k_or_default(), 5);
    assert_eq!(DEFAULT_TOP_K, 5);
    let req = SearchRequest { query: "q".to_string(), top_k: Some(2) };
    assert_eq!(req.top_k_or_default(), 2);
}
