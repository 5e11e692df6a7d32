//! The file catalog: one row per processed path, holding its identity, the time it
//! was processed and the key of its row in the vector index. The catalog lives in a
//! single-file relational database driven from outside this crate, through the
//! statements below; the model here states what those statements do to its rows.
use vstd::prelude::*;

verus! {

/// Creates the catalog's one table unless it is already there.
pub const CREATE_FILES_TABLE: &'static str = "CREATE TABLE IF NOT EXISTS files (id INTEGER PRIMARY KEY, path TEXT NOT NULL UNIQUE, processed_at TEXT NOT NULL, vector_id TEXT UNIQUE)";

/// Records a processed path: parameters are the path, the processing time and the
/// vector key. A row that shares the path or the vector key is replaced.
pub const RECORD_FILE: &'static str = "INSERT OR REPLACE INTO files (path, processed_at, vector_id) VALUES (?1, ?2, ?3)";

/// One catalog row as the model sees it; the processing time plays no part in any
/// property and is left out.
pub struct CatalogRow {
    pub id: int,
    pub path: Seq<char>,
    pub vector_key: Seq<char>,
}

/// The rows that survive recording `path` with `vector_key`: those that clash with
/// the new row on neither unique column.
pub open spec fn rows_kept(rows: Seq<CatalogRow>, path: Seq<char>, vector_key: Seq<char>) -> Seq<
    CatalogRow,
> {
    rows.filter(|r: CatalogRow| r.path != path && r.vector_key != vector_key)
}

/// The rows after recording `path` with `vector_key` under identity `id`: every row
/// that clashes with the new one on a unique column is removed, and the new row added.
pub open spec fn catalog_after_record(
    rows: Seq<CatalogRow>,
    id: int,
    path: Seq<char>,
    vector_key: Seq<char>,
) -> Seq<CatalogRow> {
    rows_kept(rows, path, vector_key).push(CatalogRow { id, path, vector_key })
}

/// How many catalog rows are about `path`.
pub open spec fn rows_for_path(rows: Seq<CatalogRow>, path: Seq<char>) -> nat
    decreases rows.len(),
{
    if rows.len() == 0 {
        0
    } else {
        rows_for_path(rows.drop_last(), path) + if rows.last().path == path {
            1nat
        } else {
            0nat
        }
    }
}

proof fn lemma_kept_rows_miss_path(rows: Seq<CatalogRow>, path: Seq<char>, vector_key: Seq<char>)
    ensures
        rows_for_path(rows_kept(rows, path, vector_key), path) == 0,
    decreases rows.len(),
{
    reveal(Seq::filter);
    if rows.len() > 0 {
        lemma_kept_rows_miss_path(rows.drop_last(), path, vector_key);
        let pred = |r: CatalogRow| r.path != path && r.vector_key != vector_key;
        let before = rows.drop_last().filter(pred);
        assert(rows_kept(rows, path, vector_key) == rows.filter(pred));
        assert(rows_kept(rows.drop_last(), path, vector_key) == before);
        if pred(rows.last()) {
            assert(rows.filter(pred) == before.push(rows.last()));
            assert(before.push(rows.last()).drop_last() =~= before);
            assert(rows_for_path(before.push(rows.last()), path) == rows_for_path(before, path));
        } else {
            assert(rows.filter(pred) == before);
        }
    }
}

/// After a path is recorded, exactly one row is about it, and that row is the new one.
pub proof fn lemma_record_leaves_one_row(
    rows: Seq<CatalogRow>,
    id: int,
    path: Seq<char>,
    vector_key: Seq<char>,
)
    ensures
        rows_for_path(catalog_after_record(rows, id, path, vector_key), path) == 1,
        catalog_after_record(rows, id, path, vector_key).last() == (CatalogRow { id, path, vector_key }),
{
    let kept = rows_kept(rows, path, vector_key);
    lemma_kept_rows_miss_path(rows, path, vector_key);
    assert(kept.push(CatalogRow { id, path, vector_key }).drop_last() =~= kept);
}

} // verus!
