//! The vector index: a table of `(path, vector)` rows of one fixed dimension,
//! searched for the rows nearest to a query vector. The engine that stores and
//! searches the rows runs outside this crate; what is decided here is when a
//! table is created or refused, which vectors are admitted, and how the engine's
//! answer becomes a ranked list.
use vstd::prelude::*;

verus! {

/// Dimension of the vectors produced by the default embedding model.
pub const EMBEDDING_DIM: usize = 768;

/// Column that holds each row's key (the path of the file it was computed from).
pub const PATH_FIELD: &'static str = "path";

/// Column that holds each row's vector.
pub const EMBEDDING_FIELD_NAME: &'static str = "vector";

/// Column that the engine adds to search results, holding each row's distance to the query.
pub const DISTANCE_FIELD: &'static str = "_distance";

/// Failures of the vector index.
#[derive(Debug, Clone, PartialEq, Eq)]
pub enum IndexError {
    /// A vector's length differs from the table's dimension.
    DimensionMismatch { expected: usize, actual: usize },
    /// The stored table was created with another dimension than the one configured.
    SchemaMismatch { expected: usize, found: usize },
    /// The engine failed; its own description of the failure.
    Engine(String),
}

/// What to do with the backing table when the index is opened.
#[derive(Debug, Clone, Copy, PartialEq, Eq, Structural)]
pub enum TableSetup {
    /// No table of that name exists: create it empty with the configured schema.
    Create,
    /// The table exists with the configured dimension: use it as it is.
    Open,
}

/// How a search is carried out once the query vector is admitted.
#[derive(Debug, Clone, Copy, PartialEq, Eq, Structural)]
pub enum SearchPlan {
    /// Nothing is asked for: the answer is empty without consulting the engine.
    Nothing,
    /// Ask the engine for at most `limit` nearest rows.
    Query { limit: usize },
}

/// One row of a search answer: its key, and its distance to the query as the
/// IEEE-754 bit pattern of a single-precision number (smaller is closer).
#[derive(Debug, Clone, PartialEq, Eq)]
pub struct IndexHit {
    pub key: String,
    pub distance_bits: u32,
}

/// The configuration of one collection of the vector index.
#[derive(Debug, Clone, PartialEq, Eq)]
pub struct VectorStore {
    pub table_name: String,
    pub dimension: usize,
}

/// The rows of consecutive result batches, batch after batch, each in its own order.
pub open spec fn flat_hits(batches: Seq<Vec<IndexHit>>) -> Seq<IndexHit>
    decreases batches.len(),
{
    if batches.len() == 0 {
        Seq::empty()
    } else {
        batches[0]@ + flat_hits(batches.drop_first())
    }
}

/// The first `n` items of `s`, or all of them where there are fewer.
pub open spec fn first_n<A>(s: Seq<A>, n: nat) -> Seq<A> {
    if n < s.len() {
        s.take(n as int)
    } else {
        s
    }
}

/// The answer to a search: the engine's rows in the engine's order, at most `top_k` of them.
pub open spec fn ranked(batches: Seq<Vec<IndexHit>>, top_k: nat) -> Seq<IndexHit> {
    first_n(flat_hits(batches), top_k)
}

/// The model of the stored rows: their keys, in the order they were added.
/// Adding a row never removes another, so one key can occur several times.
pub open spec fn index_after_add(keys: Seq<Seq<char>>, key: Seq<char>) -> Seq<Seq<char>> {
    keys.push(key)
}

/// How many stored rows carry `key`.
pub open spec fn rows_with_key(keys: Seq<Seq<char>>, key: Seq<char>) -> nat
    decreases keys.len(),
{
    if keys.len() == 0 {
        0
    } else {
        rows_with_key(keys.drop_last(), key) + if keys.last() == key {
            1nat
        } else {
            0nat
        }
    }
}

/// Adding a row under `key` adds one to the rows that carry it, whatever rows
/// already carried it.
pub proof fn lemma_add_counts_once(keys: Seq<Seq<char>>, key: Seq<char>)
    ensures
        rows_with_key(index_after_add(keys, key), key) == rows_with_key(keys, key) + 1,
{
    assert(keys.push(key).drop_last() =~= keys);
}

impl VectorStore {
    /// A collection named `table_name` whose vectors all have length `dimension`.
    pub fn new(table_name: String, dimension: usize) -> (r: Self)
        ensures
            r.table_name == table_name,
            r.dimension == dimension,
    {
        VectorStore { table_name, dimension }
    }

    /// Decides how the backing table is set up, given the dimension of the table
    /// that already exists under this name (`None` where there is none). A table is
    /// created only when absent; an existing table of another dimension is refused
    /// rather than read with the wrong shape.
    pub fn setup_for(&self, existing: Option<usize>) -> (r: Result<TableSetup, IndexError>)
        ensures
            existing is None ==> r == Ok::<TableSetup, IndexError>(TableSetup::Create),
            existing == Some(self.dimension) ==> r == Ok::<TableSetup, IndexError>(TableSetup::Open),
            existing is Some && existing != Some(self.dimension) ==> r == Err::<TableSetup, IndexError>(
                IndexError::SchemaMismatch { expected: self.dimension, found: existing->Some_0 },
            ),
    {
        match existing {
            None => Ok(TableSetup::Create),
            Some(found) => {
                if found == self.dimension {
                    Ok(TableSetup::Open)
                } else {
                    Err(IndexError::SchemaMismatch { expected: self.dimension, found })
                }
            },
        }
    }

    /// Admits a vector of length `len` for a new row. A vector of another length is
    /// refused whole: it is never cut or padded to fit.
    pub fn check_upsert(&self, len: usize) -> (r: Result<(), IndexError>)
        ensures
            len == self.dimension ==> r is Ok,
            len != self.dimension ==> r == Err::<(), IndexError>(
                IndexError::DimensionMismatch { expected: self.dimension, actual: len },
            ),
    {
        if len == self.dimension {
            Ok(())
        } else {
            Err(IndexError::DimensionMismatch { expected: self.dimension, actual: len })
        }
    }

    /// Plans a search for the `top_k` rows nearest to a query vector of length `len`.
    /// A query of the wrong length is refused; `top_k == 0` asks for nothing.
    pub fn plan_search(&self, len: usize, top_k: usize) -> (r: Result<SearchPlan, IndexError>)
        ensures
            len != self.dimension ==> r == Err::<SearchPlan, IndexError>(
                IndexError::DimensionMismatch { expected: self.dimension, actual: len },
            ),
            len == self.dimension && top_k == 0 ==> r == Ok::<SearchPlan, IndexError>(SearchPlan::Nothing),
            len == self.dimension && top_k > 0 ==> r == Ok::<SearchPlan, IndexError>(
                SearchPlan::Query { limit: top_k },
            ),
    {
        if len != self.dimension {
            Err(IndexError::DimensionMismatch { expected: self.dimension, actual: len })
        } else if top_k == 0 {
            Ok(SearchPlan::Nothing)
        } else {
            Ok(SearchPlan::Query { limit: top_k })
        }
    }
}

/// Turns the engine's result batches into the answer of a search: the rows of all
/// batches in the order the engine gave them (nearest first), at most `top_k`.
/// Rows with equal keys are all kept.
pub fn collect_hits(batches: Vec<Vec<IndexHit>>, top_k: usize) -> (r: Vec<IndexHit>)
    ensures
        r@ == ranked(batches@, top_k as nat),
        r@.len() <= top_k,
{
    let ghost all = batches@;
    let mut rest = batches;
    let mut out: Vec<IndexHit> = Vec::new();
    while rest.len() > 0
        invariant
            out@ + flat_hits(rest@) == flat_hits(all),
        decreases rest@.len(),
    {
        let ghost before = rest@;
        let mut batch = rest.remove(0);
        assert(rest@ =~= before.drop_first());
        out.append(&mut batch);
        assert(out@ + flat_hits(rest@) =~= flat_hits(all));
    }
    proof {
        assert(out@ =~= flat_hits(all));
    }
    out.truncate(top_k);
    proof {
        assert(out@ =~= first_n(flat_hits(all), top_k as nat));
    }
    out
}

} // verus!
