//! Indexes file content for semantic retrieval: the decisions of the indexing and
//! query pipelines, the layout of the vector index and of the file catalog, and the
//! contracts that tie them together. The stores, the embedding service and the file
//! system are driven from outside through the step functions of `pipeline`.
pub mod content_extractor;
pub mod vector_store;
pub mod metadata_store;
pub mod ollama_client;
pub mod pipeline;
pub mod consistency;
