//! Clients for a text-embedding service and for a vector store kept in a
//! search engine: request building and reply checking, with their contracts.
pub mod error;
pub mod text;
pub mod json;
pub mod embedding;
pub mod vector_db;
