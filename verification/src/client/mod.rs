//! The caller's side of the service: request types, a builder for
//! requests, and the client's handling of addresses and responses.

pub mod builder;
pub mod client;
pub mod error;
pub mod types;

pub use builder::SolveRequestBuilder;
pub use client::GlpkClient;
pub use error::GlpkError;
pub use types::{
    IntegerSparseMatrix, Shape, Solution, SolveRequest, SolveResponse, SparseLEIntegerPolyhedron,
    Variable,
};
