//! Verified core of an integer linear programming service: the sparse
//! polyhedron model, request validation, and the re-expression of a request
//! into the shapes that the individual optimisation engines expect.

pub mod client;
pub mod convert;
pub mod hexaly;
pub mod index;
pub mod matrix;
pub mod models;
pub mod objective;
pub mod solve;
pub mod solver;
pub mod solver_factory;
pub mod solvers;
pub mod text;
pub mod validate;
