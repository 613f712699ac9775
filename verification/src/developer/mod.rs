//! Developer delivery: allowlisted commits, verification attestations,
//! push proposals, signed single-use approvals and exact pushes.
pub mod approval;
pub mod crypto;
pub mod flow;
pub mod git;
pub mod model;
pub mod operations;
pub mod proposal;
pub mod service;
pub mod store;
