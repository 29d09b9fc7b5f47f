//! Numeric foundation of the cora machine-learning toolkit: the real-number contract,
//! the vector contract with its derived algebra and statistics, the failure taxonomy,
//! and the estimator contracts.

pub mod base;
pub mod error;
pub mod linalg;
pub mod numbers;
