//! Tessera Model Gate: the verified core of a control plane that compares
//! language models on approved business tasks and blocks a model that does
//! not meet a task gate.

pub mod text;
pub mod lines;
pub mod auth;
pub mod json;
pub mod domain;
pub mod champions;
pub mod approvals;
pub mod config;
pub mod crypto;
pub mod grader;
pub mod provider;
pub mod run;
pub mod review;
pub mod service;
