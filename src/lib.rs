//! A single-user task tracker: epics that own stories, a shared status
//! lifecycle, a repository that keeps epics and stories consistent across
//! whole-snapshot read-modify-write cycles, and a page-stack navigator.
pub mod dao;
pub mod domain;
pub mod error;
pub mod fixtures;
pub mod integrity;
pub mod laws;
pub mod models;
pub mod navigator;
pub mod snapshot;
pub mod text;
pub mod ui;
