//! Reconciles a directory of installed mod files with a server's manifest: which files to
//! fetch and which to delete, whether to fetch them one by one or as one archive, and the
//! decisions of the transfer and of the extraction, step by step, for the caller to carry
//! out. Saved connection profiles live here too.

pub mod api;
pub mod cycle;
pub mod differ;
pub mod extract;
pub mod local;
pub mod manifest;
pub mod names;
pub mod plan;
pub mod profiles;
pub mod strategy;
pub mod transfer;
