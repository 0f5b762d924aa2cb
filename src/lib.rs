//! Mirroring every project of a GitLab instance, to a local directory tree
//! or to a group on a second instance: configuration, filtering, paging,
//! destinations, the per-project transfer pipeline and bounded scheduling.
pub mod config;
pub mod destination;
pub mod filter;
pub mod lister;
pub mod project;
pub mod remote;
pub mod scheduler;
pub mod summary;
pub mod transfer;
