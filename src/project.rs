//! What the source instance tells about one project.
use vstd::prelude::*;

verus! {

/// One project as the source instance lists it. Built only from a listing
/// page and never changed afterwards.
#[derive(Debug, Clone)]
pub struct ProjectDescriptor {
    pub id: u64,
    /// The full namespace path, such as `group/subgroup/project`.
    pub path: String,
    pub default_branch: Option<String>,
    pub visibility: String,
    pub ssh_url: String,
    pub http_url: String,
}

} // verus!
