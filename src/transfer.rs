//! The pipeline of one project: fetch, then, where a backup instance is
//! configured, make sure its groups exist and push.
//!
//! Each function here takes what the last stage reported and decides what
//! comes next; the caller performs the git and API work in between.
use crate::config::CloneParams;
use crate::destination::{enclosing, enclosing_groups, joined, local_path, local_target, backup_path};
use crate::project::ProjectDescriptor;
use crate::remote::{http_repo_url, http_url, ssh_repo_url, ssh_url, token_url, with_token};
use vstd::prelude::*;

verus! {

#[derive(Debug, Clone, PartialEq, Eq)]
pub enum SkipReason {
    /// A dry run only reports what it would transfer.
    DryRun,
}

#[derive(Debug, Clone, PartialEq, Eq)]
pub enum Failure {
    /// An earlier project of the batch already has the same local path.
    NameCollision,
    /// The clone or update from the source instance failed.
    FetchFailed(String),
    /// A group on the backup instance could not be created.
    GroupCreationFailed(String),
    /// The project was fetched, but the push to the backup instance failed.
    PushFailed(String),
}

/// How one project's transfer ended.
#[derive(Debug, Clone, PartialEq, Eq)]
pub enum TransferOutcome {
    Transferred,
    Skipped(SkipReason),
    Failed(Failure),
}

#[derive(Debug, Clone, PartialEq, Eq)]
pub enum FetchMode {
    /// No local mirror exists yet: clone one.
    Clone,
    /// A local mirror exists: fetch into it, keeping what it holds.
    Update,
}

/// What the backup instance answered to a request to create a group.
#[derive(Debug, Clone, PartialEq, Eq)]
pub enum GroupResult {
    Created,
    AlreadyExists,
    Refused(String),
}

/// What to do next for a project.
#[derive(Debug, Clone, PartialEq, Eq)]
pub enum Step {
    Fetch(FetchMode),
    /// Make sure that each group of the backup target exists.
    EnsureGroups,
    Push,
    Finish(TransferOutcome),
}

/// Where a project is pushed on the backup instance.
#[derive(Debug, Clone)]
pub struct BackupTarget {
    /// The project's path under the backup group.
    pub path: String,
    /// The groups that enclose that path, outermost first.
    pub groups: Vec<String>,
    pub push_url: String,
}

/// Everything one project's transfer needs, worked out before it starts.
#[derive(Debug, Clone)]
pub struct TransferPlan {
    /// The project's id on the source instance.
    pub id: u64,
    pub path: String,
    pub source_url: String,
    /// The local mirror; `None` where no destination directory is set.
    pub local_path: Option<String>,
    pub backup: Option<BackupTarget>,
    /// An earlier project of the batch claimed the same local path.
    pub collision: bool,
}

/// The URL that a project is fetched from: its SSH URL, or its HTTP URL
/// carrying the fetch token.
pub open spec fn source_url_of(project: ProjectDescriptor, params: CloneParams) -> Seq<char> {
    if params.download_ssh {
        project.ssh_url@
    } else {
        with_token(project.http_url@, params.fetch.token@)
    }
}

/// The URL that a project is pushed to, whose path on the backup instance
/// is `target`.
pub open spec fn push_url_of(target: Seq<char>, params: CloneParams) -> Seq<char> {
    let b = params.backup->0;
    if params.upload_ssh {
        ssh_repo_url(b.url@, target)
    } else {
        with_token(http_repo_url(b.url@, target), b.token@)
    }
}

/// The local path of `project` under the destination directory `dst`.
pub open spec fn local_of(project: ProjectDescriptor, dst: String, params: CloneParams) -> Seq<char> {
    local_target(dst@, project.path@, !params.disable_hierarchy)
}

/// `plan` is what `project` needs under `params`, leaving aside collisions.
pub open spec fn plans(plan: TransferPlan, project: ProjectDescriptor, params: CloneParams) -> bool {
    &&& plan.id == project.id
    &&& plan.path@ == project.path@
    &&& plan.source_url@ == source_url_of(project, params)
    &&& (plan.local_path is Some <==> params.dst is Some)
    &&& plan.local_path matches Some(l) ==> l@ == local_of(project, params.dst->0, params)
    &&& (plan.backup is Some <==> params.backup is Some)
    &&& plan.backup matches Some(b) ==> {
        &&& b.path@ == joined(params.backup->0.group@, project.path@)
        &&& b.groups@.len() == enclosing(b.path@).len()
        &&& forall|i: int| 0 <= i < b.groups@.len() ==> #[trigger] b.groups@[i]@ == enclosing(b.path@)[i]
        &&& b.push_url@ == push_url_of(b.path@, params)
    }
}

/// The plan for `project`, without looking at the rest of the batch.
pub fn plan_transfer(project: &ProjectDescriptor, params: &CloneParams) -> (r: TransferPlan)
    ensures
        plans(r, *project, *params),
        !r.collision,
{
    let source_url = if params.download_ssh {
        project.ssh_url.clone()
    } else {
        token_url(project.http_url.as_str(), params.fetch.token.as_str())
    };
    let local = match &params.dst {
        Some(d) => Some(local_path(d.as_str(), project.path.as_str(), !params.disable_hierarchy)),
        None => None,
    };
    let backup = match &params.backup {
        Some(b) => {
            let target = backup_path(b.group.as_str(), project.path.as_str());
            let groups = enclosing_groups(target.as_str());
            let push_url = if params.upload_ssh {
                ssh_url(b.url.as_str(), target.as_str())
            } else {
                let u = http_url(b.url.as_str(), target.as_str());
                token_url(u.as_str(), b.token.as_str())
            };
            Some(BackupTarget { path: target, groups, push_url })
        },
        None => None,
    };
    TransferPlan { id: project.id, path: project.path.clone(), source_url, local_path: local, backup, collision: false }
}

/// The local path of plan `p`, where it has one.
pub open spec fn local_seq(p: TransferPlan) -> Option<Seq<char>> {
    match p.local_path {
        Some(l) => Some(l@),
        None => None,
    }
}

/// Some plan of `ps` before position `i` has the same local path as the
/// plan at `i`.
pub open spec fn claimed_before(ps: Seq<TransferPlan>, i: int) -> bool {
    exists|j: int|
        0 <= j < i && #[trigger] ps[j].local_path is Some && local_seq(ps[j]) == local_seq(ps[i])
}

/// Some plan of `ps` has the local path `l`.
pub open spec fn claimed_in(ps: Seq<TransferPlan>, l: Seq<char>) -> bool {
    exists|j: int| 0 <= j < ps.len() && #[trigger] local_seq(ps[j]) == Some(l)
}

/// Whether plan `p` claims a local path that a plan of `ps` claimed already.
fn collides(ps: &Vec<TransferPlan>, p: &TransferPlan) -> (r: bool)
    ensures
        r == (p.local_path is Some && claimed_in(ps@, p.local_path->0@)),
{
    let mine = match &p.local_path {
        Some(l) => l,
        None => return false,
    };
    let mut j: usize = 0;
    while j < ps.len()
        invariant
            j <= ps@.len(),
            p.local_path == Some(*mine),
            forall|k: int| 0 <= k < j ==> #[trigger] local_seq(ps@[k]) != Some(mine@),
        decreases ps@.len() - j,
    {
        match &ps[j].local_path {
            Some(other) => {
                if other.eq(mine) {
                    assert(local_seq(ps@[j as int]) == Some(mine@));
                    return true;
                }
            },
            None => {},
        }
        j = j + 1;
    }
    false
}

/// The plan for `project`, which comes after the projects planned in
/// `earlier`: it is marked as a collision exactly when one of them already
/// claimed its local path.
pub fn plan_next(earlier: &Vec<TransferPlan>, project: &ProjectDescriptor, params: &CloneParams) -> (r: TransferPlan)
    ensures
        plans(r, *project, *params),
        r.collision <==> (r.local_path is Some && claimed_in(earlier@, r.local_path->0@)),
{
    let mut p = plan_transfer(project, params);
    let c = collides(earlier, &p);
    p.collision = c;
    p
}

/// The plans of a whole batch, in its order. Where the hierarchy is not
/// kept two projects may share a leaf name: every project whose local path
/// an earlier one already claimed is marked as a collision, so that it fails
/// instead of overwriting the first.
pub fn plan_batch(projects: &Vec<ProjectDescriptor>, params: &CloneParams) -> (r: Vec<TransferPlan>)
    ensures
        r@.len() == projects@.len(),
        forall|i: int| 0 <= i < r@.len() ==> plans(#[trigger] r@[i], projects@[i], *params),
        forall|i: int|
            0 <= i < r@.len() ==> (#[trigger] r@[i].collision <==> (r@[i].local_path is Some
                && claimed_before(r@, i))),
{
    let mut r: Vec<TransferPlan> = Vec::new();
    let mut i: usize = 0;
    while i < projects.len()
        invariant
            i <= projects@.len(),
            r@.len() == i,
            forall|k: int| 0 <= k < i ==> plans(#[trigger] r@[k], projects@[k], *params),
            forall|k: int|
                0 <= k < i ==> (#[trigger] r@[k].collision <==> (r@[k].local_path is Some
                    && claimed_in(r@.take(k), r@[k].local_path->0@))),
        decreases projects@.len() - i,
    {
        let p = plan_next(&r, &projects[i], params);
        let ghost before = r@;
        r.push(p);
        assert(before =~= r@.take(i as int));
        assert forall|k: int| 0 <= k < i implies r@.take(k) =~= before.take(k) && r@[k] == before[k] by {}
        assert(r@[i as int].collision <==> (r@[i as int].local_path is Some && claimed_in(r@.take(i as int), r@[i as int].local_path->0@)));
        i = i + 1;
    }
    assert forall|k: int| 0 <= k < r@.len() implies claimed_before(r@, k) == (r@[k].local_path is Some && claimed_in(r@.take(k), r@[k].local_path->0@)) by {
        if claimed_before(r@, k) {
            let j = choose|j: int| 0 <= j < k && #[trigger] r@[j].local_path is Some && local_seq(r@[j]) == local_seq(r@[k]);
            assert(local_seq(r@.take(k)[j]) == local_seq(r@[k]));
        }
        if r@[k].local_path is Some && claimed_in(r@.take(k), r@[k].local_path->0@) {
            let l = r@[k].local_path->0;
            let j = choose|j: int| 0 <= j < r@.take(k).len() && #[trigger] local_seq(r@.take(k)[j]) == Some(l@);
            assert(r@[j].local_path is Some && local_seq(r@[j]) == local_seq(r@[k]));
        }
    }
    r
}

/// The first step for a project: a dry run only reports the project, a
/// collision fails at once, and otherwise the project is fetched, by an
/// update where a local mirror exists and by a clone where none does.
pub open spec fn first_step(plan: TransferPlan, dry_run: bool, mirror_exists: bool) -> Step {
    if dry_run {
        Step::Finish(TransferOutcome::Skipped(SkipReason::DryRun))
    } else if plan.collision {
        Step::Finish(TransferOutcome::Failed(Failure::NameCollision))
    } else if mirror_exists {
        Step::Fetch(FetchMode::Update)
    } else {
        Step::Fetch(FetchMode::Clone)
    }
}

/// After the fetch: a failure ends the project; a success ends it too
/// unless there is a backup target, whose groups come next.
pub open spec fn step_after_fetch(plan: TransferPlan, fetched: Result<(), String>) -> Step {
    match fetched {
        Err(e) => Step::Finish(TransferOutcome::Failed(Failure::FetchFailed(e))),
        Ok(_) => if plan.backup is Some {
            Step::EnsureGroups
        } else {
            Step::Finish(TransferOutcome::Transferred)
        },
    }
}

/// After a request to create a backup group: a group that exists already
/// is as good as one just created.
pub open spec fn step_after_group(result: GroupResult) -> Step {
    match result {
        GroupResult::Refused(e) => Step::Finish(TransferOutcome::Failed(Failure::GroupCreationFailed(e))),
        _ => Step::Push,
    }
}

/// After the push, which came after a successful fetch.
pub open spec fn step_after_push(pushed: Result<(), String>) -> Step {
    match pushed {
        Ok(_) => Step::Finish(TransferOutcome::Transferred),
        Err(e) => Step::Finish(TransferOutcome::Failed(Failure::PushFailed(e))),
    }
}

pub fn begin(plan: &TransferPlan, dry_run: bool, mirror_exists: bool) -> (r: Step)
    ensures
        r == first_step(*plan, dry_run, mirror_exists),
{
    if dry_run {
        Step::Finish(TransferOutcome::Skipped(SkipReason::DryRun))
    } else if plan.collision {
        Step::Finish(TransferOutcome::Failed(Failure::NameCollision))
    } else if mirror_exists {
        Step::Fetch(FetchMode::Update)
    } else {
        Step::Fetch(FetchMode::Clone)
    }
}

pub fn after_fetch(plan: &TransferPlan, fetched: Result<(), String>) -> (r: Step)
    ensures
        r == step_after_fetch(*plan, fetched),
{
    match fetched {
        Err(e) => Step::Finish(TransferOutcome::Failed(Failure::FetchFailed(e))),
        Ok(_) => if plan.backup.is_some() {
            Step::EnsureGroups
        } else {
            Step::Finish(TransferOutcome::Transferred)
        },
    }
}

pub fn after_group(result: GroupResult) -> (r: Step)
    ensures
        r == step_after_group(result),
{
    match result {
        GroupResult::Refused(e) => Step::Finish(TransferOutcome::Failed(Failure::GroupCreationFailed(e))),
        GroupResult::Created => Step::Push,
        GroupResult::AlreadyExists => Step::Push,
    }
}

pub fn after_push(pushed: Result<(), String>) -> (r: Step)
    ensures
        r == step_after_push(pushed),
{
    match pushed {
        Ok(_) => Step::Finish(TransferOutcome::Transferred),
        Err(e) => Step::Finish(TransferOutcome::Failed(Failure::PushFailed(e))),
    }
}

/// A dry run touches neither the disk nor either instance: for every
/// project its only step reports the project as one it would transfer.
/// A real run attempts every one of those projects: it starts fetching it,
/// or fails it on a local path that an earlier project claimed.
pub proof fn lemma_dry_run_reports_what_a_run_attempts(plan: TransferPlan, mirror_exists: bool)
    ensures
        first_step(plan, true, mirror_exists) == Step::Finish(
            TransferOutcome::Skipped(SkipReason::DryRun),
        ),
        first_step(plan, false, mirror_exists) is Fetch || first_step(plan, false, mirror_exists)
            == Step::Finish(TransferOutcome::Failed(Failure::NameCollision)),
{
}

/// Running a batch again over mirrors and groups that exist already fails
/// on neither: an existing mirror is updated, never cloned afresh, and an
/// existing group lets the push go ahead.
pub proof fn lemma_rerun_over_existing_mirrors(plan: TransferPlan)
    requires
        !plan.collision,
    ensures
        first_step(plan, false, true) == Step::Fetch(FetchMode::Update),
        step_after_group(GroupResult::AlreadyExists) == Step::Push,
        step_after_fetch(plan, Ok(())) !is Finish || step_after_fetch(plan, Ok(())) == Step::Finish(
            TransferOutcome::Transferred,
        ),
        step_after_push(Ok(())) == Step::Finish(TransferOutcome::Transferred),
{
}

/// A push that fails after a successful fetch is reported as such, and
/// never as a failed fetch.
pub proof fn lemma_push_failure_is_not_fetch_failure(plan: TransferPlan, e: String)
    requires
        plan.backup is Some,
    ensures
        step_after_fetch(plan, Ok(())) == Step::EnsureGroups,
        step_after_push(Err(e)) == Step::Finish(TransferOutcome::Failed(Failure::PushFailed(e))),
{
}

/// The status with which the backup instance answers a group it created.
pub const GROUP_CREATED_STATUS: u32 = 201;

/// What became of a request for a backup group: `status` is the answer to
/// the request to create it (`None` where none was made), `exists_now`
/// whether a lookup finds the group, and `detail` what to report where the
/// group could not be had. A group that a lookup finds counts as existing,
/// whatever the creation request answered.
pub open spec fn group_result_of(status: Option<u32>, exists_now: bool, detail: String) -> GroupResult {
    if status == Some(GROUP_CREATED_STATUS) {
        GroupResult::Created
    } else if exists_now {
        GroupResult::AlreadyExists
    } else {
        GroupResult::Refused(detail)
    }
}

pub fn group_result(status: Option<u32>, exists_now: bool, detail: String) -> (r: GroupResult)
    ensures
        r == group_result_of(status, exists_now, detail),
{
    match status {
        Some(s) => if s == GROUP_CREATED_STATUS {
            return GroupResult::Created;
        },
        None => {},
    }
    if exists_now {
        GroupResult::AlreadyExists
    } else {
        GroupResult::Refused(detail)
    }
}

/// A group that exists already never makes a project fail, whether it was
/// found before a creation request or after one that the instance refused.
pub proof fn lemma_existing_group_never_fails(status: Option<u32>, detail: String)
    ensures
        group_result_of(status, true, detail) !is Refused,
        step_after_group(group_result_of(status, true, detail)) == Step::Push,
{
}

} // verus!
