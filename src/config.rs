//! The run-wide configuration, checked once before any network activity.
use crate::filter::{first_invalid_pattern, patterns_valid, FilterPatterns};
use crate::remote::{is_web_url, web_url};
use vstd::prelude::*;

verus! {

/// What makes a configuration unusable.
#[derive(Debug, Clone, PartialEq, Eq)]
pub enum ConfigError {
    /// The fetch instance URL is not an `http` or `https` URL with a host.
    InvalidFetchUrl,
    /// The backup instance URL is not an `http` or `https` URL with a host.
    InvalidBackupUrl,
    /// Include and excluded patterns were both given.
    IncludeAndExclude,
    /// Some but not all of backup URL, token and group were given.
    PartialBackup,
    /// The pattern at this position is not a valid regular expression.
    InvalidPattern(usize),
    /// A concurrency limit of zero would never start a transfer.
    ZeroConcurrency,
}

/// The source instance that projects are listed and fetched from.
pub struct FetchGitlabOptions {
    pub url: String,
    pub token: String,
}

/// The instance and group that projects are pushed to.
pub struct BackupGitlabOptions {
    pub url: String,
    pub token: String,
    pub group: String,
}

impl FetchGitlabOptions {
    pub fn new(url: String, token: String) -> (r: Result<Self, ConfigError>)
        ensures
            is_web_url(url@) ==> (r matches Ok(o) && o.url == url && o.token == token),
            !is_web_url(url@) ==> r matches Err(ConfigError::InvalidFetchUrl),
    {
        if web_url(url.as_str()) {
            Ok(FetchGitlabOptions { url, token })
        } else {
            Err(ConfigError::InvalidFetchUrl)
        }
    }
}

impl BackupGitlabOptions {
    pub fn new(url: String, token: String, group: String) -> (r: Result<Self, ConfigError>)
        ensures
            is_web_url(url@) ==> (r matches Ok(o) && o.url == url && o.token == token
                && o.group == group),
            !is_web_url(url@) ==> r matches Err(ConfigError::InvalidBackupUrl),
    {
        if web_url(url.as_str()) {
            Ok(BackupGitlabOptions { url, token, group })
        } else {
            Err(ConfigError::InvalidBackupUrl)
        }
    }
}

/// The options of a run as the user gave them, each one on its own.
pub struct RunOptions {
    pub fetch_url: String,
    pub fetch_token: String,
    pub backup_url: Option<String>,
    pub backup_token: Option<String>,
    pub backup_group: Option<String>,
    pub included: Option<Vec<String>>,
    pub excluded: Option<Vec<String>>,
    pub dst: Option<String>,
    pub dry_run: bool,
    pub objects_per_page: Option<u32>,
    pub limit: Option<usize>,
    pub concurrency_limit: usize,
    pub only_owned: bool,
    pub only_membership: bool,
    pub download_ssh: bool,
    pub upload_ssh: bool,
    pub disable_hierarchy: bool,
}

/// The configuration of one run, read by every part of it and changed by
/// none.
pub struct CloneParams {
    pub fetch: FetchGitlabOptions,
    pub dst: Option<String>,
    pub backup: Option<BackupGitlabOptions>,
    pub patterns: Option<FilterPatterns>,
    pub dry_run: bool,
    pub objects_per_page: Option<u32>,
    pub limit: Option<usize>,
    pub concurrency_limit: usize,
    pub only_owned: bool,
    pub only_membership: bool,
    pub download_ssh: bool,
    pub upload_ssh: bool,
    pub disable_hierarchy: bool,
}

impl CloneParams {
    pub open spec fn wf(&self) -> bool {
        &&& is_web_url(self.fetch.url@)
        &&& self.backup matches Some(b) ==> is_web_url(b.url@)
        &&& patterns_valid(self.patterns)
        &&& self.concurrency_limit > 0
    }
}

/// Backup options of which some but not all were given.
pub open spec fn partial_backup(o: RunOptions) -> bool {
    let n = (if o.backup_url is Some { 1int } else { 0 }) + (if o.backup_token is Some { 1int } else { 0 })
        + (if o.backup_group is Some { 1int } else { 0 });
    0 < n < 3
}

/// The filter that the options ask for.
pub open spec fn chosen_patterns(o: RunOptions) -> Option<FilterPatterns> {
    match o.excluded {
        Some(ps) => Some(FilterPatterns::Exclude(ps)),
        None => match o.included {
            Some(ps) => Some(FilterPatterns::Include(ps)),
            None => None,
        },
    }
}

/// The first thing wrong with the options, checked in this order: the
/// fetch URL, included together with excluded, a partial backup, the backup
/// URL, the patterns, the concurrency limit.
pub open spec fn config_error(o: RunOptions) -> Option<ConfigError> {
    if !is_web_url(o.fetch_url@) {
        Some(ConfigError::InvalidFetchUrl)
    } else if o.included is Some && o.excluded is Some {
        Some(ConfigError::IncludeAndExclude)
    } else if partial_backup(o) {
        Some(ConfigError::PartialBackup)
    } else if o.backup_url matches Some(u) && !is_web_url(u@) {
        Some(ConfigError::InvalidBackupUrl)
    } else if !patterns_valid(chosen_patterns(o)) {
        Some(ConfigError::InvalidPattern(0))
    } else if o.concurrency_limit == 0 {
        Some(ConfigError::ZeroConcurrency)
    } else {
        None
    }
}

/// Whether two errors are the same kind of error.
pub open spec fn same_kind(a: ConfigError, b: ConfigError) -> bool {
    match (a, b) {
        (ConfigError::InvalidPattern(_), ConfigError::InvalidPattern(_)) => true,
        _ => a == b,
    }
}

impl CloneParams {
    /// Checks the options and builds the run's configuration from them.
    pub fn from_options(o: RunOptions) -> (r: Result<CloneParams, ConfigError>)
        ensures
            config_error(o) is None <==> r is Ok,
            r matches Ok(p) ==> {
                &&& p.wf()
                &&& p.fetch.url == o.fetch_url
                &&& p.fetch.token == o.fetch_token
                &&& p.patterns == chosen_patterns(o)
                &&& (p.backup is Some <==> o.backup_url is Some)
                &&& p.backup matches Some(b) ==> (o.backup_url == Some(b.url) && o.backup_token
                    == Some(b.token) && o.backup_group == Some(b.group))
                &&& p.dst == o.dst
                &&& p.dry_run == o.dry_run
                &&& p.objects_per_page == o.objects_per_page
                &&& p.limit == o.limit
                &&& p.concurrency_limit == o.concurrency_limit
                &&& p.only_owned == o.only_owned
                &&& p.only_membership == o.only_membership
                &&& p.download_ssh == o.download_ssh
                &&& p.upload_ssh == o.upload_ssh
                &&& p.disable_hierarchy == o.disable_hierarchy
            },
            r matches Err(e) ==> config_error(o) matches Some(f) && same_kind(e, f),
            r matches Err(ConfigError::InvalidPattern(i)) ==> chosen_patterns(o) matches Some(
                f,
            ) && i < f.pattern_seq().len() && !crate::filter::pattern_valid(f.pattern_seq()[i as int]@),
    {
        let ghost orig = o;
        let RunOptions {
            fetch_url,
            fetch_token,
            backup_url,
            backup_token,
            backup_group,
            included,
            excluded,
            dst,
            dry_run,
            objects_per_page,
            limit,
            concurrency_limit,
            only_owned,
            only_membership,
            download_ssh,
            upload_ssh,
            disable_hierarchy,
        } = o;
        let fetch = match FetchGitlabOptions::new(fetch_url, fetch_token) {
            Ok(f) => f,
            Err(e) => return Err(e),
        };
        if included.is_some() && excluded.is_some() {
            return Err(ConfigError::IncludeAndExclude);
        }
        let backup = match (backup_url, backup_token, backup_group) {
            (Some(url), Some(token), Some(group)) => match BackupGitlabOptions::new(url, token, group) {
                Ok(b) => Some(b),
                Err(e) => return Err(e),
            },
            (None, None, None) => None,
            _ => return Err(ConfigError::PartialBackup),
        };
        let patterns = match excluded {
            Some(ps) => Some(FilterPatterns::Exclude(ps)),
            None => match included {
                Some(ps) => Some(FilterPatterns::Include(ps)),
                None => None,
            },
        };
        assert(patterns == chosen_patterns(orig));
        if let Some(i) = first_invalid_pattern(&patterns) {
            return Err(ConfigError::InvalidPattern(i));
        }
        if concurrency_limit == 0 {
            return Err(ConfigError::ZeroConcurrency);
        }
        Ok(CloneParams {
            fetch,
            dst,
            backup,
            patterns,
            dry_run,
            objects_per_page,
            limit,
            concurrency_limit,
            only_owned,
            only_membership,
            download_ssh,
            upload_ssh,
            disable_hierarchy,
        })
    }
}

} // verus!
