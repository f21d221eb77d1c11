//! Command-line input as plain values: the global flags, the selected
//! provider, and the per-provider overrides.

use vstd::prelude::*;

verus! {

/// The whole command line: global options plus the selected provider.
pub struct CliArgs {
    /// Input file for the coverage data; standard input when absent.
    pub input: Option<String>,
    /// Prefix applied to every reported file path.
    pub source_prefix: Option<String>,
    /// Directories whose files are excluded from the report.
    pub prune_dir: Option<Vec<String>>,
    /// Exclude absolute paths from the report.
    pub prune_absolutes: bool,
    /// Resolve only; skip the upload.
    pub no_send: bool,
    /// The CI provider whose variables are read.
    pub service: CliService,
}

/// The selected CI provider, with that provider's explicit overrides.
pub enum CliService {
    CircleCI(CliServiceArgs),
    Actions(CliServiceArgs),
    AppVeyor(CliServiceArgs),
    BuildKite(CliServiceArgs),
    Travis(CliServiceArgs),
    Semaphore(CliServiceArgs),
    Jenkins(CliServiceArgs),
    Env,
}

/// Explicit per-field overrides; a present field beats the environment.
pub struct CliServiceArgs {
    pub repo_token: Option<String>,
    pub flag_name: Option<String>,
    pub service_number: Option<String>,
    pub service_build_url: Option<String>,
    pub service_pull_request: Option<String>,
    pub service_job_id: Option<String>,
    pub service_job_number: Option<String>,
    pub git_id: Option<String>,
    pub git_branch: Option<String>,
    pub git_message: Option<String>,
    pub git_author_name: Option<String>,
    pub git_author_email: Option<String>,
    pub git_committer_name: Option<String>,
    pub git_committer_email: Option<String>,
    pub git_remote_name: Option<String>,
    pub git_remote_url: Option<String>,
}

impl CliServiceArgs {
    /// Overrides with every field left to the environment.
    pub fn none() -> (a: CliServiceArgs)
        ensures
            a.repo_token is None,
            a.flag_name is None,
            a.service_number is None,
            a.service_build_url is None,
            a.service_pull_request is None,
            a.service_job_id is None,
            a.service_job_number is None,
            a.git_id is None,
            a.git_branch is None,
            a.git_message is None,
            a.git_author_name is None,
            a.git_author_email is None,
            a.git_committer_name is None,
            a.git_committer_email is None,
            a.git_remote_name is None,
            a.git_remote_url is None,
    {
        CliServiceArgs {
            repo_token: None,
            flag_name: None,
            service_number: None,
            service_build_url: None,
            service_pull_request: None,
            service_job_id: None,
            service_job_number: None,
            git_id: None,
            git_branch: None,
            git_message: None,
            git_author_name: None,
            git_author_email: None,
            git_committer_name: None,
            git_committer_email: None,
            git_remote_name: None,
            git_remote_url: None,
        }
    }
}

} // verus!
