//! GitHub Actions: its environment variables and their precedence.

use vstd::prelude::*;
use super::{Config, ConfigModel, Env, env_get, overlay};

verus! {

/// The record after reading the GitHub Actions variables.  The branch has two
/// candidates; when both are present the later-read `GITHUB_HEAD_REF` wins.
pub open spec fn actions_apply(c: ConfigModel, env: Seq<(String, String)>) -> ConfigModel {
    ConfigModel {
        git_branch: overlay(
            overlay(c.git_branch, env_get(env, "GITHUB_REF"@)),
            env_get(env, "GITHUB_HEAD_REF"@),
        ),
        service_number: overlay(c.service_number, env_get(env, "GITHUB_RUN_ID"@)),
        service_pull_request: overlay(c.service_pull_request, env_get(env, "GITHUB_REF"@)),
        service_job_id: overlay(c.service_job_id, env_get(env, "GITHUB_JOB"@)),
        service_job_number: overlay(c.service_job_number, env_get(env, "GITHUB_RUN_NUMBER"@)),
        ..c
    }
}

/// Fills the record from the GitHub Actions variables.
pub fn load_config(config: &mut Config, env: &Env)
    ensures
        final(config)@ == actions_apply(old(config)@, env@),
{
    if let Some(v) = env.get_var("GITHUB_REF") {
        config.git_branch = Some(v);
    }
    if let Some(v) = env.get_var("GITHUB_HEAD_REF") {
        config.git_branch = Some(v);
    }
    if let Some(v) = env.get_var("GITHUB_RUN_ID") {
        config.service_number = Some(v);
    }
    if let Some(v) = env.get_var("GITHUB_REF") {
        config.service_pull_request = Some(v);
    }
    if let Some(v) = env.get_var("GITHUB_JOB") {
        config.service_job_id = Some(v);
    }
    if let Some(v) = env.get_var("GITHUB_RUN_NUMBER") {
        config.service_job_number = Some(v);
    }
    proof {
        assert(config@ =~= actions_apply(old(config)@, env@));
    }
}

} // verus!
