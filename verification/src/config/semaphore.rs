//! Semaphore-CI: its environment variables and their precedence.

use vstd::prelude::*;
use super::{Config, ConfigModel, Env, env_get, overlay};

verus! {

/// The record after reading the Semaphore-CI variables.  Three fields have
/// two candidates each; when both are present the later-read one wins.
pub open spec fn semaphore_apply(c: ConfigModel, env: Seq<(String, String)>) -> ConfigModel {
    ConfigModel {
        git_branch: overlay(c.git_branch, env_get(env, "SEMAPHORE_GIT_BRANCH"@)),
        service_number: overlay(
            overlay(c.service_number, env_get(env, "SEMAPHORE_EXECUTABLE_UUID"@)),
            env_get(env, "SEMAPHORE_WORKFLOW_ID"@),
        ),
        service_pull_request: overlay(
            overlay(c.service_pull_request, env_get(env, "SEMAPHORE_BRANCH_ID"@)),
            env_get(env, "SEMAPHORE_GIT_PR_NUMBER"@),
        ),
        service_job_id: overlay(
            overlay(c.service_job_id, env_get(env, "SEMAPHORE_JOB_UUID"@)),
            env_get(env, "SEMAPHORE_JOB_ID"@),
        ),
        service_job_number: overlay(
            c.service_job_number,
            env_get(env, "SEMAPHORE_WORKFLOW_NUMBER"@),
        ),
        ..c
    }
}

/// Fills the record from the Semaphore-CI variables.
pub fn load_config(config: &mut Config, env: &Env)
    ensures
        final(config)@ == semaphore_apply(old(config)@, env@),
{
    if let Some(v) = env.get_var("SEMAPHORE_GIT_BRANCH") {
        config.git_branch = Some(v);
    }
    if let Some(v) = env.get_var("SEMAPHORE_EXECUTABLE_UUID") {
        config.service_number = Some(v);
    }
    if let Some(v) = env.get_var("SEMAPHORE_WORKFLOW_ID") {
        config.service_number = Some(v);
    }
    if let Some(v) = env.get_var("SEMAPHORE_BRANCH_ID") {
        config.service_pull_request = Some(v);
    }
    if let Some(v) = env.get_var("SEMAPHORE_GIT_PR_NUMBER") {
        config.service_pull_request = Some(v);
    }
    if let Some(v) = env.get_var("SEMAPHORE_JOB_UUID") {
        config.service_job_id = Some(v);
    }
    if let Some(v) = env.get_var("SEMAPHORE_JOB_ID") {
        config.service_job_id = Some(v);
    }
    if let Some(v) = env.get_var("SEMAPHORE_WORKFLOW_NUMBER") {
        config.service_job_number = Some(v);
    }
    proof {
        assert(config@ =~= semaphore_apply(old(config)@, env@));
    }
}

} // verus!
