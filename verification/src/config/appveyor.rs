//! AppVeyor: its environment variables.

use vstd::prelude::*;
use super::{Config, ConfigModel, Env, env_get, overlay};

verus! {

/// The record after reading the AppVeyor variables.
pub open spec fn appveyor_apply(c: ConfigModel, env: Seq<(String, String)>) -> ConfigModel {
    ConfigModel {
        git_branch: overlay(c.git_branch, env_get(env, "APPVEYOR_REPO_BRANCH"@)),
        service_number: overlay(c.service_number, env_get(env, "APPVEYOR_BUILD_NUMBER"@)),
        service_pull_request: overlay(
            c.service_pull_request,
            env_get(env, "APPVEYOR_PULL_REQUEST_NUMBER"@),
        ),
        service_job_id: overlay(c.service_job_id, env_get(env, "APPVEYOR_BUILD_ID"@)),
        service_job_number: overlay(c.service_job_number, env_get(env, "APPVEYOR_JOB_NUMBER"@)),
        ..c
    }
}

/// Fills the record from the AppVeyor variables.
pub fn load_config(config: &mut Config, env: &Env)
    ensures
        final(config)@ == appveyor_apply(old(config)@, env@),
{
    if let Some(v) = env.get_var("APPVEYOR_REPO_BRANCH") {
        config.git_branch = Some(v);
    }
    if let Some(v) = env.get_var("APPVEYOR_BUILD_NUMBER") {
        config.service_number = Some(v);
    }
    if let Some(v) = env.get_var("APPVEYOR_PULL_REQUEST_NUMBER") {
        config.service_pull_request = Some(v);
    }
    if let Some(v) = env.get_var("APPVEYOR_BUILD_ID") {
        config.service_job_id = Some(v);
    }
    if let Some(v) = env.get_var("APPVEYOR_JOB_NUMBER") {
        config.service_job_number = Some(v);
    }
    proof {
        assert(config@ =~= appveyor_apply(old(config)@, env@));
    }
}

} // verus!
