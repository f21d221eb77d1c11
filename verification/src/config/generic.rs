//! Auto-detect mode: the generic `CI_*` variables, each overlaid by its
//! `COVERALLS_*` counterpart.

use vstd::prelude::*;
use super::{Config, ConfigModel, Env, env_get, overlay};

verus! {

/// The record after reading the generic variables.  Every field has a `CI_*`
/// candidate and a `COVERALLS_*` candidate; when both are present the
/// later-read `COVERALLS_*` one wins.
pub open spec fn generic_apply(c: ConfigModel, env: Seq<(String, String)>) -> ConfigModel {
    ConfigModel {
        git_branch: overlay(
            overlay(c.git_branch, env_get(env, "CI_BRANCH"@)),
            env_get(env, "COVERALLS_BRANCH"@),
        ),
        service_number: overlay(
            overlay(c.service_number, env_get(env, "CI_BUILD_NUMBER"@)),
            env_get(env, "COVERALLS_SERVICE_NUMBER"@),
        ),
        service_pull_request: overlay(
            overlay(c.service_pull_request, env_get(env, "CI_PULL_REQUEST"@)),
            env_get(env, "COVERALLS_PULL_REQUEST"@),
        ),
        service_build_url: overlay(
            overlay(c.service_build_url, env_get(env, "CI_BUILD_URL"@)),
            env_get(env, "COVERALLS_BUILD_URL"@),
        ),
        service_job_id: overlay(
            overlay(c.service_job_id, env_get(env, "CI_JOB_ID"@)),
            env_get(env, "COVERALLS_SERVICE_JOB_ID"@),
        ),
        service_job_number: overlay(
            overlay(c.service_job_number, env_get(env, "CI_JOB_NUMBER"@)),
            env_get(env, "COVERALLS_SERVICE_JOB_NUMBER"@),
        ),
        ..c
    }
}

/// Fills the record from the generic variables.
#[verifier::rlimit(50)]
pub fn load_config(config: &mut Config, env: &Env)
    ensures
        final(config)@ == generic_apply(old(config)@, env@),
{
    if let Some(v) = env.get_var("CI_BRANCH") {
        config.git_branch = Some(v);
    }
    if let Some(v) = env.get_var("COVERALLS_BRANCH") {
        config.git_branch = Some(v);
    }
    if let Some(v) = env.get_var("CI_BUILD_NUMBER") {
        config.service_number = Some(v);
    }
    if let Some(v) = env.get_var("COVERALLS_SERVICE_NUMBER") {
        config.service_number = Some(v);
    }
    if let Some(v) = env.get_var("CI_PULL_REQUEST") {
        config.service_pull_request = Some(v);
    }
    if let Some(v) = env.get_var("COVERALLS_PULL_REQUEST") {
        config.service_pull_request = Some(v);
    }
    if let Some(v) = env.get_var("CI_BUILD_URL") {
        config.service_build_url = Some(v);
    }
    if let Some(v) = env.get_var("COVERALLS_BUILD_URL") {
        config.service_build_url = Some(v);
    }
    if let Some(v) = env.get_var("CI_JOB_ID") {
        config.service_job_id = Some(v);
    }
    if let Some(v) = env.get_var("COVERALLS_SERVICE_JOB_ID") {
        config.service_job_id = Some(v);
    }
    if let Some(v) = env.get_var("CI_JOB_NUMBER") {
        config.service_job_number = Some(v);
    }
    if let Some(v) = env.get_var("COVERALLS_SERVICE_JOB_NUMBER") {
        config.service_job_number = Some(v);
    }
    proof {
        assert(config@ =~= generic_apply(old(config)@, env@));
    }
}

/// The provider identity auto-detect mode reports: `CI_NAME`, overlaid by
/// `COVERALLS_SERVICE_NAME`.  It names the service for reporting only; it
/// does not select another provider's variable set.
pub fn detect_service_name(env: &Env) -> (r: Option<String>)
    ensures
        super::opt_view(r) == overlay(
            overlay(None, env_get(env@, "CI_NAME"@)),
            env_get(env@, "COVERALLS_SERVICE_NAME"@),
        ),
{
    let mut r: Option<String> = None;
    if let Some(v) = env.get_var("CI_NAME") {
        r = Some(v);
    }
    if let Some(v) = env.get_var("COVERALLS_SERVICE_NAME") {
        r = Some(v);
    }
    r
}

} // verus!
