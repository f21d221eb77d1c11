//! Travis-CI: its environment variables.

use vstd::prelude::*;
use super::{Config, ConfigModel, Env, env_get, overlay};

verus! {

/// The record after reading the Travis-CI variables.
pub open spec fn travis_apply(c: ConfigModel, env: Seq<(String, String)>) -> ConfigModel {
    ConfigModel {
        git_branch: overlay(c.git_branch, env_get(env, "TRAVIS_BRANCH"@)),
        service_number: overlay(c.service_number, env_get(env, "TRAVIS_BUILD_NUMBER"@)),
        service_pull_request: overlay(c.service_pull_request, env_get(env, "TRAVIS_PULL_REQUEST"@)),
        service_build_url: overlay(c.service_build_url, env_get(env, "TRAVIS_BUILD_WEB_URL"@)),
        service_job_id: overlay(c.service_job_id, env_get(env, "TRAVIS_JOB_ID"@)),
        service_job_number: overlay(c.service_job_number, env_get(env, "TRAVIS_JOB_NUMBER"@)),
        ..c
    }
}

/// Fills the record from the Travis-CI variables.
pub fn load_config(config: &mut Config, env: &Env)
    ensures
        final(config)@ == travis_apply(old(config)@, env@),
{
    if let Some(v) = env.get_var("TRAVIS_BRANCH") {
        config.git_branch = Some(v);
    }
    if let Some(v) = env.get_var("TRAVIS_BUILD_NUMBER") {
        config.service_number = Some(v);
    }
    if let Some(v) = env.get_var("TRAVIS_PULL_REQUEST") {
        config.service_pull_request = Some(v);
    }
    if let Some(v) = env.get_var("TRAVIS_BUILD_WEB_URL") {
        config.service_build_url = Some(v);
    }
    if let Some(v) = env.get_var("TRAVIS_JOB_ID") {
        config.service_job_id = Some(v);
    }
    if let Some(v) = env.get_var("TRAVIS_JOB_NUMBER") {
        config.service_job_number = Some(v);
    }
    proof {
        assert(config@ =~= travis_apply(old(config)@, env@));
    }
}

} // verus!
