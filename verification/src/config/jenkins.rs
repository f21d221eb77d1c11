//! Jenkins: its environment variables.

use vstd::prelude::*;
use super::{Config, ConfigModel, Env, env_get, overlay};

verus! {

/// The record after reading the Jenkins variables; Jenkins has no branch
/// variable of its own.
pub open spec fn jenkins_apply(c: ConfigModel, env: Seq<(String, String)>) -> ConfigModel {
    ConfigModel {
        service_number: overlay(c.service_number, env_get(env, "BUILD_NUMBER"@)),
        service_pull_request: overlay(c.service_pull_request, env_get(env, "CI_PULL_REQUEST"@)),
        service_build_url: overlay(c.service_build_url, env_get(env, "BUILD_URL"@)),
        service_job_id: overlay(c.service_job_id, env_get(env, "BUILD_ID"@)),
        ..c
    }
}

/// Fills the record from the Jenkins variables.
pub fn load_config(config: &mut Config, env: &Env)
    ensures
        final(config)@ == jenkins_apply(old(config)@, env@),
{
    if let Some(v) = env.get_var("BUILD_NUMBER") {
        config.service_number = Some(v);
    }
    if let Some(v) = env.get_var("CI_PULL_REQUEST") {
        config.service_pull_request = Some(v);
    }
    if let Some(v) = env.get_var("BUILD_URL") {
        config.service_build_url = Some(v);
    }
    if let Some(v) = env.get_var("BUILD_ID") {
        config.service_job_id = Some(v);
    }
    proof {
        assert(config@ =~= jenkins_apply(old(config)@, env@));
    }
}

} // verus!
