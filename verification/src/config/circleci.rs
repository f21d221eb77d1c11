//! Circle-CI: its environment variables and their precedence.

use vstd::prelude::*;
use super::{Config, ConfigModel, Env, env_get, overlay};
use crate::text::{after_last_slash, tail_after_slash};

verus! {

/// The record after reading the Circle-CI variables: branch, workflow and
/// build identifiers, and the pull-request number taken from the tail of the
/// pull-request URL.  Where both candidates of a field are present the
/// later-read one wins.
pub open spec fn circleci_apply(c: ConfigModel, env: Seq<(String, String)>) -> ConfigModel {
    ConfigModel {
        git_branch: overlay(c.git_branch, env_get(env, "CIRCLE_BRANCH"@)),
        service_job_id: overlay(c.service_job_id, env_get(env, "CIRCLE_WORKFLOW_JOB_ID"@)),
        service_number: overlay(
            overlay(c.service_number, env_get(env, "CIRCLE_WORKFLOW_ID"@)),
            env_get(env, "CIRCLE_BUILD_NUM"@),
        ),
        service_pull_request: (match env_get(env, "CIRCLE_PULL_REQUEST"@) {
            Some(v) => Some(after_last_slash(v)),
            None => c.service_pull_request,
        }),
        service_build_url: overlay(c.service_build_url, env_get(env, "CIRCLE_BUILD_URL"@)),
        ..c
    }
}

/// Fills the record from the Circle-CI variables.
pub fn load_config(config: &mut Config, env: &Env)
    ensures
        final(config)@ == circleci_apply(old(config)@, env@),
{
    if let Some(v) = env.get_var("CIRCLE_BRANCH") {
        config.git_branch = Some(v);
    }
    if let Some(v) = env.get_var("CIRCLE_WORKFLOW_JOB_ID") {
        config.service_job_id = Some(v);
    }
    if let Some(v) = env.get_var("CIRCLE_WORKFLOW_ID") {
        config.service_number = Some(v);
    }
    if let Some(v) = env.get_var("CIRCLE_BUILD_NUM") {
        config.service_number = Some(v);
    }
    if let Some(v) = env.get_var("CIRCLE_PULL_REQUEST") {
        config.service_pull_request = Some(tail_after_slash(v.as_str()));
    }
    if let Some(v) = env.get_var("CIRCLE_BUILD_URL") {
        config.service_build_url = Some(v);
    }
    proof {
        assert(config@ =~= circleci_apply(old(config)@, env@));
    }
}

} // verus!
