//! The common variables, read for every provider after the provider's own
//! set and overlaying it.

use vstd::prelude::*;
use super::{Config, ConfigModel, Env, env_get, overlay};

verus! {

/// The record after overlaying the common variables: the repo token, the
/// flag name, the git commit fields, and the branch.  The branch has two
/// candidates; when both are present the later-read `BRANCH_NAME` wins.
pub open spec fn common_apply(c: ConfigModel, env: Seq<(String, String)>) -> ConfigModel {
    ConfigModel {
        repo_token: overlay(c.repo_token, env_get(env, "COVERALLS_REPO_TOKEN"@)),
        flag_name: overlay(c.flag_name, env_get(env, "COVERALLS_FLAG_NAME"@)),
        git_id: overlay(c.git_id, env_get(env, "GIT_ID"@)),
        git_message: overlay(c.git_message, env_get(env, "GIT_MESSAGE"@)),
        git_author_name: overlay(c.git_author_name, env_get(env, "GIT_AUTHOR_NAME"@)),
        git_author_email: overlay(c.git_author_email, env_get(env, "GIT_AUTHOR_EMAIL"@)),
        git_committer_name: overlay(c.git_committer_name, env_get(env, "GIT_COMMITTER_NAME"@)),
        git_committer_email: overlay(c.git_committer_email, env_get(env, "GIT_COMMITTER_EMAIL"@)),
        git_remote_name: overlay(c.git_remote_name, env_get(env, "GIT_REMOTE"@)),
        git_remote_url: overlay(c.git_remote_url, env_get(env, "GIT_URL"@)),
        git_branch: overlay(
            overlay(c.git_branch, env_get(env, "GIT_BRANCH"@)),
            env_get(env, "BRANCH_NAME"@),
        ),
        ..c
    }
}

/// Overlays the record with the common variables.
#[verifier::rlimit(50)]
pub fn load_config(config: &mut Config, env: &Env)
    ensures
        final(config)@ == common_apply(old(config)@, env@),
{
    if let Some(v) = env.get_var("COVERALLS_REPO_TOKEN") {
        config.repo_token = Some(v);
    }
    if let Some(v) = env.get_var("COVERALLS_FLAG_NAME") {
        config.flag_name = Some(v);
    }
    if let Some(v) = env.get_var("GIT_ID") {
        config.git_id = Some(v);
    }
    if let Some(v) = env.get_var("GIT_MESSAGE") {
        config.git_message = Some(v);
    }
    if let Some(v) = env.get_var("GIT_AUTHOR_NAME") {
        config.git_author_name = Some(v);
    }
    if let Some(v) = env.get_var("GIT_AUTHOR_EMAIL") {
        config.git_author_email = Some(v);
    }
    if let Some(v) = env.get_var("GIT_COMMITTER_NAME") {
        config.git_committer_name = Some(v);
    }
    if let Some(v) = env.get_var("GIT_COMMITTER_EMAIL") {
        config.git_committer_email = Some(v);
    }
    if let Some(v) = env.get_var("GIT_REMOTE") {
        config.git_remote_name = Some(v);
    }
    if let Some(v) = env.get_var("GIT_URL") {
        config.git_remote_url = Some(v);
    }
    if let Some(v) = env.get_var("GIT_BRANCH") {
        config.git_branch = Some(v);
    }
    if let Some(v) = env.get_var("BRANCH_NAME") {
        config.git_branch = Some(v);
    }
    proof {
        assert(config@ =~= common_apply(old(config)@, env@));
    }
}

} // verus!
