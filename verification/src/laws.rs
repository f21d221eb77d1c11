//! Properties of the resolution, stated over the same model its contracts
//! use and proved once and for all.

use vstd::prelude::*;
use crate::cli_args::{CliArgs, CliService};
use crate::config::{
    empty_model, env_get, opt_view, overlay, resolve_model, service_overrides, ConfigModel,
};
use crate::config::actions::actions_apply;
use crate::config::circleci::circleci_apply;
use crate::config::common::common_apply;
use crate::config::generic::generic_apply;
use crate::config::semaphore::semaphore_apply;

verus! {

/// For a field with two candidate sources read in order, the later-read
/// present one wins; the earlier one counts only where the later is absent,
/// and the base only where both are.
pub proof fn lemma_last_listed_wins(
    base: Option<Seq<char>>,
    first: Option<Seq<char>>,
    second: Option<Seq<char>>,
)
    ensures
        second is Some ==> overlay(overlay(base, first), second) == second,
        second is None && first is Some ==> overlay(overlay(base, first), second) == first,
        second is None && first is None ==> overlay(overlay(base, first), second) == base,
{
}

/// Every multi-candidate field keeps the last-listed present variable, not
/// the first: shown for each such field of the provider tables.
pub proof fn lemma_last_present_variable_wins(c: ConfigModel, env: Seq<(String, String)>)
    ensures
        env_get(env, "CIRCLE_BUILD_NUM"@) is Some ==> circleci_apply(c, env).service_number
            == env_get(env, "CIRCLE_BUILD_NUM"@),
        env_get(env, "CIRCLE_BUILD_NUM"@) is None && env_get(env, "CIRCLE_WORKFLOW_ID"@) is Some
            ==> circleci_apply(c, env).service_number == env_get(env, "CIRCLE_WORKFLOW_ID"@),
        env_get(env, "GITHUB_HEAD_REF"@) is Some ==> actions_apply(c, env).git_branch == env_get(
            env,
            "GITHUB_HEAD_REF"@,
        ),
        env_get(env, "GITHUB_HEAD_REF"@) is None && env_get(env, "GITHUB_REF"@) is Some
            ==> actions_apply(c, env).git_branch == env_get(env, "GITHUB_REF"@),
        env_get(env, "SEMAPHORE_WORKFLOW_ID"@) is Some ==> semaphore_apply(c, env).service_number
            == env_get(env, "SEMAPHORE_WORKFLOW_ID"@),
        env_get(env, "SEMAPHORE_GIT_PR_NUMBER"@) is Some ==> semaphore_apply(
            c,
            env,
        ).service_pull_request == env_get(env, "SEMAPHORE_GIT_PR_NUMBER"@),
        env_get(env, "SEMAPHORE_JOB_ID"@) is Some ==> semaphore_apply(c, env).service_job_id
            == env_get(env, "SEMAPHORE_JOB_ID"@),
        env_get(env, "BRANCH_NAME"@) is Some ==> common_apply(c, env).git_branch == env_get(
            env,
            "BRANCH_NAME"@,
        ),
        env_get(env, "BRANCH_NAME"@) is None && env_get(env, "GIT_BRANCH"@) is Some
            ==> common_apply(c, env).git_branch == env_get(env, "GIT_BRANCH"@),
        env_get(env, "COVERALLS_BRANCH"@) is Some ==> generic_apply(c, env).git_branch == env_get(
            env,
            "COVERALLS_BRANCH"@,
        ),
        env_get(env, "COVERALLS_BRANCH"@) is None && env_get(env, "CI_BRANCH"@) is Some
            ==> generic_apply(c, env).git_branch == env_get(env, "CI_BRANCH"@),
        env_get(env, "COVERALLS_SERVICE_NUMBER"@) is Some ==> generic_apply(c, env).service_number
            == env_get(env, "COVERALLS_SERVICE_NUMBER"@),
        env_get(env, "COVERALLS_PULL_REQUEST"@) is Some ==> generic_apply(
            c,
            env,
        ).service_pull_request == env_get(env, "COVERALLS_PULL_REQUEST"@),
        env_get(env, "COVERALLS_BUILD_URL"@) is Some ==> generic_apply(c, env).service_build_url
            == env_get(env, "COVERALLS_BUILD_URL"@),
        env_get(env, "COVERALLS_SERVICE_JOB_ID"@) is Some ==> generic_apply(c, env).service_job_id
            == env_get(env, "COVERALLS_SERVICE_JOB_ID"@),
        env_get(env, "COVERALLS_SERVICE_JOB_NUMBER"@) is Some ==> generic_apply(
            c,
            env,
        ).service_job_number == env_get(env, "COVERALLS_SERVICE_JOB_NUMBER"@),
{
}

/// A representative field at the top level: with no explicit override, the
/// resolved Circle-CI service number is the last-listed present variable.
pub proof fn lemma_resolved_field_from_environment(args: CliArgs, env: Seq<(String, String)>)
    requires
        args.service matches CliService::CircleCI(a) && a.service_number is None,
    ensures
        env_get(env, "CIRCLE_BUILD_NUM"@) is Some ==> resolve_model(args, env).service_number
            == env_get(env, "CIRCLE_BUILD_NUM"@),
        env_get(env, "CIRCLE_BUILD_NUM"@) is None ==> resolve_model(args, env).service_number
            == env_get(env, "CIRCLE_WORKFLOW_ID"@),
{
}

/// A field supplied on the command line ends up in the resolved record as
/// given, whatever the environment holds.
pub proof fn lemma_cli_flag_wins(args: CliArgs, env: Seq<(String, String)>)
    ensures
        service_overrides(args.service) matches Some(a) ==> {
            &&& (a.repo_token is Some ==> resolve_model(args, env).repo_token == opt_view(
                a.repo_token,
            ))
            &&& (a.flag_name is Some ==> resolve_model(args, env).flag_name == opt_view(
                a.flag_name,
            ))
            &&& (a.service_number is Some ==> resolve_model(args, env).service_number == opt_view(
                a.service_number,
            ))
            &&& (a.service_build_url is Some ==> resolve_model(args, env).service_build_url
                == opt_view(a.service_build_url))
            &&& (a.service_pull_request is Some ==> resolve_model(args, env).service_pull_request
                == opt_view(a.service_pull_request))
            &&& (a.service_job_id is Some ==> resolve_model(args, env).service_job_id == opt_view(
                a.service_job_id,
            ))
            &&& (a.service_job_number is Some ==> resolve_model(args, env).service_job_number
                == opt_view(a.service_job_number))
            &&& (a.git_id is Some ==> resolve_model(args, env).git_id == opt_view(a.git_id))
            &&& (a.git_branch is Some ==> resolve_model(args, env).git_branch == opt_view(
                a.git_branch,
            ))
            &&& (a.git_message is Some ==> resolve_model(args, env).git_message == opt_view(
                a.git_message,
            ))
            &&& (a.git_author_name is Some ==> resolve_model(args, env).git_author_name
                == opt_view(a.git_author_name))
            &&& (a.git_author_email is Some ==> resolve_model(args, env).git_author_email
                == opt_view(a.git_author_email))
            &&& (a.git_committer_name is Some ==> resolve_model(args, env).git_committer_name
                == opt_view(a.git_committer_name))
            &&& (a.git_committer_email is Some ==> resolve_model(args, env).git_committer_email
                == opt_view(a.git_committer_email))
            &&& (a.git_remote_name is Some ==> resolve_model(args, env).git_remote_name
                == opt_view(a.git_remote_name))
            &&& (a.git_remote_url is Some ==> resolve_model(args, env).git_remote_url == opt_view(
                a.git_remote_url,
            ))
        },
{
}

/// Resolution reads nothing but the flags and the snapshot: from equal
/// inputs come identical records, so resolving twice changes nothing.
pub proof fn lemma_resolution_repeatable(
    args1: CliArgs,
    args2: CliArgs,
    env1: Seq<(String, String)>,
    env2: Seq<(String, String)>,
)
    requires
        args1 == args2,
        env1 == env2,
    ensures
        resolve_model(args1, env1) == resolve_model(args2, env2),
{
}

/// A field no variable and no flag supplies stays absent, shown for the
/// Circle-CI build URL: unset variable and no explicit value give `None`,
/// not an empty string.
pub proof fn lemma_absent_stays_absent(args: CliArgs, env: Seq<(String, String)>)
    requires
        args.service matches CliService::CircleCI(a) && a.service_build_url is None,
        env_get(env, "CIRCLE_BUILD_URL"@) is None,
    ensures
        resolve_model(args, env).service_build_url is None,
{
}

/// Starting from the empty record, a provider field fed by one variable is
/// exactly that variable's value.
pub proof fn lemma_single_variable_field(env: Seq<(String, String)>)
    ensures
        circleci_apply(empty_model(), env).git_branch == env_get(env, "CIRCLE_BRANCH"@),
        circleci_apply(empty_model(), env).service_build_url == env_get(env, "CIRCLE_BUILD_URL"@),
{
}

} // verus!
