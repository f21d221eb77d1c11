use coveralls_config::cli_args::{CliArgs, CliService, CliServiceArgs};
use coveralls_config::config::{resolve, Config, Env};
use coveralls_config::config::generic::detect_service_name;
use coveralls_config::text::tail_after_slash;

fn env_of(pairs: &[(&str, &str)]) -> Env {
    let vars: Vec<(String, String)> = pairs
        .iter()
        .map(|(n, v)| (n.to_string(), v.to_string()))
        .collect();
    Env::from_pairs(vars)
}

fn args_of(service: CliService) -> CliArgs {
    CliArgs {
        input: None,
        source_prefix: None,
        prune_dir: None,
        prune_absolutes: false,
        no_send: false,
        service,
    }
}

fn resolve_with(service: CliService, pairs: &[(&str, &str)]) -> Config {
    resolve(&args_of(service), &env_of(pairs))
}

#[test]
fn circleci_pull_request_url_becomes_number() {
    let c = resolve_with(
        CliService::CircleCI(CliServiceArgs::none()),
        &[("CIRCLE_PULL_REQUEST", "https://github.com/org/repo/pull/42")],
    );
    assert_eq!(c.service_pull_request.as_deref(), Some("42"));
}

#[test]
fn circleci_pull_request_without_slash_kept_whole() {
    let c = resolve_with(
        CliService::CircleCI(CliServiceArgs::none()),
        &[("CIRCLE_PULL_REQUEST", "42")],
    );
    assert_eq!(c.service_pull_request.as_deref(), Some("42"));
}

#[test]
fn circleci_pull_request_trailing_slash_gives_empty() {
    let c = resolve_with(
        CliService::CircleCI(CliServiceArgs::none()),
        &[("CIRCLE_PULL_REQUEST", "https://github.com/org/repo/pull/")],
    );
    assert_eq!(c.service_pull_request.as_deref(), Some(""));
}

#[test]
fn tail_after_slash_handles_multibyte_text() {
    assert_eq!(tail_after_slash("pr/числo-β"), "числo-β".to_string());
    assert_eq!(tail_after_slash("βγδ"), "βγδ".to_string());
}

#[test]
fn circleci_basic_fields() {
    let c = resolve_with(
        CliService::CircleCI(CliServiceArgs::none()),
        &[
            ("CIRCLE_BRANCH", "main"),
            ("CIRCLE_WORKFLOW_JOB_ID", "job-7"),
            ("CIRCLE_BUILD_URL", "https://circleci.com/gh/org/repo/9"),
        ],
    );
    assert_eq!(c.git_branch.as_deref(), Some("main"));
    assert_eq!(c.service_job_id.as_deref(), Some("job-7"));
    assert_eq!(
        c.service_build_url.as_deref(),
        Some("https://circleci.com/gh/org/repo/9")
    );
}

#[test]
fn circleci_build_num_overrides_workflow_id() {
    let c = resolve_with(
        CliService::CircleCI(CliServiceArgs::none()),
        &[("CIRCLE_WORKFLOW_ID", "wf-1"), ("CIRCLE_BUILD_NUM", "33")],
    );
    assert_eq!(c.service_number.as_deref(), Some("33"));
}

#[test]
fn circleci_workflow_id_used_when_build_num_absent() {
    let c = resolve_with(
        CliService::CircleCI(CliServiceArgs::none()),
        &[("CIRCLE_WORKFLOW_ID", "wf-1")],
    );
    assert_eq!(c.service_number.as_deref(), Some("wf-1"));
}

#[test]
fn absent_build_url_stays_absent() {
    let c = resolve_with(
        CliService::CircleCI(CliServiceArgs::none()),
        &[("CIRCLE_BRANCH", "main")],
    );
    assert_eq!(c.service_build_url, None);
}

#[test]
fn empty_variable_counts_as_absent() {
    let c = resolve_with(
        CliService::CircleCI(CliServiceArgs::none()),
        &[("CIRCLE_BRANCH", "")],
    );
    assert_eq!(c.git_branch, None);
}

#[test]
fn common_branch_name_overrides_git_branch() {
    let c = resolve_with(
        CliService::CircleCI(CliServiceArgs::none()),
        &[("GIT_BRANCH", "main"), ("BRANCH_NAME", "feature-x")],
    );
    assert_eq!(c.git_branch.as_deref(), Some("feature-x"));
}

#[test]
fn common_overlays_provider_branch() {
    let c = resolve_with(
        CliService::CircleCI(CliServiceArgs::none()),
        &[("CIRCLE_BRANCH", "circle"), ("GIT_BRANCH", "common")],
    );
    assert_eq!(c.git_branch.as_deref(), Some("common"));
}

#[test]
fn common_fields_map_to_record() {
    let c = resolve_with(
        CliService::Jenkins(CliServiceArgs::none()),
        &[
            ("COVERALLS_REPO_TOKEN", "tok-1"),
            ("COVERALLS_FLAG_NAME", "unit"),
            ("GIT_ID", "abc123"),
            ("GIT_MESSAGE", "fix the build"),
            ("GIT_AUTHOR_NAME", "Alex"),
            ("GIT_AUTHOR_EMAIL", "alex@example.com"),
            ("GIT_COMMITTER_NAME", "Sam"),
            ("GIT_COMMITTER_EMAIL", "sam@example.com"),
            ("GIT_REMOTE", "origin"),
            ("GIT_URL", "https://example.com/repo.git"),
        ],
    );
    assert_eq!(c.repo_token.as_deref(), Some("tok-1"));
    assert_eq!(c.flag_name.as_deref(), Some("unit"));
    assert_eq!(c.git_id.as_deref(), Some("abc123"));
    assert_eq!(c.git_message.as_deref(), Some("fix the build"));
    assert_eq!(c.git_author_name.as_deref(), Some("Alex"));
    assert_eq!(c.git_author_email.as_deref(), Some("alex@example.com"));
    assert_eq!(c.git_committer_name.as_deref(), Some("Sam"));
    assert_eq!(c.git_committer_email.as_deref(), Some("sam@example.com"));
    assert_eq!(c.git_remote_name.as_deref(), Some("origin"));
    assert_eq!(c.git_remote_url.as_deref(), Some("https://example.com/repo.git"));
}

#[test]
fn generic_coveralls_branch_overrides_ci_branch() {
    let c = resolve_with(
        CliService::Env,
        &[("CI_BRANCH", "dev"), ("COVERALLS_BRANCH", "release")],
    );
    assert_eq!(c.git_branch.as_deref(), Some("release"));
}

#[test]
fn generic_fields_map_to_record() {
    let c = resolve_with(
        CliService::Env,
        &[
            ("CI_BUILD_NUMBER", "12"),
            ("CI_BUILD_URL", "https://ci.example.com/12"),
            ("CI_JOB_ID", "j-1"),
            ("CI_JOB_NUMBER", "12.1"),
            ("CI_PULL_REQUEST", "77"),
        ],
    );
    assert_eq!(c.service_number.as_deref(), Some("12"));
    assert_eq!(c.service_build_url.as_deref(), Some("https://ci.example.com/12"));
    assert_eq!(c.service_job_id.as_deref(), Some("j-1"));
    assert_eq!(c.service_job_number.as_deref(), Some("12.1"));
    assert_eq!(c.service_pull_request.as_deref(), Some("77"));
}

#[test]
fn detect_service_name_coveralls_wins() {
    let env = env_of(&[("CI_NAME", "jenkins"), ("COVERALLS_SERVICE_NAME", "travis-ci")]);
    assert_eq!(detect_service_name(&env).as_deref(), Some("travis-ci"));
    let env2 = env_of(&[("CI_NAME", "jenkins")]);
    assert_eq!(detect_service_name(&env2).as_deref(), Some("jenkins"));
    let env3 = env_of(&[]);
    assert_eq!(detect_service_name(&env3), None);
}

#[test]
fn cli_flag_overrides_environment() {
    let mut overrides = CliServiceArgs::none();
    overrides.git_branch = Some("from-flag".to_string());
    overrides.repo_token = Some("tok-1".to_string());
    let c = resolve(
        &args_of(CliService::CircleCI(overrides)),
        &env_of(&[("CIRCLE_BRANCH", "from-env"), ("COVERALLS_REPO_TOKEN", "tok-env")]),
    );
    assert_eq!(c.git_branch.as_deref(), Some("from-flag"));
    assert_eq!(c.repo_token.as_deref(), Some("tok-1"));
}

#[test]
fn resolving_twice_gives_identical_records() {
    let pairs = [
        ("CIRCLE_BRANCH", "main"),
        ("CIRCLE_BUILD_NUM", "5"),
        ("COVERALLS_REPO_TOKEN", "tok-1"),
    ];
    let first = resolve_with(CliService::CircleCI(CliServiceArgs::none()), &pairs);
    let second = resolve_with(CliService::CircleCI(CliServiceArgs::none()), &pairs);
    assert_eq!(first, second);
}

#[test]
fn actions_fields_and_branch_precedence() {
    let c = resolve_with(
        CliService::Actions(CliServiceArgs::none()),
        &[
            ("GITHUB_REF", "refs/pull/5/merge"),
            ("GITHUB_HEAD_REF", "topic"),
            ("GITHUB_RUN_ID", "900"),
            ("GITHUB_JOB", "build"),
            ("GITHUB_RUN_NUMBER", "31"),
        ],
    );
    assert_eq!(c.git_branch.as_deref(), Some("topic"));
    assert_eq!(c.service_number.as_deref(), Some("900"));
    assert_eq!(c.service_pull_request.as_deref(), Some("refs/pull/5/merge"));
    assert_eq!(c.service_job_id.as_deref(), Some("build"));
    assert_eq!(c.service_job_number.as_deref(), Some("31"));
}

#[test]
fn appveyor_fields() {
    let c = resolve_with(
        CliService::AppVeyor(CliServiceArgs::none()),
        &[
            ("APPVEYOR_REPO_BRANCH", "master"),
            ("APPVEYOR_BUILD_NUMBER", "44"),
            ("APPVEYOR_PULL_REQUEST_NUMBER", "3"),
            ("APPVEYOR_BUILD_ID", "b-44"),
            ("APPVEYOR_JOB_NUMBER", "44.2"),
        ],
    );
    assert_eq!(c.git_branch.as_deref(), Some("master"));
    assert_eq!(c.service_number.as_deref(), Some("44"));
    assert_eq!(c.service_pull_request.as_deref(), Some("3"));
    assert_eq!(c.service_job_id.as_deref(), Some("b-44"));
    assert_eq!(c.service_job_number.as_deref(), Some("44.2"));
}

#[test]
fn buildkite_fields() {
    let c = resolve_with(
        CliService::BuildKite(CliServiceArgs::none()),
        &[
            ("BUILDKITE_BRANCH", "main"),
            ("BUILDKITE_BUILD_NUMBER", "61"),
            ("BUILDKITE_PULL_REQUEST", "8"),
            ("BUILDKITE_BUILD_URL", "https://buildkite.example/61"),
            ("BUILDKITE_JOB_ID", "j-61"),
        ],
    );
    assert_eq!(c.git_branch.as_deref(), Some("main"));
    assert_eq!(c.service_number.as_deref(), Some("61"));
    assert_eq!(c.service_pull_request.as_deref(), Some("8"));
    assert_eq!(c.service_build_url.as_deref(), Some("https://buildkite.example/61"));
    assert_eq!(c.service_job_id.as_deref(), Some("j-61"));
}

#[test]
fn travis_fields() {
    let c = resolve_with(
        CliService::Travis(CliServiceArgs::none()),
        &[
            ("TRAVIS_BRANCH", "main"),
            ("TRAVIS_BUILD_NUMBER", "17"),
            ("TRAVIS_PULL_REQUEST", "2"),
            ("TRAVIS_BUILD_WEB_URL", "https://travis.example/17"),
            ("TRAVIS_JOB_ID", "170001"),
            ("TRAVIS_JOB_NUMBER", "17.1"),
        ],
    );
    assert_eq!(c.git_branch.as_deref(), Some("main"));
    assert_eq!(c.service_number.as_deref(), Some("17"));
    assert_eq!(c.service_pull_request.as_deref(), Some("2"));
    assert_eq!(c.service_build_url.as_deref(), Some("https://travis.example/17"));
    assert_eq!(c.service_job_id.as_deref(), Some("170001"));
    assert_eq!(c.service_job_number.as_deref(), Some("17.1"));
}

#[test]
fn semaphore_fields_and_precedence() {
    let c = resolve_with(
        CliService::Semaphore(CliServiceArgs::none()),
        &[
            ("SEMAPHORE_GIT_BRANCH", "main"),
            ("SEMAPHORE_EXECUTABLE_UUID", "ex-1"),
            ("SEMAPHORE_WORKFLOW_ID", "wf-2"),
            ("SEMAPHORE_BRANCH_ID", "br-3"),
            ("SEMAPHORE_GIT_PR_NUMBER", "4"),
            ("SEMAPHORE_JOB_UUID", "ju-5"),
            ("SEMAPHORE_JOB_ID", "ji-6"),
            ("SEMAPHORE_WORKFLOW_NUMBER", "7"),
        ],
    );
    assert_eq!(c.git_branch.as_deref(), Some("main"));
    assert_eq!(c.service_number.as_deref(), Some("wf-2"));
    assert_eq!(c.service_pull_request.as_deref(), Some("4"));
    assert_eq!(c.service_job_id.as_deref(), Some("ji-6"));
    assert_eq!(c.service_job_number.as_deref(), Some("7"));
}

#[test]
fn jenkins_fields() {
    let c = resolve_with(
        CliService::Jenkins(CliServiceArgs::none()),
        &[
            ("BUILD_NUMBER", "88"),
            ("CI_PULL_REQUEST", "12"),
            ("BUILD_URL", "https://jenkins.example/88"),
            ("BUILD_ID", "88"),
        ],
    );
    assert_eq!(c.service_number.as_deref(), Some("88"));
    assert_eq!(c.service_pull_request.as_deref(), Some("12"));
    assert_eq!(c.service_build_url.as_deref(), Some("https://jenkins.example/88"));
    assert_eq!(c.service_job_id.as_deref(), Some("88"));
    assert_eq!(c.git_branch, None);
}

#[test]
fn global_flags_are_copied() {
    let mut args = args_of(CliService::Env);
    args.source_prefix = Some("src".to_string());
    args.prune_dir = Some(vec!["target".to_string(), "vendor".to_string()]);
    args.prune_absolutes = true;
    args.no_send = true;
    let c = resolve(&args, &env_of(&[]));
    assert_eq!(c.source_prefix.as_deref(), Some("src"));
    assert_eq!(c.prune_dirs, vec!["target".to_string(), "vendor".to_string()]);
    assert!(c.prune_absolutes);
    assert!(c.no_send);
}

#[test]
fn get_var_first_match_and_empty_rules() {
    let env = env_of(&[("A", "one"), ("A", "two"), ("B", "")]);
    assert_eq!(env.get_var("A").as_deref(), Some("one"));
    assert_eq!(env.get_var("B"), None);
    assert_eq!(env.get_var("C"), None);
}

#[test]
fn generic_coveralls_variables_override_ci_variables() {
    let c = resolve_with(
        CliService::Env,
        &[
            ("CI_BUILD_NUMBER", "1"),
            ("COVERALLS_SERVICE_NUMBER", "2"),
            ("CI_PULL_REQUEST", "3"),
            ("COVERALLS_PULL_REQUEST", "4"),
            ("CI_BUILD_URL", "https://a.example"),
            ("COVERALLS_BUILD_URL", "https://b.example"),
            ("CI_JOB_ID", "j-a"),
            ("COVERALLS_SERVICE_JOB_ID", "j-b"),
            ("CI_JOB_NUMBER", "5"),
            ("COVERALLS_SERVICE_JOB_NUMBER", "6"),
        ],
    );
    assert_eq!(c.service_number.as_deref(), Some("2"));
    assert_eq!(c.service_pull_request.as_deref(), Some("4"));
    assert_eq!(c.service_build_url.as_deref(), Some("https://b.example"));
    assert_eq!(c.service_job_id.as_deref(), Some("j-b"));
    assert_eq!(c.service_job_number.as_deref(), Some("6"));
}

#[test]
fn semaphore_first_candidates_used_when_second_absent() {
    let c = resolve_with(
        CliService::Semaphore(CliServiceArgs::none()),
        &[
            ("SEMAPHORE_EXECUTABLE_UUID", "ex-1"),
            ("SEMAPHORE_BRANCH_ID", "br-3"),
            ("SEMAPHORE_JOB_UUID", "ju-5"),
        ],
    );
    assert_eq!(c.service_number.as_deref(), Some("ex-1"));
    assert_eq!(c.service_pull_request.as_deref(), Some("br-3"));
    assert_eq!(c.service_job_id.as_deref(), Some("ju-5"));
}

#[test]
fn actions_ref_used_when_head_ref_absent() {
    let c = resolve_with(
        CliService::Actions(CliServiceArgs::none()),
        &[("GITHUB_REF", "refs/heads/main")],
    );
    assert_eq!(c.git_branch.as_deref(), Some("refs/heads/main"));
}
