//! The configuration record, the environment snapshot, and the spec-level
//! model both are measured against.

use vstd::prelude::*;
use vstd::string::StringExecFns;
use crate::cli_args::{CliArgs, CliService, CliServiceArgs};

verus! {

/// Mathematical model of a configuration record: every string field as a
/// sequence of characters, or `None` where no source supplied a value.
#[verifier::ext_equal]
pub ghost struct ConfigModel {
    pub repo_token: Option<Seq<char>>,
    pub flag_name: Option<Seq<char>>,
    pub service_number: Option<Seq<char>>,
    pub service_build_url: Option<Seq<char>>,
    pub service_pull_request: Option<Seq<char>>,
    pub service_job_id: Option<Seq<char>>,
    pub service_job_number: Option<Seq<char>>,
    pub git_id: Option<Seq<char>>,
    pub git_branch: Option<Seq<char>>,
    pub git_message: Option<Seq<char>>,
    pub git_author_name: Option<Seq<char>>,
    pub git_author_email: Option<Seq<char>>,
    pub git_committer_name: Option<Seq<char>>,
    pub git_committer_email: Option<Seq<char>>,
    pub git_remote_name: Option<Seq<char>>,
    pub git_remote_url: Option<Seq<char>>,
    pub source_prefix: Option<Seq<char>>,
    pub prune_dirs: Seq<Seq<char>>,
    pub prune_absolutes: bool,
    pub no_send: bool,
}

/// The record with every field unset.
pub open spec fn empty_model() -> ConfigModel {
    ConfigModel {
        repo_token: None,
        flag_name: None,
        service_number: None,
        service_build_url: None,
        service_pull_request: None,
        service_job_id: None,
        service_job_number: None,
        git_id: None,
        git_branch: None,
        git_message: None,
        git_author_name: None,
        git_author_email: None,
        git_committer_name: None,
        git_committer_email: None,
        git_remote_name: None,
        git_remote_url: None,
        source_prefix: None,
        prune_dirs: Seq::empty(),
        prune_absolutes: false,
        no_send: false,
    }
}

/// The view of an optional owned string.
pub open spec fn opt_view(o: Option<String>) -> Option<Seq<char>> {
    match o {
        Some(s) => Some(s@),
        None => None,
    }
}

/// Last-write-wins overlay of one field: a present value replaces the base.
pub open spec fn overlay(base: Option<Seq<char>>, v: Option<Seq<char>>) -> Option<Seq<char>> {
    if v is Some {
        v
    } else {
        base
    }
}

/// The flat record of build metadata handed to the coverage upload step.
#[derive(Debug, PartialEq, Eq)]
pub struct Config {
    pub repo_token: Option<String>,
    pub flag_name: Option<String>,
    pub service_number: Option<String>,
    pub service_build_url: Option<String>,
    pub service_pull_request: Option<String>,
    pub service_job_id: Option<String>,
    pub service_job_number: Option<String>,
    pub git_id: Option<String>,
    pub git_branch: Option<String>,
    pub git_message: Option<String>,
    pub git_author_name: Option<String>,
    pub git_author_email: Option<String>,
    pub git_committer_name: Option<String>,
    pub git_committer_email: Option<String>,
    pub git_remote_name: Option<String>,
    pub git_remote_url: Option<String>,
    pub source_prefix: Option<String>,
    pub prune_dirs: Vec<String>,
    pub prune_absolutes: bool,
    pub no_send: bool,
}

impl View for Config {
    type V = ConfigModel;

    open spec fn view(&self) -> ConfigModel {
        ConfigModel {
            repo_token: opt_view(self.repo_token),
            flag_name: opt_view(self.flag_name),
            service_number: opt_view(self.service_number),
            service_build_url: opt_view(self.service_build_url),
            service_pull_request: opt_view(self.service_pull_request),
            service_job_id: opt_view(self.service_job_id),
            service_job_number: opt_view(self.service_job_number),
            git_id: opt_view(self.git_id),
            git_branch: opt_view(self.git_branch),
            git_message: opt_view(self.git_message),
            git_author_name: opt_view(self.git_author_name),
            git_author_email: opt_view(self.git_author_email),
            git_committer_name: opt_view(self.git_committer_name),
            git_committer_email: opt_view(self.git_committer_email),
            git_remote_name: opt_view(self.git_remote_name),
            git_remote_url: opt_view(self.git_remote_url),
            source_prefix: opt_view(self.source_prefix),
            prune_dirs: self.prune_dirs@.map_values(|s: String| s@),
            prune_absolutes: self.prune_absolutes,
            no_send: self.no_send,
        }
    }
}

impl Config {
    /// A fresh record with no field set.
    pub fn new() -> (c: Config)
        ensures
            c@ == empty_model(),
    {
        let c = Config {
            repo_token: None,
            flag_name: None,
            service_number: None,
            service_build_url: None,
            service_pull_request: None,
            service_job_id: None,
            service_job_number: None,
            git_id: None,
            git_branch: None,
            git_message: None,
            git_author_name: None,
            git_author_email: None,
            git_committer_name: None,
            git_committer_email: None,
            git_remote_name: None,
            git_remote_url: None,
            source_prefix: None,
            prune_dirs: Vec::new(),
            prune_absolutes: false,
            no_send: false,
        };
        proof {
            assert(c@ =~= empty_model());
        }
        c
    }
}

/// A snapshot of the process environment: name/value pairs, in the order the
/// host handed them over.
pub struct Env {
    pub vars: Vec<(String, String)>,
}

impl View for Env {
    type V = Seq<(String, String)>;

    open spec fn view(&self) -> Seq<(String, String)> {
        self.vars@
    }
}

/// The value a named variable resolves to in a snapshot: the value of the
/// first pair carrying the name, and `None` when that value is empty or no
/// pair carries the name.
pub open spec fn env_get(vars: Seq<(String, String)>, name: Seq<char>) -> Option<Seq<char>>
    decreases vars.len(),
{
    if vars.len() == 0 {
        None
    } else if vars[0].0@ == name {
        if vars[0].1@.len() > 0 {
            Some(vars[0].1@)
        } else {
            None
        }
    } else {
        env_get(vars.drop_first(), name)
    }
}

impl Env {
    /// Wraps a list of name/value pairs as an environment snapshot.
    pub fn from_pairs(vars: Vec<(String, String)>) -> (e: Env)
        ensures
            e@ == vars@,
    {
        Env { vars }
    }

    /// Looks a variable up by name; an unset or empty variable is absent.
    pub fn get_var(&self, name: &str) -> (r: Option<String>)
        ensures
            opt_view(r) == env_get(self@, name@),
    {
        let key = String::from_str(name);
        let n = self.vars.len();
        let mut i: usize = 0;
        proof {
            assert(self@.skip(0) =~= self@);
        }
        while i < n
            invariant
                n == self.vars.len(),
                0 <= i <= n,
                key@ == name@,
                env_get(self@, name@) == env_get(self@.skip(i as int), name@),
            decreases n - i,
        {
            if self.vars[i].0 == key {
                proof {
                    assert(self@.skip(i as int)[0] == self@[i as int]);
                }
                if self.vars[i].1.as_str().is_empty() {
                    return None;
                } else {
                    return Some(self.vars[i].1.clone());
                }
            }
            proof {
                assert(self@.skip(i as int).drop_first() =~= self@.skip(i as int + 1));
            }
            i = i + 1;
        }
        proof {
            assert(self@.skip(n as int) =~= Seq::<(String, String)>::empty());
        }
        None
    }
}


/// The view of the optional list of pruned directories; absent means none.
pub open spec fn prune_view(o: Option<Vec<String>>) -> Seq<Seq<char>> {
    match o {
        Some(v) => v@.map_values(|s: String| s@),
        None => Seq::empty(),
    }
}

/// The record after overlaying the explicit command-line values: a field the
/// command line supplies replaces whatever the environment put there, and a
/// field it leaves out is untouched.
pub open spec fn merge_apply(c: ConfigModel, a: CliServiceArgs) -> ConfigModel {
    ConfigModel {
        repo_token: overlay(c.repo_token, opt_view(a.repo_token)),
        flag_name: overlay(c.flag_name, opt_view(a.flag_name)),
        service_number: overlay(c.service_number, opt_view(a.service_number)),
        service_build_url: overlay(c.service_build_url, opt_view(a.service_build_url)),
        service_pull_request: overlay(c.service_pull_request, opt_view(a.service_pull_request)),
        service_job_id: overlay(c.service_job_id, opt_view(a.service_job_id)),
        service_job_number: overlay(c.service_job_number, opt_view(a.service_job_number)),
        git_id: overlay(c.git_id, opt_view(a.git_id)),
        git_branch: overlay(c.git_branch, opt_view(a.git_branch)),
        git_message: overlay(c.git_message, opt_view(a.git_message)),
        git_author_name: overlay(c.git_author_name, opt_view(a.git_author_name)),
        git_author_email: overlay(c.git_author_email, opt_view(a.git_author_email)),
        git_committer_name: overlay(c.git_committer_name, opt_view(a.git_committer_name)),
        git_committer_email: overlay(c.git_committer_email, opt_view(a.git_committer_email)),
        git_remote_name: overlay(c.git_remote_name, opt_view(a.git_remote_name)),
        git_remote_url: overlay(c.git_remote_url, opt_view(a.git_remote_url)),
        ..c
    }
}

/// A copy of an optional owned string.
fn clone_opt(o: &Option<String>) -> (r: Option<String>)
    ensures
        r == *o,
{
    match o {
        Some(s) => Some(s.clone()),
        None => None,
    }
}

/// A copy of a list of owned strings.
fn clone_strings(v: &Vec<String>) -> (r: Vec<String>)
    ensures
        r@ == v@,
{
    let mut r: Vec<String> = Vec::new();
    let n = v.len();
    let mut i: usize = 0;
    while i < n
        invariant
            n == v.len(),
            0 <= i <= n,
            r@ == v@.subrange(0, i as int),
        decreases n - i,
    {
        r.push(v[i].clone());
        proof {
            assert(r@ =~= v@.subrange(0, i as int + 1));
        }
        i = i + 1;
    }
    proof {
        assert(v@.subrange(0, n as int) =~= v@);
    }
    r
}

/// A copy of the base, or of the overriding value where there is one.
fn overlay_exec(base: &Option<String>, v: &Option<String>) -> (r: Option<String>)
    ensures
        opt_view(r) == overlay(opt_view(*base), opt_view(*v)),
{
    match v {
        Some(s) => Some(s.clone()),
        None => clone_opt(base),
    }
}

/// Overlays the record with the explicit command-line values.
pub fn merge(config: &mut Config, args: &CliServiceArgs)
    ensures
        final(config)@ == merge_apply(old(config)@, *args),
{
    config.repo_token = overlay_exec(&config.repo_token, &args.repo_token);
    config.flag_name = overlay_exec(&config.flag_name, &args.flag_name);
    config.service_number = overlay_exec(&config.service_number, &args.service_number);
    config.service_build_url = overlay_exec(&config.service_build_url, &args.service_build_url);
    config.service_pull_request = overlay_exec(
        &config.service_pull_request,
        &args.service_pull_request,
    );
    config.service_job_id = overlay_exec(&config.service_job_id, &args.service_job_id);
    config.service_job_number = overlay_exec(&config.service_job_number, &args.service_job_number);
    config.git_id = overlay_exec(&config.git_id, &args.git_id);
    config.git_branch = overlay_exec(&config.git_branch, &args.git_branch);
    config.git_message = overlay_exec(&config.git_message, &args.git_message);
    config.git_author_name = overlay_exec(&config.git_author_name, &args.git_author_name);
    config.git_author_email = overlay_exec(&config.git_author_email, &args.git_author_email);
    config.git_committer_name = overlay_exec(&config.git_committer_name, &args.git_committer_name);
    config.git_committer_email = overlay_exec(
        &config.git_committer_email,
        &args.git_committer_email,
    );
    config.git_remote_name = overlay_exec(&config.git_remote_name, &args.git_remote_name);
    config.git_remote_url = overlay_exec(&config.git_remote_url, &args.git_remote_url);
    proof {
        assert(config@ =~= merge_apply(old(config)@, *args));
    }
}

/// The record the selected provider reads from the environment, before the
/// common variables and the command-line values are overlaid.
pub open spec fn provider_apply(s: CliService, env: Seq<(String, String)>) -> ConfigModel {
    match s {
        CliService::CircleCI(_) => circleci::circleci_apply(empty_model(), env),
        CliService::Actions(_) => actions::actions_apply(empty_model(), env),
        CliService::AppVeyor(_) => appveyor::appveyor_apply(empty_model(), env),
        CliService::BuildKite(_) => buildkite::buildkite_apply(empty_model(), env),
        CliService::Travis(_) => travis::travis_apply(empty_model(), env),
        CliService::Semaphore(_) => semaphore::semaphore_apply(empty_model(), env),
        CliService::Jenkins(_) => jenkins::jenkins_apply(empty_model(), env),
        CliService::Env => generic::generic_apply(empty_model(), env),
    }
}

/// The explicit per-field overrides the command line carries, if any; the
/// auto-detect mode takes none.
pub open spec fn service_overrides(s: CliService) -> Option<CliServiceArgs> {
    match s {
        CliService::CircleCI(a) => Some(a),
        CliService::Actions(a) => Some(a),
        CliService::AppVeyor(a) => Some(a),
        CliService::BuildKite(a) => Some(a),
        CliService::Travis(a) => Some(a),
        CliService::Semaphore(a) => Some(a),
        CliService::Jenkins(a) => Some(a),
        CliService::Env => None,
    }
}

/// The resolved record: the provider's variables first, the common variables
/// next, the command-line values last, and the global flags copied over.
pub open spec fn resolve_model(args: CliArgs, env: Seq<(String, String)>) -> ConfigModel {
    let from_env = common::common_apply(provider_apply(args.service, env), env);
    let merged = (match service_overrides(args.service) {
        Some(a) => merge_apply(from_env, a),
        None => from_env,
    });
    ConfigModel {
        source_prefix: opt_view(args.source_prefix),
        prune_dirs: prune_view(args.prune_dir),
        prune_absolutes: args.prune_absolutes,
        no_send: args.no_send,
        ..merged
    }
}

/// Builds the finished record for one invocation: provider variables, then
/// common variables, then explicit command-line values, last writer winning
/// field by field.
pub fn resolve(args: &CliArgs, env: &Env) -> (c: Config)
    ensures
        c@ == resolve_model(*args, env@),
{
    let mut c = Config::new();
    match &args.service {
        CliService::CircleCI(a) => {
            circleci::load_config(&mut c, env);
            common::load_config(&mut c, env);
            merge(&mut c, a);
        },
        CliService::Actions(a) => {
            actions::load_config(&mut c, env);
            common::load_config(&mut c, env);
            merge(&mut c, a);
        },
        CliService::AppVeyor(a) => {
            appveyor::load_config(&mut c, env);
            common::load_config(&mut c, env);
            merge(&mut c, a);
        },
        CliService::BuildKite(a) => {
            buildkite::load_config(&mut c, env);
            common::load_config(&mut c, env);
            merge(&mut c, a);
        },
        CliService::Travis(a) => {
            travis::load_config(&mut c, env);
            common::load_config(&mut c, env);
            merge(&mut c, a);
        },
        CliService::Semaphore(a) => {
            semaphore::load_config(&mut c, env);
            common::load_config(&mut c, env);
            merge(&mut c, a);
        },
        CliService::Jenkins(a) => {
            jenkins::load_config(&mut c, env);
            common::load_config(&mut c, env);
            merge(&mut c, a);
        },
        CliService::Env => {
            generic::load_config(&mut c, env);
            common::load_config(&mut c, env);
        },
    }
    c.source_prefix = clone_opt(&args.source_prefix);
    c.prune_dirs = (match &args.prune_dir {
        Some(v) => clone_strings(v),
        None => Vec::new(),
    });
    c.prune_absolutes = args.prune_absolutes;
    c.no_send = args.no_send;
    proof {
        assert(c@ =~= resolve_model(*args, env@));
    }
    c
}


} // verus!

pub mod circleci;
pub mod common;
pub mod actions;
pub mod appveyor;
pub mod buildkite;
pub mod travis;
pub mod semaphore;
pub mod jenkins;
pub mod generic;
