//! The settings every command runs with.
use vstd::prelude::*;
use crate::args::CommandArguments;
use crate::text::concat;

verus! {

/// The names and version a command works with, fixed for one invocation.
#[derive(Debug, Clone, PartialEq, Eq)]
pub struct Config {
    pub environment: String,
    pub version: String,
    pub project: String,
    pub application: String,
    pub region: String,
    pub aws_account_id: String,
}

/// The image version of a commit: the commit id, or `{environment}-{commit}`
/// when image tags carry the environment.
pub open spec fn version_text(use_env_prefix: bool, commit_sha: Seq<char>, environment: Seq<char>) -> Seq<char> {
    if use_env_prefix {
        environment + "-"@ + commit_sha
    } else {
        commit_sha
    }
}

/// The environment a branch deploys to: `master` and `main` go to
/// production, `develop` to development, and any other branch to the
/// environment of its own name.
pub open spec fn environment_text(branch: Seq<char>) -> Seq<char> {
    if branch == "master"@ || branch == "main"@ {
        "production"@
    } else if branch == "develop"@ {
        "development"@
    } else {
        branch
    }
}

/// The value given on the command line, else the one found otherwise.
pub open spec fn given_or(given: Option<String>, found: Seq<char>) -> Seq<char> {
    match given {
        Some(g) => g@,
        None => found,
    }
}

impl Config {
    /// The image version of a commit.
    pub fn extract_version(use_image_tag_env_prefix: bool, commit_sha: String, environment: &String) -> (r:
        String)
        ensures
            r@ == version_text(use_image_tag_env_prefix, commit_sha@, environment@),
    {
        if use_image_tag_env_prefix {
            let mut out = concat(environment.as_str(), "-");
            out.append(commit_sha.as_str());
            out
        } else {
            commit_sha
        }
    }

    /// The environment a branch deploys to.
    pub fn environment_for_branch(branch: &String) -> (r: String)
        ensures
            r@ == environment_text(branch@),
    {
        if *branch == String::from_str("master") || *branch == String::from_str("main") {
            String::from_str("production")
        } else if *branch == String::from_str("develop") {
            String::from_str("development")
        } else {
            branch.clone()
        }
    }

    /// The settings of a run, from the command line and what was found around
    /// it: the current commit id, the current branch, the account id the
    /// credentials belong to, and the region the environment names. What the
    /// command line gives wins; the environment follows the branch, the
    /// version the commit, the account id is empty when unknown, and the
    /// region falls back to `us-east-1`.
    pub fn new(
        args: &CommandArguments,
        commit_sha: String,
        branch: &String,
        caller_account_id: Option<String>,
        region: Option<String>,
    ) -> (r: Config)
        ensures
            r.environment@ == given_or(args.environment, environment_text(branch@)),
            r.version@ == given_or(
                args.version,
                version_text(args.use_image_tag_env_prefix, commit_sha@, r.environment@),
            ),
            r.project@ == args.project@,
            r.application@ == args.application@,
            r.aws_account_id@ == given_or(
                args.aws_account_id,
                match caller_account_id {
                    Some(a) => a@,
                    None => Seq::empty(),
                },
            ),
            r.region@ == match region {
                Some(g) => g@,
                None => "us-east-1"@,
            },
    {
        let environment = match &args.environment {
            Some(e) => e.clone(),
            None => Config::environment_for_branch(branch),
        };
        let version = match &args.version {
            Some(v) => v.clone(),
            None => Config::extract_version(args.use_image_tag_env_prefix, commit_sha, &environment),
        };
        let aws_account_id = match &args.aws_account_id {
            Some(a) => a.clone(),
            None => match caller_account_id {
                Some(a) => a,
                None => String::new(),
            },
        };
        let region = match region {
            Some(g) => g,
            None => String::from_str("us-east-1"),
        };
        Config {
            environment,
            version,
            project: args.project.clone(),
            application: args.application.clone(),
            region,
            aws_account_id,
        }
    }
}

} // verus!
