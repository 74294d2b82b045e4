//! The command line of the tool: global options and one subcommand.
use vstd::prelude::*;

verus! {

/// The global options and the subcommand.
#[derive(Debug, Clone, PartialEq, Eq)]
pub struct CommandArguments {
    /// Whether image tags carry the environment in front of the commit id.
    pub use_image_tag_env_prefix: bool,
    /// The environment; derived from the branch when absent.
    pub environment: Option<String>,
    /// The version applied to every container whose tag exists.
    pub version: Option<String>,
    /// The project name, used to find the cluster.
    pub project: String,
    /// The application name, used to find the service.
    pub application: String,
    /// The account id.
    pub aws_account_id: Option<String>,
    pub cmd: Commands,
}

/// Options of `deploy`.
#[derive(Debug, Clone, PartialEq, Eq)]
pub struct DeployCommandArguments {
    /// Seconds to wait for the rollout.
    pub timeout: u64,
    pub cluster: Option<String>,
    pub service: Option<String>,
}

/// Options of `login`.
#[derive(Debug, Clone, PartialEq, Eq)]
pub struct LoginCommandArguments {}

/// Options of `export_images`.
#[derive(Debug, Clone, PartialEq, Eq)]
pub struct ExportImagesArguments {}

/// Options of `run_command`.
#[derive(Debug, Clone, PartialEq, Eq)]
pub struct RunCommandArguments {
    /// The shell command to run; it should not daemonize.
    pub command: String,
    /// Seconds to wait for the task to stop.
    pub timeout: u64,
    pub cluster: Option<String>,
    pub service: Option<String>,
    /// The run's name, appended to the container name and the log prefix.
    pub name: Option<String>,
    /// The container to run in; the first one by default.
    pub container: Option<String>,
}

/// Options of `exec`.
#[derive(Debug, Clone, PartialEq, Eq)]
pub struct ExecCommandArguments {
    /// The command to run interactively.
    pub command: String,
    pub cluster: Option<String>,
    pub service: Option<String>,
    pub task: Option<String>,
    pub container: Option<String>,
}

/// Options of `export_env_secrets`.
#[derive(Debug, Clone, PartialEq, Eq)]
pub struct ExportEnvSecretsCommandArguments {
    /// The names of the variables to export.
    pub name: Option<Vec<String>>,
}

/// Options of `build_and_push`.
#[derive(Debug, Clone, PartialEq, Eq)]
pub struct BuildAndPushCommandArguments {
    /// The image name, used to find the repository to push to.
    pub image: String,
    /// The build context directory.
    pub directory: String,
    /// The Dockerfile.
    pub file: String,
    /// Whether to pull the latest image first and build from its cache.
    pub cache: bool,
    /// `--build-arg` values.
    pub build_arg: Option<Vec<String>>,
    /// A repository name that settles between several candidates.
    pub repository: Option<String>,
}

/// The subcommands.
#[derive(Debug, Clone, PartialEq, Eq)]
pub enum Commands {
    Login(LoginCommandArguments),
    ExportImages(ExportImagesArguments),
    RunCommand(RunCommandArguments),
    Exec(ExecCommandArguments),
    ExportEnvSecrets(ExportEnvSecretsCommandArguments),
    BuildAndPush(BuildAndPushCommandArguments),
    Deploy(DeployCommandArguments),
}

} // verus!
