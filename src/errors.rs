//! The failures that the library's operations report.
use vstd::prelude::*;

verus! {

/// Every failure of a command. Remote failures carry the service's own
/// description of what went wrong.
#[derive(Debug, Clone, PartialEq, Eq)]
pub enum EcsHelperVarietyError {
    ExtractCommitShaError(String),
    ExtractEnvironmentError(String),
    IoError(String),
    ReedOutputError(String),
    GetRegionError,
    GetTokenError(String),
    ExtractTokenError,
    ParseTokenError,
    ParseTokenFromUtf8Error,
    LoginFailed(String),
    DescribeRepositoriesError(String),
    DescribeImagesError(String),
    ExtractImageError,
    DescribeTaskDefinitionError(String),
    ExtractTaskDefinitionError,
    GetListTaskDefinitionsError(String),
    RegisterTaskDefinitionError(String),
    GetListClustersError(String),
    NoClustersFound,
    NoSpecifiedCluster(String),
    NoSpecifiedService(String),
    NoSpecifiedTask(String),
    NoSpecifiedContainer(String),
    RunTaskError(String),
    NoTasksFound,
    GetListServicesError(String),
    DescribeServiceError(String),
    NoServicesFound,
    GetListTasksError(String),
    DescribeTaskError(String),
    WaitTaskTimeoutError(u64),
    TaskWasFailed { task_arn: String, code: i32 },
    /// The task stopped without reporting an exit code for its first container.
    MissingExitCode(String),
    GetSSMParametersError(String),
    NoEnvVariablesToExport,
    NoRepositoryFound,
    MultipleRepositoriesFound(String),
    PullImageError(String),
    BuildImageError(String),
    PushImageError(String),
    ContainerDefinitionImageError(String),
    /// No container definition could be pointed at the requested version.
    NoContainerDefinitionsRewritten,
    /// The named container has no log stream prefix to extend.
    MissingLogStreamPrefix(String),
    UpdateServiceError(String),
    ExtractServiceError,
    ExecuteCommandError(String),
    /// An orchestrator was handed an event that does not answer its last action.
    OutOfOrderEvent,
    TerminateSessionError(String),
}

} // verus!
