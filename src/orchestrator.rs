//! The deployment and task-run orchestrators as one state machine. Each step
//! takes the answer to the last action and gives the next action; the caller
//! performs the actions against the cloud.
//!
//! Both workflows resolve the cluster and the service, read the service's
//! task definition and the registry's repositories, ask the registry for the
//! version tag of every container, and register a rewritten task definition.
//! A deployment then moves the service to it and polls until one deployment
//! is left; a run launches a one-off task from it and polls until it stops.
use vstd::prelude::*;
use crate::config::Config;
use crate::deploy::{deployment_outcome, deployment_request};
use crate::errors::EcsHelperVarietyError;
use crate::polling::{missed, is_stopped, PollDecision, Poller, TaskStatus};
use crate::registry::{image_query, matching_repositories, ImageLookup, ImageQuery, Repository};
use crate::resolver::{cluster_outcome, get_current_cluster, get_current_service, service_outcome};
use crate::rewrite::RewritePolicy;
use crate::run_task::{run_outcome, run_plan};
use crate::task_definition::{opt_view, RegisterRequest, TaskDefinition};

verus! {

/// What a description of a service tells.
#[derive(Debug, Clone, PartialEq, Eq)]
pub struct ServiceInfo {
    pub service_arn: Option<String>,
    pub cluster_arn: Option<String>,
    /// The ARN of the task definition the service runs.
    pub task_definition: Option<String>,
    /// How many deployments the service has.
    pub deployments: usize,
}

/// The workflow and its own settings.
#[derive(Debug, Clone, PartialEq, Eq)]
pub enum Mode {
    /// Move the service to the new version.
    Deploy,
    /// Run `command` once in a task of the new version.
    Run { command: String, container: Option<String>, name: Option<String> },
}

/// Where a workflow stands.
#[derive(Debug, PartialEq, Eq)]
pub enum Stage {
    ResolvingCluster,
    ResolvingService { cluster: String },
    DescribingService { cluster: String },
    FetchingTaskDefinition { cluster: String, service: ServiceInfo },
    ListingRepositories { cluster: String, service: ServiceInfo, base: TaskDefinition },
    CheckingImages {
        cluster: String,
        service: ServiceInfo,
        base: TaskDefinition,
        repos: Vec<Repository>,
    },
    Registering { cluster: String, service: ServiceInfo },
    UpdatingService,
    LaunchingTask { cluster: String },
    /// Waiting for the service (deploying) or the task (running) named `target`.
    Polling { cluster: String, target: String },
    Done,
}

/// The answer to the last action.
#[derive(Debug, PartialEq, Eq)]
pub enum Event {
    Clusters(Vec<String>),
    Services(Vec<String>),
    Service(ServiceInfo),
    TaskDefinition(TaskDefinition),
    Repositories(Vec<Repository>),
    /// The registry's answer for each query, in the order of the queries.
    Images(Vec<ImageLookup>),
    /// The ARN of the registered task definition.
    Registered(Option<String>),
    /// The ARN of the launched task.
    Launched(Option<String>),
    Task(TaskStatus),
    /// The action failed remotely.
    Failed(EcsHelperVarietyError),
}

/// What the caller does next.
#[derive(Debug, PartialEq, Eq)]
pub enum Action {
    ListClusters,
    ListServices { cluster: String },
    DescribeService { cluster: String, service: String },
    DescribeTaskDefinition { arn: String },
    ListRepositories,
    /// Ask the registry for each query; a container without one is answered
    /// `NotFound` without asking.
    LookUpImages(Vec<Option<ImageQuery>>),
    Register(RegisterRequest),
    UpdateService { cluster: String, service: String, task_definition: String },
    /// Launch a one-off task with the service's network configuration and
    /// launch type.
    RunTask { cluster: String, task_definition: String },
    /// Describe the service, after one polling interval when `after_interval`.
    PollService { cluster: String, service: String, after_interval: bool },
    /// Describe the task, after one polling interval when `after_interval`.
    PollTask { cluster: String, task: String, after_interval: bool },
    Succeed,
    Fail(EcsHelperVarietyError),
}

/// A deployment or a one-off run in progress.
#[derive(Debug, PartialEq, Eq)]
pub struct Orchestrator {
    pub config: Config,
    pub cluster_hint: Option<String>,
    pub service_hint: Option<String>,
    pub policy: RewritePolicy,
    pub mode: Mode,
    pub poller: Poller,
    pub stage: Stage,
}

/// The settings of `a` and `b` are the same.
pub open spec fn same_settings(a: Orchestrator, b: Orchestrator) -> bool {
    &&& b.config == a.config
    &&& b.cluster_hint == a.cluster_hint
    &&& b.service_hint == a.service_hint
    &&& b.policy == a.policy
    &&& b.mode == a.mode
}

/// The workflow stops with the failure `e`.
pub open spec fn fails_with(m2: Orchestrator, a: Action, e: EcsHelperVarietyError) -> bool {
    m2.stage == Stage::Done && a == Action::Fail(e)
}

/// One query per container: the registry request for its repository, or
/// none when no single repository matches its image.
pub open spec fn queries_for(
    base: TaskDefinition,
    repos: Seq<Repository>,
    queries: Seq<Option<ImageQuery>>,
) -> bool {
    &&& queries.len() == base.container_definitions@.len()
    &&& forall|i: int|
        0 <= i < queries.len() ==> {
            let m = matching_repositories(repos, base.container_definitions@[i].image);
            match #[trigger] queries[i] {
                Some(q) => m.len() == 1 && q.repository_name == m[0].name,
                None => m.len() != 1,
            }
        }
}

/// A poll decision `d` as the workflow's next step: on to the next poll
/// after an interval, done, or failed.
pub open spec fn after_poll(
    m: Orchestrator,
    d: PollDecision,
    p2: Poller,
    m2: Orchestrator,
    a: Action,
    cluster: String,
    target: String,
) -> bool {
    m2.poller == p2 && match d {
        PollDecision::Finished => m2.stage == Stage::Done && a == Action::Succeed,
        PollDecision::Failed(e) => fails_with(m2, a, e),
        PollDecision::Continue => m2.stage == (Stage::Polling { cluster, target }) && match m.mode {
            Mode::Deploy => a == (Action::PollService {
                cluster,
                service: target,
                after_interval: true,
            }),
            Mode::Run { .. } => a == (Action::PollTask { cluster, task: target, after_interval: true }),
        },
    }
}

/// The first poll of `target`, unless the budget is empty.
pub open spec fn first_poll(m: Orchestrator, m2: Orchestrator, a: Action, cluster: String, target: String) -> bool {
    m2.poller == m.poller && if m.poller.remaining > 0 {
        m2.stage == (Stage::Polling { cluster, target }) && match m.mode {
            Mode::Deploy => a == (Action::PollService { cluster, service: target, after_interval: false }),
            Mode::Run { .. } => a == (Action::PollTask { cluster, task: target, after_interval: false }),
        }
    } else {
        fails_with(m2, a, EcsHelperVarietyError::WaitTaskTimeoutError(m.poller.timeout))
    }
}

/// One step of the workflow: from `m`, on event `e`, to `m2` with the next
/// action `a`. A remote failure ends the workflow with it, and so does an
/// event that does not answer the last action.
pub open spec fn transition(m: Orchestrator, e: Event, m2: Orchestrator, a: Action) -> bool {
    same_settings(m, m2) && match e {
        Event::Failed(err) => fails_with(m2, a, err),
        _ => match (m.stage, e) {
            (Stage::ResolvingCluster, Event::Clusters(cs)) => m2.poller == m.poller && (
            (a matches Action::ListServices { cluster } && m2.stage == (Stage::ResolvingService {
                cluster,
            }) && cluster_outcome(cs@, m.config, m.cluster_hint, Ok(cluster))) || (
            a matches Action::Fail(err) && m2.stage == Stage::Done && cluster_outcome(
                cs@,
                m.config,
                m.cluster_hint,
                Err(err),
            ))),
            (Stage::ResolvingService { cluster }, Event::Services(ss)) => m2.poller == m.poller && (
            (a matches Action::DescribeService { cluster: c, service } && c == cluster && m2.stage
                == (Stage::DescribingService { cluster }) && service_outcome(
                ss@,
                m.config,
                cluster,
                m.service_hint,
                Ok(service),
            )) || (a matches Action::Fail(err) && m2.stage == Stage::Done && service_outcome(
                ss@,
                m.config,
                cluster,
                m.service_hint,
                Err(err),
            ))),
            (Stage::DescribingService { cluster }, Event::Service(info)) => m2.poller == m.poller
                && match info.task_definition {
                Some(arn) => a == (Action::DescribeTaskDefinition { arn }) && m2.stage == (
                Stage::FetchingTaskDefinition { cluster, service: info }),
                None => fails_with(m2, a, EcsHelperVarietyError::ExtractTaskDefinitionError),
            },
            (Stage::FetchingTaskDefinition { cluster, service }, Event::TaskDefinition(base)) =>
                m2.poller == m.poller && a == Action::ListRepositories && m2.stage == (
                Stage::ListingRepositories { cluster, service, base }),
            (Stage::ListingRepositories { cluster, service, base }, Event::Repositories(repos)) =>
                m2.poller == m.poller && (a matches Action::LookUpImages(qs) && queries_for(
                base,
                repos@,
                qs@,
            ) && m2.stage == (Stage::CheckingImages { cluster, service, base, repos })),
            (Stage::CheckingImages { cluster, service, base, repos }, Event::Images(ls)) => m2.poller
                == m.poller && if ls@.len() != base.container_definitions@.len() {
                fails_with(m2, a, EcsHelperVarietyError::ExtractImageError)
            } else {
                match m.mode {
                    Mode::Deploy => (a matches Action::Register(req) && m2.stage == (
                    Stage::Registering { cluster, service }) && deployment_outcome(
                        base,
                        repos@,
                        m.config.version@,
                        ls@,
                        m.policy,
                        Ok(req),
                    )) || (a matches Action::Fail(err) && m2.stage == Stage::Done
                        && deployment_outcome(
                        base,
                        repos@,
                        m.config.version@,
                        ls@,
                        m.policy,
                        Err(err),
                    )),
                    Mode::Run { command, container, name } => (a matches Action::Register(req)
                        && m2.stage == (Stage::Registering { cluster, service }) && run_outcome(
                        base,
                        repos@,
                        m.config.version@,
                        ls@,
                        m.policy,
                        opt_view(container),
                        opt_view(name),
                        command@,
                        Ok(req),
                    )) || (a matches Action::Fail(err) && m2.stage == Stage::Done && run_outcome(
                        base,
                        repos@,
                        m.config.version@,
                        ls@,
                        m.policy,
                        opt_view(container),
                        opt_view(name),
                        command@,
                        Err(err),
                    )),
                }
            },
            (Stage::Registering { cluster, service }, Event::Registered(arn)) => m2.poller == m.poller
                && match arn {
                None => fails_with(m2, a, EcsHelperVarietyError::ExtractTaskDefinitionError),
                Some(td) => match m.mode {
                    Mode::Deploy => match (service.cluster_arn, service.service_arn) {
                        (Some(c), Some(s)) => m2.stage == Stage::UpdatingService && a == (
                        Action::UpdateService { cluster: c, service: s, task_definition: td }),
                        _ => fails_with(m2, a, EcsHelperVarietyError::ExtractServiceError),
                    },
                    Mode::Run { .. } => m2.stage == (Stage::LaunchingTask { cluster }) && a == (
                    Action::RunTask { cluster, task_definition: td }),
                },
            },
            (Stage::UpdatingService, Event::Service(info)) => match (
                info.cluster_arn,
                info.service_arn,
            ) {
                (Some(c), Some(s)) => first_poll(m, m2, a, c, s),
                _ => m2.poller == m.poller && fails_with(
                    m2,
                    a,
                    EcsHelperVarietyError::ExtractServiceError,
                ),
            },
            (Stage::LaunchingTask { cluster }, Event::Launched(task)) => match task {
                Some(t) => first_poll(m, m2, a, cluster, t),
                None => m2.poller == m.poller && fails_with(
                    m2,
                    a,
                    EcsHelperVarietyError::NoTasksFound,
                ),
            },
            (Stage::Polling { cluster, target }, Event::Service(info)) => match m.mode {
                Mode::Deploy => exists|d: PollDecision, p2: Poller|
                    {
                        &&& (info.deployments == 1 ==> d == PollDecision::Finished && p2 == m.poller)
                        &&& (info.deployments != 1 ==> missed(m.poller, p2, d))
                        &&& #[trigger] after_poll(m, d, p2, m2, a, cluster, target)
                    },
                Mode::Run { .. } => m2.poller == m.poller && fails_with(
                    m2,
                    a,
                    EcsHelperVarietyError::OutOfOrderEvent,
                ),
            },
            (Stage::Polling { cluster, target }, Event::Task(status)) => match m.mode {
                Mode::Run { .. } => exists|d: PollDecision, p2: Poller|
                    {
                        &&& task_decision(target, status, m.poller, p2, d)
                        &&& #[trigger] after_poll(m, d, p2, m2, a, cluster, target)
                    },
                Mode::Deploy => m2.poller == m.poller && fails_with(
                    m2,
                    a,
                    EcsHelperVarietyError::OutOfOrderEvent,
                ),
            },
            _ => m2.poller == m.poller && fails_with(m2, a, EcsHelperVarietyError::OutOfOrderEvent),
        },
    }
}

/// What a poll of the task named `task_arn` decides, as `Poller::observe_task` states it.
pub open spec fn task_decision(
    task_arn: String,
    task: TaskStatus,
    p: Poller,
    p2: Poller,
    d: PollDecision,
) -> bool {
    &&& is_stopped(task.last_status) ==> p2 == p && match task.exit_code {
        Some(code) => if code == 0 {
            d == PollDecision::Finished
        } else {
            d matches PollDecision::Failed(
                EcsHelperVarietyError::TaskWasFailed { task_arn: a, code: c },
            ) && a@ == task_arn@ && c == code
        },
        None => d matches PollDecision::Failed(EcsHelperVarietyError::MissingExitCode(a)) && a@
            == task_arn@,
    }
    &&& !is_stopped(task.last_status) ==> missed(p, p2, d)
}

/// The registry request for each container of `base`, when a single
/// repository matches its image.
fn image_queries(base: &TaskDefinition, repos: &Vec<Repository>, version: &String) -> (r: Vec<
    Option<ImageQuery>,
>)
    ensures
        queries_for(*base, repos@, r@),
{
    let defs = &base.container_definitions;
    let mut out: Vec<Option<ImageQuery>> = Vec::new();
    let mut i: usize = 0;
    while i < defs.len()
        invariant
            i <= defs@.len(),
            defs == &base.container_definitions,
            out@.len() == i,
            forall|k: int|
                0 <= k < i ==> {
                    let m = matching_repositories(repos@, defs@[k].image);
                    match #[trigger] out@[k] {
                        Some(q) => m.len() == 1 && q.repository_name == m[0].name,
                        None => m.len() != 1,
                    }
                },
        decreases defs@.len() - i,
    {
        let q = match image_query(&defs[i], repos, version) {
            Ok(q) => Some(q),
            Err(_) => None,
        };
        out.push(q);
        i += 1;
    }
    out
}

impl Orchestrator {
    /// A deployment of the service to the configured version, waiting at most
    /// `timeout` seconds for the rollout; its first action lists the clusters.
    pub fn deploy(
        config: Config,
        cluster_hint: Option<String>,
        service_hint: Option<String>,
        timeout: u64,
        policy: RewritePolicy,
    ) -> (r: (Orchestrator, Action))
        ensures
            r.0.config == config,
            r.0.cluster_hint == cluster_hint,
            r.0.service_hint == service_hint,
            r.0.policy == policy,
            r.0.mode == Mode::Deploy,
            r.0.poller == (Poller { timeout, remaining: timeout }),
            r.0.stage == Stage::ResolvingCluster,
            r.1 == Action::ListClusters,
    {
        (
            Orchestrator {
                config,
                cluster_hint,
                service_hint,
                policy,
                mode: Mode::Deploy,
                poller: Poller::new(timeout),
                stage: Stage::ResolvingCluster,
            },
            Action::ListClusters,
        )
    }

    /// A one-off run of `command` in a container of the service's task
    /// definition pointed at the configured version, waiting at most
    /// `timeout` seconds for it to stop; its first action lists the clusters.
    pub fn run(
        config: Config,
        cluster_hint: Option<String>,
        service_hint: Option<String>,
        timeout: u64,
        policy: RewritePolicy,
        command: String,
        container: Option<String>,
        name: Option<String>,
    ) -> (r: (Orchestrator, Action))
        ensures
            r.0.config == config,
            r.0.cluster_hint == cluster_hint,
            r.0.service_hint == service_hint,
            r.0.policy == policy,
            r.0.mode == (Mode::Run { command, container, name }),
            r.0.poller == (Poller { timeout, remaining: timeout }),
            r.0.stage == Stage::ResolvingCluster,
            r.1 == Action::ListClusters,
    {
        (
            Orchestrator {
                config,
                cluster_hint,
                service_hint,
                policy,
                mode: Mode::Run { command, container, name },
                poller: Poller::new(timeout),
                stage: Stage::ResolvingCluster,
            },
            Action::ListClusters,
        )
    }

    /// Takes the answer to the last action and gives the next one.
    #[verifier::rlimit(50)]
    pub fn step(self, e: Event) -> (r: (Orchestrator, Action))
        ensures
            transition(self, e, r.0, r.1),
    {
        let ghost m = self;
        let ghost mut polled_decision: PollDecision = arbitrary();
        let ghost mut polled_budget: Poller = arbitrary();
        let ghost mut polled_cluster: String = arbitrary();
        let ghost mut polled_target: String = arbitrary();
        let Orchestrator { config, cluster_hint, service_hint, policy, mode, poller, stage } = self;
        let (stage2, poller2, action) = match e {
            Event::Failed(err) => (Stage::Done, poller, Action::Fail(err)),
            e => match (stage, e) {
                (Stage::ResolvingCluster, Event::Clusters(cs)) => {
                    match get_current_cluster(&cs, &config, &cluster_hint) {
                        Ok(cluster) => {
                            let c2 = cluster.clone();
                            (Stage::ResolvingService { cluster }, poller, Action::ListServices {
                                cluster: c2,
                            })
                        },
                        Err(err) => (Stage::Done, poller, Action::Fail(err)),
                    }
                },
                (Stage::ResolvingService { cluster }, Event::Services(ss)) => {
                    match get_current_service(&ss, &config, &cluster, &service_hint) {
                        Ok(service) => {
                            let c2 = cluster.clone();
                            (
                                Stage::DescribingService { cluster },
                                poller,
                                Action::DescribeService { cluster: c2, service },
                            )
                        },
                        Err(err) => (Stage::Done, poller, Action::Fail(err)),
                    }
                },
                (Stage::DescribingService { cluster }, Event::Service(info)) => {
                    match &info.task_definition {
                        Some(arn) => {
                            let arn = arn.clone();
                            (
                                Stage::FetchingTaskDefinition { cluster, service: info },
                                poller,
                                Action::DescribeTaskDefinition { arn },
                            )
                        },
                        None => (
                            Stage::Done,
                            poller,
                            Action::Fail(EcsHelperVarietyError::ExtractTaskDefinitionError),
                        ),
                    }
                },
                (Stage::FetchingTaskDefinition { cluster, service }, Event::TaskDefinition(base)) => {
                    (
                        Stage::ListingRepositories { cluster, service, base },
                        poller,
                        Action::ListRepositories,
                    )
                },
                (
                    Stage::ListingRepositories { cluster, service, base },
                    Event::Repositories(repos),
                ) => {
                    let qs = image_queries(&base, &repos, &config.version);
                    (
                        Stage::CheckingImages { cluster, service, base, repos },
                        poller,
                        Action::LookUpImages(qs),
                    )
                },
                (Stage::CheckingImages { cluster, service, base, repos }, Event::Images(ls)) => {
                    if ls.len() != base.container_definitions.len() {
                        (
                            Stage::Done,
                            poller,
                            Action::Fail(EcsHelperVarietyError::ExtractImageError),
                        )
                    } else {
                        let planned = match &mode {
                            Mode::Deploy => deployment_request(
                                &base,
                                &repos,
                                &config.version,
                                &ls,
                                policy,
                            ),
                            Mode::Run { command, container, name } => run_plan(
                                &base,
                                &repos,
                                &config.version,
                                &ls,
                                policy,
                                container,
                                name,
                                command,
                            ),
                        };
                        match planned {
                            Ok(req) => (
                                Stage::Registering { cluster, service },
                                poller,
                                Action::Register(req),
                            ),
                            Err(err) => (Stage::Done, poller, Action::Fail(err)),
                        }
                    }
                },
                (Stage::Registering { cluster, service }, Event::Registered(arn)) => {
                    match arn {
                        None => (
                            Stage::Done,
                            poller,
                            Action::Fail(EcsHelperVarietyError::ExtractTaskDefinitionError),
                        ),
                        Some(td) => match &mode {
                            Mode::Deploy => match (service.cluster_arn, service.service_arn) {
                                (Some(c), Some(s)) => (
                                    Stage::UpdatingService,
                                    poller,
                                    Action::UpdateService {
                                        cluster: c,
                                        service: s,
                                        task_definition: td,
                                    },
                                ),
                                _ => (
                                    Stage::Done,
                                    poller,
                                    Action::Fail(EcsHelperVarietyError::ExtractServiceError),
                                ),
                            },
                            Mode::Run { .. } => {
                                let c2 = cluster.clone();
                                (
                                    Stage::LaunchingTask { cluster },
                                    poller,
                                    Action::RunTask { cluster: c2, task_definition: td },
                                )
                            },
                        },
                    }
                },
                (Stage::UpdatingService, Event::Service(info)) => {
                    match (info.cluster_arn, info.service_arn) {
                        (Some(c), Some(s)) => Self::first_poll(&mode, poller, c, s),
                        _ => (
                            Stage::Done,
                            poller,
                            Action::Fail(EcsHelperVarietyError::ExtractServiceError),
                        ),
                    }
                },
                (Stage::LaunchingTask { cluster }, Event::Launched(task)) => {
                    match task {
                        Some(t) => Self::first_poll(&mode, poller, cluster, t),
                        None => (
                            Stage::Done,
                            poller,
                            Action::Fail(EcsHelperVarietyError::NoTasksFound),
                        ),
                    }
                },
                (Stage::Polling { cluster, target }, Event::Service(info)) => {
                    match &mode {
                        Mode::Deploy => {
                            let mut p = poller;
                            let d = p.observe_service(info.deployments);
                            proof {
                                polled_decision = d;
                                polled_budget = p;
                                polled_cluster = cluster;
                                polled_target = target;
                            }
                            Self::after_poll(&mode, d, p, cluster, target)
                        },
                        Mode::Run { .. } => (
                            Stage::Done,
                            poller,
                            Action::Fail(EcsHelperVarietyError::OutOfOrderEvent),
                        ),
                    }
                },
                (Stage::Polling { cluster, target }, Event::Task(status)) => {
                    match &mode {
                        Mode::Run { .. } => {
                            let mut p = poller;
                            let d = p.observe_task(&target, &status);
                            proof {
                                polled_decision = d;
                                polled_budget = p;
                                polled_cluster = cluster;
                                polled_target = target;
                            }
                            Self::after_poll(&mode, d, p, cluster, target)
                        },
                        Mode::Deploy => (
                            Stage::Done,
                            poller,
                            Action::Fail(EcsHelperVarietyError::OutOfOrderEvent),
                        ),
                    }
                },
                _ => (Stage::Done, poller, Action::Fail(EcsHelperVarietyError::OutOfOrderEvent)),
            },
        };
        let r = Orchestrator {
            config,
            cluster_hint,
            service_hint,
            policy,
            mode,
            poller: poller2,
            stage: stage2,
        };
        proof {
            if m.stage is Polling && (e is Service && m.mode is Deploy || e is Task && m.mode is Run) {
                assert(m.stage == (Stage::Polling { cluster: polled_cluster, target: polled_target }));
                assert(after_poll(m, polled_decision, polled_budget, r, action, polled_cluster, polled_target));
            }
        }
        (r, action)
    }

    fn first_poll(mode: &Mode, poller: Poller, cluster: String, target: String) -> (r: (
        Stage,
        Poller,
        Action,
    ))
        ensures
            r.1 == poller,
            poller.remaining > 0 ==> r.0 == (Stage::Polling { cluster, target }) && match *mode {
                Mode::Deploy => r.2 == (Action::PollService {
                    cluster,
                    service: target,
                    after_interval: false,
                }),
                Mode::Run { .. } => r.2 == (Action::PollTask {
                    cluster,
                    task: target,
                    after_interval: false,
                }),
            },
            poller.remaining == 0 ==> r.0 == Stage::Done && r.2 == Action::Fail(
                EcsHelperVarietyError::WaitTaskTimeoutError(poller.timeout),
            ),
    {
        match poller.begin() {
            PollDecision::Continue => {
                let c2 = cluster.clone();
                let t2 = target.clone();
                let action = match mode {
                    Mode::Deploy => Action::PollService {
                        cluster: c2,
                        service: t2,
                        after_interval: false,
                    },
                    Mode::Run { .. } => Action::PollTask { cluster: c2, task: t2, after_interval: false },
                };
                (Stage::Polling { cluster, target }, poller, action)
            },
            PollDecision::Failed(err) => (Stage::Done, poller, Action::Fail(err)),
            PollDecision::Finished => (Stage::Done, poller, Action::Succeed),
        }
    }

    fn after_poll(mode: &Mode, d: PollDecision, p: Poller, cluster: String, target: String) -> (r: (
        Stage,
        Poller,
        Action,
    ))
        ensures
            r.1 == p,
            match d {
                PollDecision::Finished => r.0 == Stage::Done && r.2 == Action::Succeed,
                PollDecision::Failed(e) => r.0 == Stage::Done && r.2 == Action::Fail(e),
                PollDecision::Continue => r.0 == (Stage::Polling { cluster, target }) && match *mode {
                    Mode::Deploy => r.2 == (Action::PollService {
                        cluster,
                        service: target,
                        after_interval: true,
                    }),
                    Mode::Run { .. } => r.2 == (Action::PollTask {
                        cluster,
                        task: target,
                        after_interval: true,
                    }),
                },
            },
    {
        match d {
            PollDecision::Finished => (Stage::Done, p, Action::Succeed),
            PollDecision::Failed(err) => (Stage::Done, p, Action::Fail(err)),
            PollDecision::Continue => {
                let c2 = cluster.clone();
                let t2 = target.clone();
                let action = match mode {
                    Mode::Deploy => Action::PollService {
                        cluster: c2,
                        service: t2,
                        after_interval: true,
                    },
                    Mode::Run { .. } => Action::PollTask { cluster: c2, task: t2, after_interval: true },
                };
                (Stage::Polling { cluster, target }, p, action)
            },
        }
    }
}

} // verus!
