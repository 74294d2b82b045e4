//! Opening an interactive session: resolving, one answer at a time, the
//! cluster, the service, the running task and the container to run in.
use vstd::prelude::*;
use crate::config::Config;
use crate::errors::EcsHelperVarietyError;
use crate::resolver::{
    cluster_outcome, container_outcome, get_current_cluster, get_current_service,
    get_current_task, get_target_container, service_outcome, task_outcome,
};

verus! {

/// Where the resolution stands.
#[derive(Debug, PartialEq, Eq)]
pub enum ExecStage {
    ResolvingCluster,
    ResolvingService { cluster: String },
    ResolvingTask { cluster: String, service: String },
    ResolvingContainer { cluster: String, task: String },
    Done,
}

/// The answer to the last action.
#[derive(Debug, PartialEq, Eq)]
pub enum ExecEvent {
    Clusters(Vec<String>),
    Services(Vec<String>),
    Tasks(Vec<String>),
    /// The names of the task's containers.
    Containers(Vec<String>),
    Failed(EcsHelperVarietyError),
}

/// What the caller does next.
#[derive(Debug, PartialEq, Eq)]
pub enum ExecAction {
    ListClusters,
    ListServices { cluster: String },
    ListTasks { cluster: String, service: String },
    DescribeTask { cluster: String, task: String },
    /// Start the session in the resolved container.
    ExecuteCommand { cluster: String, task: String, container: String },
    Fail(EcsHelperVarietyError),
}

/// The resolution of a session's target, with the hints given for each part.
#[derive(Debug, PartialEq, Eq)]
pub struct ExecTarget {
    pub config: Config,
    pub cluster_hint: Option<String>,
    pub service_hint: Option<String>,
    pub task_hint: Option<String>,
    pub container_hint: Option<String>,
    pub stage: ExecStage,
}

/// The hints and settings of `a` and `b` are the same.
pub open spec fn same_hints(a: ExecTarget, b: ExecTarget) -> bool {
    &&& b.config == a.config
    &&& b.cluster_hint == a.cluster_hint
    &&& b.service_hint == a.service_hint
    &&& b.task_hint == a.task_hint
    &&& b.container_hint == a.container_hint
}

/// One step: from `m`, on event `e`, to `m2` with the next action `a`. Each
/// list is resolved with its hint; a failure, remote or of resolution, ends
/// the resolution, and so does an event that does not answer the last action.
pub open spec fn exec_transition(m: ExecTarget, e: ExecEvent, m2: ExecTarget, a: ExecAction) -> bool {
    same_hints(m, m2) && match e {
        ExecEvent::Failed(err) => m2.stage == ExecStage::Done && a == ExecAction::Fail(err),
        _ => match (m.stage, e) {
            (ExecStage::ResolvingCluster, ExecEvent::Clusters(cs)) => (
            a matches ExecAction::ListServices { cluster } && m2.stage == (ExecStage::ResolvingService {
                cluster,
            }) && cluster_outcome(cs@, m.config, m.cluster_hint, Ok(cluster))) || (
            a matches ExecAction::Fail(err) && m2.stage == ExecStage::Done && cluster_outcome(
                cs@,
                m.config,
                m.cluster_hint,
                Err(err),
            )),
            (ExecStage::ResolvingService { cluster }, ExecEvent::Services(ss)) => (
            a matches ExecAction::ListTasks { cluster: c, service } && c == cluster && m2.stage == (
            ExecStage::ResolvingTask { cluster, service }) && service_outcome(
                ss@,
                m.config,
                cluster,
                m.service_hint,
                Ok(service),
            )) || (a matches ExecAction::Fail(err) && m2.stage == ExecStage::Done && service_outcome(
                ss@,
                m.config,
                cluster,
                m.service_hint,
                Err(err),
            )),
            (ExecStage::ResolvingTask { cluster, service }, ExecEvent::Tasks(ts)) => (
            a matches ExecAction::DescribeTask { cluster: c, task } && c == cluster && m2.stage == (
            ExecStage::ResolvingContainer { cluster, task }) && task_outcome(
                ts@,
                m.config,
                cluster,
                service,
                m.task_hint,
                Ok(task),
            )) || (a matches ExecAction::Fail(err) && m2.stage == ExecStage::Done && task_outcome(
                ts@,
                m.config,
                cluster,
                service,
                m.task_hint,
                Err(err),
            )),
            (ExecStage::ResolvingContainer { cluster, task }, ExecEvent::Containers(ns)) => m2.stage
                == ExecStage::Done && ((a matches ExecAction::ExecuteCommand {
                cluster: c,
                task: t,
                container,
            } && c == cluster && t == task && container_outcome(
                ns@,
                m.config,
                cluster,
                task,
                m.container_hint,
                Ok(container),
            )) || (a matches ExecAction::Fail(err) && container_outcome(
                ns@,
                m.config,
                cluster,
                task,
                m.container_hint,
                Err(err),
            ))),
            _ => m2.stage == ExecStage::Done && a == ExecAction::Fail(
                EcsHelperVarietyError::OutOfOrderEvent,
            ),
        },
    }
}

impl ExecTarget {
    /// A resolution with the given hints; its first action lists the clusters.
    pub fn new(
        config: Config,
        cluster_hint: Option<String>,
        service_hint: Option<String>,
        task_hint: Option<String>,
        container_hint: Option<String>,
    ) -> (r: (ExecTarget, ExecAction))
        ensures
            r.0.config == config,
            r.0.cluster_hint == cluster_hint,
            r.0.service_hint == service_hint,
            r.0.task_hint == task_hint,
            r.0.container_hint == container_hint,
            r.0.stage == ExecStage::ResolvingCluster,
            r.1 == ExecAction::ListClusters,
    {
        (
            ExecTarget {
                config,
                cluster_hint,
                service_hint,
                task_hint,
                container_hint,
                stage: ExecStage::ResolvingCluster,
            },
            ExecAction::ListClusters,
        )
    }

    /// Takes the answer to the last action and gives the next one.
    pub fn step(self, e: ExecEvent) -> (r: (ExecTarget, ExecAction))
        ensures
            exec_transition(self, e, r.0, r.1),
    {
        let ExecTarget { config, cluster_hint, service_hint, task_hint, container_hint, stage } =
            self;
        let (stage2, action) = match e {
            ExecEvent::Failed(err) => (ExecStage::Done, ExecAction::Fail(err)),
            e => match (stage, e) {
                (ExecStage::ResolvingCluster, ExecEvent::Clusters(cs)) => {
                    match get_current_cluster(&cs, &config, &cluster_hint) {
                        Ok(cluster) => {
                            let c2 = cluster.clone();
                            (
                                ExecStage::ResolvingService { cluster },
                                ExecAction::ListServices { cluster: c2 },
                            )
                        },
                        Err(err) => (ExecStage::Done, ExecAction::Fail(err)),
                    }
                },
                (ExecStage::ResolvingService { cluster }, ExecEvent::Services(ss)) => {
                    match get_current_service(&ss, &config, &cluster, &service_hint) {
                        Ok(service) => {
                            let c2 = cluster.clone();
                            let s2 = service.clone();
                            (
                                ExecStage::ResolvingTask { cluster, service },
                                ExecAction::ListTasks { cluster: c2, service: s2 },
                            )
                        },
                        Err(err) => (ExecStage::Done, ExecAction::Fail(err)),
                    }
                },
                (ExecStage::ResolvingTask { cluster, service }, ExecEvent::Tasks(ts)) => {
                    match get_current_task(&ts, &config, &cluster, &service, &task_hint) {
                        Ok(task) => {
                            let c2 = cluster.clone();
                            let t2 = task.clone();
                            (
                                ExecStage::ResolvingContainer { cluster, task },
                                ExecAction::DescribeTask { cluster: c2, task: t2 },
                            )
                        },
                        Err(err) => (ExecStage::Done, ExecAction::Fail(err)),
                    }
                },
                (ExecStage::ResolvingContainer { cluster, task }, ExecEvent::Containers(ns)) => {
                    match get_target_container(&ns, &config, &cluster, &task, &container_hint) {
                        Ok(container) => (
                            ExecStage::Done,
                            ExecAction::ExecuteCommand { cluster, task, container },
                        ),
                        Err(err) => (ExecStage::Done, ExecAction::Fail(err)),
                    }
                },
                _ => (ExecStage::Done, ExecAction::Fail(EcsHelperVarietyError::OutOfOrderEvent)),
            },
        };
        (
            ExecTarget {
                config,
                cluster_hint,
                service_hint,
                task_hint,
                container_hint,
                stage: stage2,
            },
            action,
        )
    }
}

} // verus!
