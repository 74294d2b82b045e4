use ecs_helpers::config::Config;
use ecs_helpers::errors::EcsHelperVarietyError;
use ecs_helpers::exec::{ExecAction, ExecEvent, ExecTarget};
use ecs_helpers::orchestrator::{Action, Event, Orchestrator, ServiceInfo, Stage};
use ecs_helpers::polling::TaskStatus;
use ecs_helpers::registry::{ImageLookup, ImageQuery, Repository};
use ecs_helpers::rewrite::RewritePolicy;
use ecs_helpers::task_definition::{ContainerDefinition, TaskDefinition};

const IMAGE_BASE: &str = "123.dkr.ecr.us-east-1.amazonaws.com/app";

fn config() -> Config {
    Config {
        environment: "staging".to_string(),
        version: "v42".to_string(),
        project: "shop".to_string(),
        application: "web".to_string(),
        region: "us-east-1".to_string(),
        aws_account_id: "123".to_string(),
    }
}

fn service(deployments: usize) -> ServiceInfo {
    ServiceInfo {
        service_arn: Some("svc/web-staging".to_string()),
        cluster_arn: Some("cluster/shop-staging".to_string()),
        task_definition: Some("td/web:7".to_string()),
        deployments,
    }
}

fn base() -> TaskDefinition {
    TaskDefinition {
        task_definition_arn: Some("td/web:7".to_string()),
        family: Some("web".to_string()),
        cpu: Some("256".to_string()),
        memory: Some("512".to_string()),
        network_mode: Some("awsvpc".to_string()),
        execution_role_arn: None,
        task_role_arn: None,
        requires_compatibilities: vec!["FARGATE".to_string()],
        container_definitions: vec![ContainerDefinition {
            name: Some("web".to_string()),
            image: Some(format!("{IMAGE_BASE}:old")),
            command: None,
            log_stream_prefix: Some("web".to_string()),
            source: 0,
        }],
    }
}

fn repos() -> Vec<Repository> {
    vec![Repository {
        name: "app".to_string(),
        arn: Some("arn:repo/app".to_string()),
        uri: Some(IMAGE_BASE.to_string()),
    }]
}

/// Steps through resolution, description and image lookup, up to the
/// registration request.
fn to_register(machine: Orchestrator) -> (Orchestrator, Action) {
    let (m, a) = machine.step(Event::Clusters(vec![
        "cluster/shop-production".to_string(),
        "cluster/shop-staging".to_string(),
    ]));
    assert_eq!(a, Action::ListServices { cluster: "cluster/shop-staging".to_string() });
    let (m, a) = m.step(Event::Services(vec!["svc/web-staging".to_string()]));
    assert_eq!(
        a,
        Action::DescribeService {
            cluster: "cluster/shop-staging".to_string(),
            service: "svc/web-staging".to_string()
        }
    );
    let (m, a) = m.step(Event::Service(service(1)));
    assert_eq!(a, Action::DescribeTaskDefinition { arn: "td/web:7".to_string() });
    let (m, a) = m.step(Event::TaskDefinition(base()));
    assert_eq!(a, Action::ListRepositories);
    let (m, a) = m.step(Event::Repositories(repos()));
    assert_eq!(
        a,
        Action::LookUpImages(vec![Some(ImageQuery {
            repository_name: "app".to_string(),
            image_tag: "v42".to_string()
        })])
    );
    m.step(Event::Images(vec![ImageLookup::Found]))
}

#[test]
fn deployment_runs_to_a_single_deployment() {
    let (m, a) = Orchestrator::deploy(config(), None, None, 10, RewritePolicy::BestEffort);
    assert_eq!(a, Action::ListClusters);
    let (m, a) = to_register(m);
    match &a {
        Action::Register(req) => {
            assert_eq!(req.family, Some("web".to_string()));
            assert_eq!(req.container_definitions[0].image, Some(format!("{IMAGE_BASE}:v42")));
        }
        other => panic!("unexpected action {other:?}"),
    }
    let (m, a) = m.step(Event::Registered(Some("td/web:8".to_string())));
    assert_eq!(
        a,
        Action::UpdateService {
            cluster: "cluster/shop-staging".to_string(),
            service: "svc/web-staging".to_string(),
            task_definition: "td/web:8".to_string()
        }
    );
    let (m, a) = m.step(Event::Service(service(2)));
    assert_eq!(
        a,
        Action::PollService {
            cluster: "cluster/shop-staging".to_string(),
            service: "svc/web-staging".to_string(),
            after_interval: false
        }
    );
    let (m, a) = m.step(Event::Service(service(2)));
    assert!(matches!(a, Action::PollService { after_interval: true, .. }));
    let (m, a) = m.step(Event::Service(service(1)));
    assert_eq!(a, Action::Succeed);
    assert_eq!(m.stage, Stage::Done);
}

#[test]
fn deployment_times_out_after_the_budget() {
    let (m, _) = Orchestrator::deploy(config(), None, None, 5, RewritePolicy::BestEffort);
    let (m, _) = to_register(m);
    let (m, _) = m.step(Event::Registered(Some("td/web:8".to_string())));
    let (m, a) = m.step(Event::Service(service(2)));
    assert!(matches!(a, Action::PollService { after_interval: false, .. }));
    let (_, a) = m.step(Event::Service(service(2)));
    assert_eq!(a, Action::Fail(EcsHelperVarietyError::WaitTaskTimeoutError(5)));
}

#[test]
fn remote_failure_ends_the_workflow() {
    let (m, _) = Orchestrator::deploy(config(), None, None, 5, RewritePolicy::BestEffort);
    let (m, a) = m.step(Event::Failed(EcsHelperVarietyError::GetListClustersError("denied".to_string())));
    assert_eq!(a, Action::Fail(EcsHelperVarietyError::GetListClustersError("denied".to_string())));
    assert_eq!(m.stage, Stage::Done);
}

#[test]
fn out_of_order_event_is_refused() {
    let (m, _) = Orchestrator::deploy(config(), None, None, 5, RewritePolicy::BestEffort);
    let (_, a) = m.step(Event::Services(Vec::new()));
    assert_eq!(a, Action::Fail(EcsHelperVarietyError::OutOfOrderEvent));
}

#[test]
fn unresolved_cluster_fails_the_deployment() {
    let (m, _) = Orchestrator::deploy(config(), None, None, 5, RewritePolicy::BestEffort);
    let (_, a) = m.step(Event::Clusters(vec!["cluster/blog".to_string()]));
    assert!(matches!(a, Action::Fail(EcsHelperVarietyError::NoSpecifiedCluster(_))));
}

#[test]
fn run_reports_the_exit_code_of_a_failed_task() {
    let (m, _) = Orchestrator::run(
        config(),
        None,
        None,
        600,
        RewritePolicy::BestEffort,
        "exit 137".to_string(),
        None,
        Some("once".to_string()),
    );
    let (m, a) = to_register(m);
    match &a {
        Action::Register(req) => {
            assert_eq!(req.container_definitions.len(), 1);
            let c = &req.container_definitions[0];
            assert_eq!(c.name, Some("web-once".to_string()));
            assert_eq!(c.log_stream_prefix, Some("web-web-once".to_string()));
        }
        other => panic!("unexpected action {other:?}"),
    }
    let (m, a) = m.step(Event::Registered(Some("td/web:8".to_string())));
    assert_eq!(
        a,
        Action::RunTask {
            cluster: "cluster/shop-staging".to_string(),
            task_definition: "td/web:8".to_string()
        }
    );
    let (m, a) = m.step(Event::Launched(Some("task/1".to_string())));
    assert_eq!(
        a,
        Action::PollTask {
            cluster: "cluster/shop-staging".to_string(),
            task: "task/1".to_string(),
            after_interval: false
        }
    );
    let (m, a) = m.step(Event::Task(TaskStatus { last_status: Some("RUNNING".to_string()), exit_code: None }));
    assert!(matches!(a, Action::PollTask { after_interval: true, .. }));
    let (_, a) = m.step(Event::Task(TaskStatus {
        last_status: Some("STOPPED".to_string()),
        exit_code: Some(137),
    }));
    assert_eq!(
        a,
        Action::Fail(EcsHelperVarietyError::TaskWasFailed { task_arn: "task/1".to_string(), code: 137 })
    );
}

#[test]
fn missing_identifiers_fail_the_workflow() {
    let (m, _) = Orchestrator::deploy(config(), None, None, 5, RewritePolicy::BestEffort);
    let (m, _) = m.step(Event::Clusters(vec!["cluster/shop-staging".to_string()]));
    let (m, _) = m.step(Event::Services(vec!["svc/web-staging".to_string()]));
    let mut no_definition = service(1);
    no_definition.task_definition = None;
    let (_, a) = m.step(Event::Service(no_definition));
    assert_eq!(a, Action::Fail(EcsHelperVarietyError::ExtractTaskDefinitionError));

    let (m, _) = Orchestrator::deploy(config(), None, None, 5, RewritePolicy::BestEffort);
    let (m, _) = to_register(m);
    let (_, a) = m.step(Event::Registered(None));
    assert_eq!(a, Action::Fail(EcsHelperVarietyError::ExtractTaskDefinitionError));

    let (m, _) = Orchestrator::deploy(config(), None, None, 5, RewritePolicy::BestEffort);
    let (m, _) = to_register(m);
    let (m, _) = m.step(Event::Registered(Some("td/web:8".to_string())));
    let mut anonymous = service(2);
    anonymous.service_arn = None;
    let (_, a) = m.step(Event::Service(anonymous));
    assert_eq!(a, Action::Fail(EcsHelperVarietyError::ExtractServiceError));

    let (m, _) = Orchestrator::run(
        config(),
        None,
        None,
        5,
        RewritePolicy::BestEffort,
        "ls".to_string(),
        None,
        None,
    );
    let (m, _) = to_register(m);
    let (m, _) = m.step(Event::Registered(Some("td/web:8".to_string())));
    let (_, a) = m.step(Event::Launched(None));
    assert_eq!(a, Action::Fail(EcsHelperVarietyError::NoTasksFound));
}

#[test]
fn image_answers_must_match_the_queries() {
    let (m, _) = Orchestrator::deploy(config(), None, None, 5, RewritePolicy::BestEffort);
    let (m, _) = m.step(Event::Clusters(vec!["cluster/shop-staging".to_string()]));
    let (m, _) = m.step(Event::Services(vec!["svc/web-staging".to_string()]));
    let (m, _) = m.step(Event::Service(service(1)));
    let (m, _) = m.step(Event::TaskDefinition(base()));
    let (m, _) = m.step(Event::Repositories(repos()));
    let (_, a) = m.step(Event::Images(Vec::new()));
    assert_eq!(a, Action::Fail(EcsHelperVarietyError::ExtractImageError));
}

#[test]
fn zero_timeout_fails_before_polling() {
    let (m, _) = Orchestrator::deploy(config(), None, None, 0, RewritePolicy::BestEffort);
    let (m, _) = to_register(m);
    let (m, _) = m.step(Event::Registered(Some("td/web:8".to_string())));
    let (_, a) = m.step(Event::Service(service(2)));
    assert_eq!(a, Action::Fail(EcsHelperVarietyError::WaitTaskTimeoutError(0)));
}

#[test]
fn session_target_is_resolved_step_by_step() {
    let (t, a) = ExecTarget::new(config(), None, None, None, Some("side".to_string()));
    assert_eq!(a, ExecAction::ListClusters);
    let (t, a) = t.step(ExecEvent::Clusters(vec!["cluster/shop-staging".to_string()]));
    assert_eq!(a, ExecAction::ListServices { cluster: "cluster/shop-staging".to_string() });
    let (t, a) = t.step(ExecEvent::Services(vec!["svc/web-staging".to_string()]));
    assert_eq!(
        a,
        ExecAction::ListTasks {
            cluster: "cluster/shop-staging".to_string(),
            service: "svc/web-staging".to_string()
        }
    );
    let (t, a) = t.step(ExecEvent::Tasks(vec!["task/prod".to_string(), "task/staging-1".to_string()]));
    assert_eq!(
        a,
        ExecAction::DescribeTask {
            cluster: "cluster/shop-staging".to_string(),
            task: "task/staging-1".to_string()
        }
    );
    let (_, a) = t.step(ExecEvent::Containers(vec!["web".to_string(), "sidecar".to_string()]));
    assert_eq!(
        a,
        ExecAction::ExecuteCommand {
            cluster: "cluster/shop-staging".to_string(),
            task: "task/staging-1".to_string(),
            container: "sidecar".to_string()
        }
    );
}

#[test]
fn session_without_running_task_fails() {
    let (t, _) = ExecTarget::new(config(), Some("shop".to_string()), Some("web".to_string()), None, None);
    let (t, _) = t.step(ExecEvent::Clusters(vec!["cluster/shop-staging".to_string()]));
    let (t, _) = t.step(ExecEvent::Services(vec!["svc/web-staging".to_string()]));
    let (_, a) = t.step(ExecEvent::Tasks(Vec::new()));
    assert!(matches!(a, ExecAction::Fail(EcsHelperVarietyError::NoSpecifiedTask(_))));
}
