use ecs_helpers::deploy::deployment_request;
use ecs_helpers::errors::EcsHelperVarietyError;
use ecs_helpers::polling::{PollDecision, Poller, TaskStatus, DEFAULT_STEP};
use ecs_helpers::registry::{ImageLookup, Repository};
use ecs_helpers::rewrite::RewritePolicy;
use ecs_helpers::run_task::{prepare_run_container, run_name, run_task_request, select_run_container};
use ecs_helpers::task_definition::{build_register_request, ContainerDefinition, TaskDefinition};

fn container(name: &str, prefix: &str, source: usize) -> ContainerDefinition {
    ContainerDefinition {
        name: Some(name.to_string()),
        image: Some(format!("reg.example/{name}:v1")),
        command: None,
        log_stream_prefix: Some(prefix.to_string()),
        source,
    }
}

fn task_definition(containers: Vec<ContainerDefinition>) -> TaskDefinition {
    TaskDefinition {
        task_definition_arn: Some("arn:td/web:3".to_string()),
        family: Some("web".to_string()),
        cpu: Some("256".to_string()),
        memory: None,
        network_mode: Some("awsvpc".to_string()),
        execution_role_arn: Some("arn:role/exec".to_string()),
        task_role_arn: None,
        requires_compatibilities: vec!["FARGATE".to_string(), "EC2".to_string()],
        container_definitions: containers,
    }
}

#[test]
fn register_request_carries_scalars_over() {
    let base = task_definition(vec![container("web", "web", 0)]);
    let req = build_register_request(&base, vec![container("other", "p", 5)]);
    assert_eq!(req.family, Some("web".to_string()));
    assert_eq!(req.cpu, Some("256".to_string()));
    assert_eq!(req.memory, None);
    assert_eq!(req.network_mode, Some("awsvpc".to_string()));
    assert_eq!(req.execution_role_arn, Some("arn:role/exec".to_string()));
    assert_eq!(req.task_role_arn, None);
    assert_eq!(req.requires_compatibility, Some("FARGATE".to_string()));
    assert_eq!(req.container_definitions, vec![container("other", "p", 5)]);
}

#[test]
fn register_request_omits_absent_fields() {
    let mut base = task_definition(Vec::new());
    base.family = None;
    base.cpu = None;
    base.network_mode = None;
    base.requires_compatibilities = Vec::new();
    let req = build_register_request(&base, Vec::new());
    assert_eq!(req.family, None);
    assert_eq!(req.cpu, None);
    assert_eq!(req.network_mode, None);
    assert_eq!(req.requires_compatibility, None);
}

#[test]
fn deployment_request_rewrites_and_carries_over() {
    let base = task_definition(vec![container("web", "web", 0)]);
    let repos = vec![Repository {
        name: "web".to_string(),
        arn: None,
        uri: Some("reg.example/web".to_string()),
    }];
    let req = deployment_request(
        &base,
        &repos,
        &"v2".to_string(),
        &vec![ImageLookup::Found],
        RewritePolicy::FailFast,
    )
    .unwrap();
    assert_eq!(req.family, Some("web".to_string()));
    assert_eq!(req.container_definitions.len(), 1);
    assert_eq!(req.container_definitions[0].image, Some("reg.example/web:v2".to_string()));
}

#[test]
fn run_without_hint_targets_the_first_container() {
    let rewritten = vec![
        container("web", "app", 0),
        container("worker", "app", 1),
        container("cron", "app", 2),
    ];
    assert_eq!(select_run_container(&rewritten, &None), Some(0));
    let base = task_definition(rewritten.clone());
    let req = run_task_request(&base, &rewritten, &None, &None, &"rake db:migrate".to_string())
        .unwrap();
    assert_eq!(req.container_definitions.len(), 1);
    let c = &req.container_definitions[0];
    assert_eq!(c.name, Some("web".to_string()));
    assert_eq!(c.log_stream_prefix, Some("app-web".to_string()));
    assert_eq!(
        c.command,
        Some(vec!["bash".to_string(), "-c".to_string(), "rake db:migrate".to_string()])
    );
    assert_eq!(c.image, Some("reg.example/web:v1".to_string()));
    let req = run_task_request(
        &base,
        &rewritten,
        &None,
        &Some("migrate".to_string()),
        &"true".to_string(),
    )
    .unwrap();
    let c = &req.container_definitions[0];
    assert_eq!(c.name, Some("web-migrate".to_string()));
    assert_eq!(c.log_stream_prefix, Some("app-web-migrate".to_string()));
}

#[test]
fn run_hint_picks_the_first_matching_name() {
    let rewritten = vec![container("web", "a", 0), container("worker", "b", 1)];
    assert_eq!(select_run_container(&rewritten, &Some("work".to_string())), Some(1));
    assert_eq!(select_run_container(&rewritten, &Some("zzz".to_string())), Some(0));
    assert_eq!(select_run_container(&Vec::new(), &None), None);
}

#[test]
fn run_on_nothing_is_refused() {
    let base = task_definition(Vec::new());
    let r = run_task_request(&base, &Vec::new(), &None, &None, &"ls".to_string());
    assert_eq!(r, Err(EcsHelperVarietyError::NoContainerDefinitionsRewritten));
}

#[test]
fn run_container_needs_a_log_prefix_and_a_name() {
    let mut c = container("web", "p", 0);
    c.log_stream_prefix = None;
    assert_eq!(
        prepare_run_container(&c, &None, &"ls".to_string()),
        Err(EcsHelperVarietyError::MissingLogStreamPrefix("web".to_string()))
    );
    c.name = None;
    assert!(matches!(
        prepare_run_container(&c, &None, &"ls".to_string()),
        Err(EcsHelperVarietyError::NoSpecifiedContainer(_))
    ));
    assert_eq!(run_name(&"web".to_string(), &Some("x".to_string())), "web-x".to_string());
}

#[test]
fn one_interval_allows_one_poll() {
    let mut p = Poller::new(DEFAULT_STEP);
    assert_eq!(p.begin(), PollDecision::Continue);
    assert_eq!(
        p.observe_service(2),
        PollDecision::Failed(EcsHelperVarietyError::WaitTaskTimeoutError(5))
    );
}

#[test]
fn polls_until_one_deployment_is_left() {
    let mut p = Poller::new(12);
    assert_eq!(p.begin(), PollDecision::Continue);
    assert_eq!(p.observe_service(2), PollDecision::Continue);
    assert_eq!(p.remaining, 7);
    assert_eq!(p.observe_service(1), PollDecision::Finished);
    assert_eq!(p.observe_service(0), PollDecision::Continue);
    assert_eq!(
        p.observe_service(3),
        PollDecision::Failed(EcsHelperVarietyError::WaitTaskTimeoutError(12))
    );
}

#[test]
fn zero_timeout_never_polls() {
    let p = Poller::new(0);
    assert_eq!(p.begin(), PollDecision::Failed(EcsHelperVarietyError::WaitTaskTimeoutError(0)));
}

#[test]
fn stopped_task_with_exit_137_failed() {
    let mut p = Poller::new(600);
    let status = TaskStatus { last_status: Some("STOPPED".to_string()), exit_code: Some(137) };
    assert_eq!(
        p.observe_task(&"arn:task/1".to_string(), &status),
        PollDecision::Failed(EcsHelperVarietyError::TaskWasFailed {
            task_arn: "arn:task/1".to_string(),
            code: 137
        })
    );
}

#[test]
fn task_outcomes() {
    let arn = "arn:task/2".to_string();
    let mut p = Poller::new(6);
    let running = TaskStatus { last_status: Some("RUNNING".to_string()), exit_code: None };
    assert_eq!(p.observe_task(&arn, &running), PollDecision::Continue);
    let done = TaskStatus { last_status: Some("STOPPED".to_string()), exit_code: Some(0) };
    assert_eq!(p.observe_task(&arn, &done), PollDecision::Finished);
    let no_code = TaskStatus { last_status: Some("STOPPED".to_string()), exit_code: None };
    assert_eq!(
        p.observe_task(&arn, &no_code),
        PollDecision::Failed(EcsHelperVarietyError::MissingExitCode(arn.clone()))
    );
    assert_eq!(
        p.observe_task(&arn, &running),
        PollDecision::Failed(EcsHelperVarietyError::WaitTaskTimeoutError(6))
    );
}
