use ecs_helpers::config::Config;
use ecs_helpers::errors::EcsHelperVarietyError;
use ecs_helpers::resolver::{
    classify_matches, first_match, get_current_cluster, get_target_container, get_current_service,
    get_current_task, MatchOutcome,
};

fn config() -> Config {
    Config {
        environment: "staging".to_string(),
        version: "abc123".to_string(),
        project: "shop".to_string(),
        application: "web".to_string(),
        region: "us-east-1".to_string(),
        aws_account_id: "123456789012".to_string(),
    }
}

fn strings(items: &[&str]) -> Vec<String> {
    items.iter().map(|s| s.to_string()).collect()
}

#[test]
fn resolves_the_only_cluster_matching_project_and_environment() {
    let clusters = strings(&[
        "arn:aws:ecs:us-east-1:1:cluster/shop-production",
        "arn:aws:ecs:us-east-1:1:cluster/shop-staging",
        "arn:aws:ecs:us-east-1:1:cluster/blog-staging",
    ]);
    let r = get_current_cluster(&clusters, &config(), &None);
    assert_eq!(r, Ok("arn:aws:ecs:us-east-1:1:cluster/shop-staging".to_string()));
}

#[test]
fn cluster_hint_selects_by_substring() {
    let clusters = strings(&["cluster/alpha", "cluster/beta"]);
    let r = get_current_cluster(&clusters, &config(), &Some("bet".to_string()));
    assert_eq!(r, Ok("cluster/beta".to_string()));
}

#[test]
fn cluster_without_match_lists_candidates() {
    let clusters = strings(&["cluster/alpha", "cluster/beta"]);
    let r = get_current_cluster(&clusters, &config(), &None);
    assert_eq!(
        r,
        Err(EcsHelperVarietyError::NoSpecifiedCluster(
            "Cluster specified in cli not exists, clusters you have: cluster/alpha, cluster/beta.\nProject: shop, environment: staging".to_string()
        ))
    );
}

#[test]
fn cluster_hint_without_match_names_the_hint() {
    let clusters = strings(&["cluster/alpha"]);
    let r = get_current_cluster(&clusters, &config(), &Some("gamma".to_string()));
    assert_eq!(
        r,
        Err(EcsHelperVarietyError::NoSpecifiedCluster(
            "Cluster specified in cli not exists, clusters you have: cluster/alpha.\nProject: shop, environment: staging, cluster: gamma".to_string()
        ))
    );
}

#[test]
fn empty_cluster_list_is_not_found() {
    let r = get_current_cluster(&Vec::new(), &config(), &None);
    assert!(matches!(r, Err(EcsHelperVarietyError::NoSpecifiedCluster(_))));
}

#[test]
fn first_match_takes_the_first_of_several() {
    let cands = strings(&["web-staging-1", "web-staging-2"]);
    let needles = strings(&["web", "staging"]);
    assert_eq!(first_match(&cands, &None, &needles), Some(0));
    assert_eq!(first_match(&cands, &Some("-2".to_string()), &needles), Some(1));
    assert_eq!(first_match(&cands, &Some("prod".to_string()), &needles), None);
}

#[test]
fn resolves_service_by_application_and_environment() {
    let services = strings(&["service/shop/api-staging", "service/shop/web-staging"]);
    let r = get_current_service(&services, &config(), &"cluster/shop".to_string(), &None);
    assert_eq!(r, Ok("service/shop/web-staging".to_string()));
}

#[test]
fn service_without_match_reports_context() {
    let services = strings(&["service/a"]);
    let r = get_current_service(
        &services,
        &config(),
        &"cluster/shop".to_string(),
        &Some("zzz".to_string()),
    );
    assert_eq!(
        r,
        Err(EcsHelperVarietyError::NoSpecifiedService(
            "Service specified in cli not exists, services you have: service/a.\nProject: shop, application: web, environment: staging, cluster: cluster/shop, service: zzz".to_string()
        ))
    );
}

#[test]
fn resolves_task_by_environment() {
    let tasks = strings(&["task/prod-1", "task/staging-7"]);
    let r = get_current_task(&tasks, &config(), &"c".to_string(), &"s".to_string(), &None);
    assert_eq!(r, Ok("task/staging-7".to_string()));
}

#[test]
fn task_without_match_is_reported() {
    let tasks = strings(&["task/prod-1"]);
    let r = get_current_task(&tasks, &config(), &"c".to_string(), &"s".to_string(), &None);
    assert_eq!(
        r,
        Err(EcsHelperVarietyError::NoSpecifiedTask(
            "Task specified in CLI does not exist, tasks you have: task/prod-1.\nProject: shop, application: web, environment: staging, cluster: c, service: s".to_string()
        ))
    );
}

#[test]
fn resolves_container_by_hint() {
    let containers = strings(&["web-staging", "sidecar"]);
    let r = get_target_container(
        &containers,
        &config(),
        &"c".to_string(),
        &"t".to_string(),
        &Some("side".to_string()),
    );
    assert_eq!(r, Ok("sidecar".to_string()));
}

#[test]
fn container_without_match_is_reported() {
    let containers = strings(&["sidecar"]);
    let r = get_target_container(&containers, &config(), &"c".to_string(), &"t".to_string(), &None);
    assert!(matches!(r, Err(EcsHelperVarietyError::NoSpecifiedContainer(_))));
}

#[test]
fn classification_tells_unique_none_and_ambiguous() {
    let cands = strings(&["web-staging-1", "web-staging-2", "api-prod"]);
    let needles = strings(&["web", "staging"]);
    assert_eq!(
        classify_matches(&cands, &None, &needles),
        MatchOutcome::Ambiguous(strings(&["web-staging-1", "web-staging-2"]))
    );
    assert_eq!(
        classify_matches(&cands, &Some("prod".to_string()), &needles),
        MatchOutcome::Unique("api-prod".to_string())
    );
    assert_eq!(classify_matches(&cands, &Some("zzz".to_string()), &needles), MatchOutcome::NoMatch);
}
