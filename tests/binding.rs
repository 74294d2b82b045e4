use ecs_helpers::errors::EcsHelperVarietyError;
use ecs_helpers::registry::{create_new_container_definition_from, image_query, registry_host, ImageLookup, ImageQuery, Repository};
use ecs_helpers::rewrite::{rewrite_containers, RewritePolicy};
use ecs_helpers::task_definition::ContainerDefinition;
use ecs_helpers::text::{contains, join};

const HOST: &str = "123.dkr.ecr.us-east-1.amazonaws.com";

fn container(name: &str, image: &str, source: usize) -> ContainerDefinition {
    ContainerDefinition {
        name: Some(name.to_string()),
        image: Some(image.to_string()),
        command: Some(vec!["serve".to_string()]),
        log_stream_prefix: Some("web".to_string()),
        source,
    }
}

fn repo(name: &str) -> Repository {
    Repository {
        name: name.to_string(),
        arn: Some(format!("arn:aws:ecr:us-east-1:123:repository/{name}")),
        uri: Some(format!("{HOST}/{name}")),
    }
}

#[test]
fn rebinds_image_to_version() {
    let c = container("app", &format!("{HOST}/app:old"), 0);
    let repos = vec![repo("app")];
    let r = create_new_container_definition_from(&c, &repos, &"v42".to_string(), &ImageLookup::Found).unwrap();
    assert_eq!(r.image, Some("123.dkr.ecr.us-east-1.amazonaws.com/app:v42".to_string()));
    assert_eq!(r.name, c.name);
    assert_eq!(r.command, c.command);
    assert_eq!(r.log_stream_prefix, c.log_stream_prefix);
    assert_eq!(c.image, Some(format!("{HOST}/app:old")));
}

#[test]
fn no_repository_for_foreign_image() {
    let c = container("app", "docker.io/library/nginx:1", 0);
    let repos = vec![repo("app"), repo("worker")];
    let r = create_new_container_definition_from(&c, &repos, &"v42".to_string(), &ImageLookup::Found);
    assert_eq!(r, Err(EcsHelperVarietyError::NoRepositoryFound));
}

#[test]
fn container_without_image_has_no_repository() {
    let mut c = container("app", "x", 0);
    c.image = None;
    let r = create_new_container_definition_from(&c, &vec![repo("app")], &"v1".to_string(), &ImageLookup::Found);
    assert_eq!(r, Err(EcsHelperVarietyError::NoRepositoryFound));
}

#[test]
fn several_matching_repositories_are_listed() {
    let c = container("app", &format!("{HOST}/app-worker:old"), 0);
    let repos = vec![repo("app"), repo("app-worker")];
    let r = create_new_container_definition_from(&c, &repos, &"v1".to_string(), &ImageLookup::Found);
    assert_eq!(
        r,
        Err(EcsHelperVarietyError::MultipleRepositoriesFound("app, app-worker".to_string()))
    );
}

#[test]
fn missing_tag_fails_the_binding() {
    let c = container("app", &format!("{HOST}/app:old"), 0);
    let repos = vec![repo("app")];
    assert_eq!(
        create_new_container_definition_from(&c, &repos, &"v1".to_string(), &ImageLookup::NotFound),
        Err(EcsHelperVarietyError::ExtractImageError)
    );
    assert_eq!(
        create_new_container_definition_from(&c, &repos, &"v1".to_string(), &ImageLookup::Failed("ImageNotFound".to_string())),
        Err(EcsHelperVarietyError::DescribeImagesError("ImageNotFound".to_string()))
    );
}

#[test]
fn binding_twice_gives_the_same_definition() {
    let c = container("app", &format!("{HOST}/app:old"), 3);
    let repos = vec![repo("worker"), repo("app")];
    let a = create_new_container_definition_from(&c, &repos, &"v7".to_string(), &ImageLookup::Found);
    let b = create_new_container_definition_from(&c, &repos, &"v7".to_string(), &ImageLookup::Found);
    assert_eq!(a, b);
}

#[test]
fn image_query_asks_for_the_version_tag() {
    let c = container("app", &format!("{HOST}/app:old"), 0);
    let q = image_query(&c, &vec![repo("app")], &"v42".to_string());
    assert_eq!(
        q,
        Ok(ImageQuery { repository_name: "app".to_string(), image_tag: "v42".to_string() })
    );
}

#[test]
fn registry_host_is_the_first_segment() {
    assert_eq!(registry_host(&format!("{HOST}/team/app")), HOST.to_string());
    assert_eq!(registry_host("plainhost"), "plainhost".to_string());
    assert_eq!(registry_host(""), "".to_string());
}

#[test]
fn text_helpers() {
    assert!(contains("abcdef", "cde"));
    assert!(contains("abc", ""));
    assert!(!contains("abc", "abcd"));
    assert!(!contains("abc", "ac"));
    assert_eq!(join(&vec!["a".to_string(), "b".to_string(), "c".to_string()], ", "), "a, b, c");
    assert_eq!(join(&Vec::new(), ", "), "");
}

#[test]
fn every_container_is_rewritten_when_all_bind() {
    let defs = vec![
        container("web", &format!("{HOST}/web:1"), 0),
        container("worker", &format!("{HOST}/worker:1"), 1),
        container("cron", &format!("{HOST}/cron:1"), 2),
    ];
    let repos = vec![repo("web"), repo("worker"), repo("cron")];
    let lookups = vec![ImageLookup::Found, ImageLookup::Found, ImageLookup::Found];
    for policy in [RewritePolicy::BestEffort, RewritePolicy::FailFast] {
        let out = rewrite_containers(&defs, &repos, &"v9".to_string(), &lookups, policy).unwrap();
        assert_eq!(out.len(), 3);
        for (k, name) in ["web", "worker", "cron"].iter().enumerate() {
            assert_eq!(out[k].image, Some(format!("{HOST}/{name}:v9")));
            assert_eq!(out[k].source, k);
        }
    }
}

#[test]
fn best_effort_drops_failures_and_fail_fast_stops() {
    let defs = vec![
        container("web", &format!("{HOST}/web:1"), 0),
        container("proxy", "docker.io/envoy:1", 1),
        container("worker", &format!("{HOST}/worker:1"), 2),
    ];
    let repos = vec![repo("web"), repo("worker")];
    let lookups = vec![ImageLookup::Found, ImageLookup::Found, ImageLookup::NotFound];
    let out =
        rewrite_containers(&defs, &repos, &"v9".to_string(), &lookups, RewritePolicy::BestEffort)
            .unwrap();
    assert_eq!(out.len(), 1);
    assert_eq!(out[0].source, 0);
    let r = rewrite_containers(&defs, &repos, &"v9".to_string(), &lookups, RewritePolicy::FailFast);
    assert_eq!(r, Err(EcsHelperVarietyError::NoRepositoryFound));
}

#[test]
fn nothing_rewritten_is_refused() {
    let defs = vec![container("proxy", "docker.io/envoy:1", 0)];
    let lookups = vec![ImageLookup::Found];
    let r = rewrite_containers(
        &defs,
        &vec![repo("web")],
        &"v1".to_string(),
        &lookups,
        RewritePolicy::BestEffort,
    );
    assert_eq!(r, Err(EcsHelperVarietyError::NoContainerDefinitionsRewritten));
    let r = rewrite_containers(
        &Vec::new(),
        &vec![repo("web")],
        &"v1".to_string(),
        &Vec::new(),
        RewritePolicy::FailFast,
    );
    assert_eq!(r, Err(EcsHelperVarietyError::NoContainerDefinitionsRewritten));
}

#[test]
fn image_query_fails_like_binding() {
    let c = container("app", "docker.io/nginx:1", 0);
    assert_eq!(
        image_query(&c, &vec![repo("app")], &"v1".to_string()),
        Err(EcsHelperVarietyError::NoRepositoryFound)
    );
}
