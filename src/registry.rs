//! Binding a container's image to a registry repository and a version tag.
use vstd::prelude::*;
use crate::errors::EcsHelperVarietyError;
use crate::task_definition::{ContainerDefinition, copy_opt};
use crate::text::{
    concat, contains, first_segment, has_substring, is_first_segment, join, joined, occurs_at, views,
};

verus! {

/// A registry repository: its name, its ARN, and the base URI that images in
/// it carry.
#[derive(Debug, PartialEq, Eq)]
pub struct Repository {
    pub name: String,
    pub arn: Option<String>,
    pub uri: Option<String>,
}

impl Clone for Repository {
    fn clone(&self) -> (r: Self)
        ensures
            r == *self,
    {
        Repository { name: self.name.clone(), arn: copy_opt(&self.arn), uri: copy_opt(&self.uri) }
    }
}

/// The repository's base URI occurs in `image`.
pub open spec fn repo_matches(r: Repository, image: Seq<char>) -> bool {
    match r.uri {
        Some(u) => has_substring(image, u@),
        None => false,
    }
}

/// The predicate "the repository's base URI occurs in `image`".
pub open spec fn matches_image(image: Seq<char>) -> spec_fn(Repository) -> bool {
    |r: Repository| repo_matches(r, image)
}

/// The repositories, in order, whose base URI occurs in the image reference.
/// A container without an image matches none.
pub open spec fn matching_repositories(repos: Seq<Repository>, image: Option<String>) -> Seq<
    Repository,
> {
    match image {
        Some(i) => repos.filter(matches_image(i@)),
        None => Seq::empty(),
    }
}

/// The names of the given repositories.
pub open spec fn repository_names(repos: Seq<Repository>) -> Seq<Seq<char>> {
    repos.map_values(|r: Repository| r.name@)
}

/// The image reference of `uri` pinned to `version`: `{uri}:{version}`.
pub open spec fn versioned_image(uri: Seq<char>, version: Seq<char>) -> Seq<char> {
    uri + ":"@ + version
}

/// The registry host of a repository URI: its first `/`-separated segment.
pub fn registry_host(uri: &str) -> (r: String)
    ensures
        is_first_segment(uri@, '/', r@),
{
    first_segment(uri, '/')
}

/// `{uri}:{version}`.
pub fn versioned_image_of(uri: &str, version: &str) -> (r: String)
    ensures
        r@ == versioned_image(uri@, version@),
{
    let mut out = concat(uri, ":");
    out.append(version);
    out
}

/// The repositories whose base URI occurs in `image`, in their order.
fn collect_matching(image: &Option<String>, repos: &Vec<Repository>) -> (r: Vec<Repository>)
    ensures
        r@ == matching_repositories(repos@, *image),
{
    let mut out: Vec<Repository> = Vec::new();
    match image {
        None => out,
        Some(img) => {
            let ghost pred = matches_image(img@);
            let mut i: usize = 0;
            assert(repos@.subrange(0, 0).filter(pred) =~= Seq::<Repository>::empty()) by {
                reveal(Seq::filter);
            }
            while i < repos.len()
                invariant
                    i <= repos@.len(),
                    pred == matches_image(img@),
                    out@ == repos@.subrange(0, i as int).filter(pred),
                decreases repos@.len() - i,
            {
                let repo = &repos[i];
                let hit = match &repo.uri {
                    Some(u) => contains(img.as_str(), u.as_str()),
                    None => false,
                };
                let ghost before = repos@.subrange(0, i as int);
                let ghost after = repos@.subrange(0, i + 1);
                assert(after.drop_last() =~= before);
                assert(after.last() == repos@[i as int]);
                reveal(Seq::filter);
                if hit {
                    out.push(repo.clone());
                }
                i += 1;
            }
            assert(repos@.subrange(0, repos@.len() as int) =~= repos@);
            out
        },
    }
}

pub(crate) fn names_of(repos: &Vec<Repository>) -> (r: Vec<String>)
    ensures
        views(r@) == repository_names(repos@),
{
    let mut out: Vec<String> = Vec::new();
    let mut i: usize = 0;
    while i < repos.len()
        invariant
            i <= repos@.len(),
            out@.len() == i,
            views(out@) =~= repository_names(repos@).subrange(0, i as int),
        decreases repos@.len() - i,
    {
        let name = repos[i].name.clone();
        out.push(name);
        assert(views(out@)[i as int] == repository_names(repos@)[i as int]);
        assert(views(out@) =~= repository_names(repos@).subrange(0, i + 1));
        i += 1;
    }
    assert(repository_names(repos@).subrange(0, repos@.len() as int) =~= repository_names(
        repos@,
    ));
    out
}

/// What the registry answered when asked for an image with the version tag.
#[derive(Debug, PartialEq, Eq)]
pub enum ImageLookup {
    /// At least one image carries the tag.
    Found,
    /// The answer listed no image.
    NotFound,
    /// The request failed, with the registry's description.
    Failed(String),
}

/// The registry request that confirms a version tag exists in a repository.
#[derive(Debug, Clone, PartialEq, Eq)]
pub struct ImageQuery {
    pub repository_name: String,
    pub image_tag: String,
}

/// The outcome of choosing a repository for a container's image, before the
/// registry is asked for the tag.
pub open spec fn selection_result(
    c: ContainerDefinition,
    repos: Seq<Repository>,
    r: Result<Repository, EcsHelperVarietyError>,
) -> bool {
    let m = matching_repositories(repos, c.image);
    &&& (m.len() == 0 <==> r == Err::<Repository, EcsHelperVarietyError>(
        EcsHelperVarietyError::NoRepositoryFound,
    ))
    &&& (m.len() >= 2 <==> (r matches Err(EcsHelperVarietyError::MultipleRepositoriesFound(s))
        && s@ == joined(repository_names(m), ", "@)))
    &&& (m.len() == 1 <==> r is Ok)
    &&& (m.len() == 1 ==> r == Ok::<Repository, EcsHelperVarietyError>(m[0]))
}

/// Chooses the one repository whose base URI occurs in the container's image.
pub fn select_repository(c: &ContainerDefinition, repos: &Vec<Repository>) -> (r: Result<
    Repository,
    EcsHelperVarietyError,
>)
    ensures
        selection_result(*c, repos@, r),
{
    let found = collect_matching(&c.image, repos);
    if found.len() == 0 {
        Err(EcsHelperVarietyError::NoRepositoryFound)
    } else if found.len() == 1 {
        Ok(found[0].clone())
    } else {
        let names = names_of(&found);
        Err(EcsHelperVarietyError::MultipleRepositoriesFound(join(&names, ", ")))
    }
}

/// A repository matched by an image is served from a host that the image
/// names too: the host is a prefix of the base URI, which occurs in the image.
pub proof fn lemma_host_occurs_in_image(image: Seq<char>, uri: Seq<char>, host: Seq<char>)
    requires
        has_substring(image, uri),
        is_first_segment(uri, '/', host),
    ensures
        has_substring(image, host),
{
    let i = choose|i: int| occurs_at(image, uri, i);
    assert(image.subrange(i, i + host.len()) =~= uri.subrange(0, host.len() as int));
    assert(occurs_at(image, host, i));
}

/// The outcome of binding `c` to a repository and `version`, given what the
/// registry answered for the version tag.
pub open spec fn bind_result(
    c: ContainerDefinition,
    repos: Seq<Repository>,
    version: Seq<char>,
    lookup: ImageLookup,
    r: Result<ContainerDefinition, EcsHelperVarietyError>,
) -> bool {
    let m = matching_repositories(repos, c.image);
    &&& (m.len() == 0 <==> r == Err::<ContainerDefinition, EcsHelperVarietyError>(
        EcsHelperVarietyError::NoRepositoryFound,
    ))
    &&& (m.len() >= 2 <==> (r matches Err(EcsHelperVarietyError::MultipleRepositoriesFound(s))
        && s@ == joined(repository_names(m), ", "@)))
    &&& m.len() == 1 ==> match lookup {
        ImageLookup::Failed(msg) => r matches Err(EcsHelperVarietyError::DescribeImagesError(s))
            && s@ == msg@,
        ImageLookup::NotFound => r == Err::<ContainerDefinition, EcsHelperVarietyError>(
            EcsHelperVarietyError::ExtractImageError,
        ),
        ImageLookup::Found => r matches Ok(d) && rebound(c, d, versioned_image(
            m[0].uri.unwrap()@,
            version,
        )),
    }
}

/// `d` is `c` with its image reference replaced by `image`.
pub open spec fn rebound(c: ContainerDefinition, d: ContainerDefinition, image: Seq<char>) -> bool {
    d@ == (c@.0, Some(image), c@.2, c@.3, c@.4)
}

/// The registry request that confirms `version` exists in the repository
/// chosen for the container; the choice fails as binding does.
pub fn image_query(c: &ContainerDefinition, repos: &Vec<Repository>, version: &String) -> (r:
    Result<ImageQuery, EcsHelperVarietyError>)
    ensures
        ({
            let m = matching_repositories(repos@, c.image);
            &&& (m.len() == 0 <==> r == Err::<ImageQuery, EcsHelperVarietyError>(
                EcsHelperVarietyError::NoRepositoryFound,
            ))
            &&& (m.len() >= 2 <==> (r matches Err(
                EcsHelperVarietyError::MultipleRepositoriesFound(s),
            ) && s@ == joined(repository_names(m), ", "@)))
            &&& m.len() == 1 ==> (r matches Ok(q) && q.repository_name == m[0].name
                && q.image_tag@ == version@)
        }),
{
    match select_repository(c, repos) {
        Ok(repo) => Ok(ImageQuery { repository_name: repo.name, image_tag: version.clone() }),
        Err(e) => Err(e),
    }
}

/// Points the container at `{repository base URI}:{version}` in the one
/// repository that its image belongs to, once the registry has confirmed the
/// tag. The input is left as it is.
pub fn create_new_container_definition_from(
    c: &ContainerDefinition,
    repos: &Vec<Repository>,
    version: &String,
    lookup: &ImageLookup,
) -> (r: Result<ContainerDefinition, EcsHelperVarietyError>)
    ensures
        bind_result(*c, repos@, version@, *lookup, r),
{
    let repo = match select_repository(c, repos) {
        Ok(repo) => repo,
        Err(e) => {
            return Err(e);
        },
    };
    // The chosen repository matched: it has a URI, and the container an image.
    proof {
        if c.image is Some {
            repos@.lemma_filter_pred(matches_image(c.image.unwrap()@), 0);
        }
    }
    let uri = match &repo.uri {
        Some(u) => u,
        None => {
            return Err(EcsHelperVarietyError::NoRepositoryFound);
        },
    };
    let image = match &c.image {
        Some(i) => i,
        None => {
            return Err(EcsHelperVarietyError::NoRepositoryFound);
        },
    };
    // A guard against rewriting an image of another registry; for a matched
    // repository it always passes.
    let host = registry_host(uri.as_str());
    if !contains(image.as_str(), host.as_str()) {
        proof {
            lemma_host_occurs_in_image(image@, uri@, host@);
        }
        return Err(EcsHelperVarietyError::ContainerDefinitionImageError(image.clone()));
    }
    match lookup {
        ImageLookup::Failed(msg) => Err(EcsHelperVarietyError::DescribeImagesError(msg.clone())),
        ImageLookup::NotFound => Err(EcsHelperVarietyError::ExtractImageError),
        ImageLookup::Found => {
            let mut d = c.clone();
            d.image = Some(versioned_image_of(uri.as_str(), version.as_str()));
            Ok(d)
        },
    }
}

/// `a` and `b` are the same binding failure, with the same text.
pub open spec fn same_bind_failure(a: EcsHelperVarietyError, b: EcsHelperVarietyError) -> bool {
    match (a, b) {
        (EcsHelperVarietyError::NoRepositoryFound, EcsHelperVarietyError::NoRepositoryFound) => true,
        (
            EcsHelperVarietyError::MultipleRepositoriesFound(x),
            EcsHelperVarietyError::MultipleRepositoriesFound(y),
        ) => x@ == y@,
        (
            EcsHelperVarietyError::DescribeImagesError(x),
            EcsHelperVarietyError::DescribeImagesError(y),
        ) => x@ == y@,
        (EcsHelperVarietyError::ExtractImageError, EcsHelperVarietyError::ExtractImageError) => true,
        _ => false,
    }
}

/// Binding is repeatable: two bindings of the same container to the same
/// repositories and version, with the same answer from the registry, give
/// identical container definitions, or fail alike.
pub proof fn lemma_bind_twice(
    c: ContainerDefinition,
    repos: Seq<Repository>,
    version: Seq<char>,
    lookup: ImageLookup,
    r1: Result<ContainerDefinition, EcsHelperVarietyError>,
    r2: Result<ContainerDefinition, EcsHelperVarietyError>,
)
    requires
        bind_result(c, repos, version, lookup, r1),
        bind_result(c, repos, version, lookup, r2),
    ensures
        match (r1, r2) {
            (Ok(d1), Ok(d2)) => d1@ == d2@,
            (Err(e1), Err(e2)) => same_bind_failure(e1, e2),
            _ => false,
        },
{
}

} // verus!
