//! Building and pushing an image: which repository it goes to, its tags, and
//! the build tool's arguments.
use vstd::prelude::*;
use crate::errors::EcsHelperVarietyError;
use crate::registry::{names_of, repository_names, versioned_image, versioned_image_of, Repository};
use crate::task_definition::opt_view;
use crate::text::{concat, contains, has_substring, join, joined, views};

verus! {

/// The repository's ARN contains `p`.
pub open spec fn arn_has(r: Repository, p: Seq<char>) -> bool {
    match r.arn {
        Some(a) => has_substring(a@, p),
        None => false,
    }
}

/// The predicate "the ARN contains the image name".
pub open spec fn named_for(image: Seq<char>) -> spec_fn(Repository) -> bool {
    |r: Repository| arn_has(r, image)
}

/// The predicate "the ARN contains the repository hint, or both the project
/// and the application".
pub open spec fn exact_for(
    hint: Option<Seq<char>>,
    project: Seq<char>,
    application: Seq<char>,
) -> spec_fn(Repository) -> bool {
    |r: Repository|
        (hint matches Some(h) && arn_has(r, h)) || (arn_has(r, project) && arn_has(r, application))
}

fn arn_contains(r: &Repository, p: &str) -> (b: bool)
    ensures
        b == arn_has(*r, p@),
{
    match &r.arn {
        Some(a) => contains(a.as_str(), p),
        None => false,
    }
}

fn collect_named(repos: &Vec<Repository>, image: &String) -> (r: Vec<Repository>)
    ensures
        r@ == repos@.filter(named_for(image@)),
{
    let ghost pred = named_for(image@);
    let mut out: Vec<Repository> = Vec::new();
    let mut i: usize = 0;
    assert(repos@.subrange(0, 0).filter(pred) =~= Seq::<Repository>::empty()) by {
        reveal(Seq::filter);
    }
    while i < repos.len()
        invariant
            i <= repos@.len(),
            pred == named_for(image@),
            out@ == repos@.subrange(0, i as int).filter(pred),
        decreases repos@.len() - i,
    {
        let hit = arn_contains(&repos[i], image.as_str());
        let ghost after = repos@.subrange(0, i + 1);
        assert(after.drop_last() =~= repos@.subrange(0, i as int));
        reveal(Seq::filter);
        if hit {
            out.push(repos[i].clone());
        }
        i += 1;
    }
    assert(repos@.subrange(0, repos@.len() as int) =~= repos@);
    out
}

fn collect_exact(
    repos: &Vec<Repository>,
    hint: &Option<String>,
    project: &String,
    application: &String,
) -> (r: Vec<Repository>)
    ensures
        r@ == repos@.filter(exact_for(opt_view(*hint), project@, application@)),
{
    let ghost pred = exact_for(opt_view(*hint), project@, application@);
    let mut out: Vec<Repository> = Vec::new();
    let mut i: usize = 0;
    assert(repos@.subrange(0, 0).filter(pred) =~= Seq::<Repository>::empty()) by {
        reveal(Seq::filter);
    }
    while i < repos.len()
        invariant
            i <= repos@.len(),
            pred == exact_for(opt_view(*hint), project@, application@),
            out@ == repos@.subrange(0, i as int).filter(pred),
        decreases repos@.len() - i,
    {
        let by_hint = match hint {
            Some(h) => arn_contains(&repos[i], h.as_str()),
            None => false,
        };
        let hit = by_hint || (arn_contains(&repos[i], project.as_str()) && arn_contains(
            &repos[i],
            application.as_str(),
        ));
        let ghost after = repos@.subrange(0, i + 1);
        assert(after.drop_last() =~= repos@.subrange(0, i as int));
        reveal(Seq::filter);
        if hit {
            out.push(repos[i].clone());
        }
        i += 1;
    }
    assert(repos@.subrange(0, repos@.len() as int) =~= repos@);
    out
}

/// The URI of `r`, or `NoRepositoryFound` when it has none.
pub open spec fn uri_result(r: Repository, res: Result<String, EcsHelperVarietyError>) -> bool {
    match r.uri {
        Some(u) => res matches Ok(s) && s@ == u@,
        None => res == Err::<String, EcsHelperVarietyError>(EcsHelperVarietyError::NoRepositoryFound),
    }
}

fn uri_of(r: &Repository) -> (res: Result<String, EcsHelperVarietyError>)
    ensures
        uri_result(*r, res),
{
    match &r.uri {
        Some(u) => Ok(u.clone()),
        None => Err(EcsHelperVarietyError::NoRepositoryFound),
    }
}

/// The repository an image is pushed to. The repositories whose ARN
/// contains the image name are candidates; a single one is the answer.
/// Otherwise the candidates whose ARN contains the repository hint, or both
/// the project and the application, are kept: a single one is the answer,
/// several are reported by name, and none is `NoRepositoryFound`.
pub fn get_repository(
    repos: &Vec<Repository>,
    image: &String,
    hint: &Option<String>,
    project: &String,
    application: &String,
) -> (r: Result<String, EcsHelperVarietyError>)
    ensures
        ({
            let w = repos@.filter(named_for(image@));
            let e = w.filter(exact_for(opt_view(*hint), project@, application@));
            if w.len() == 1 {
                uri_result(w[0], r)
            } else if e.len() == 1 {
                uri_result(e[0], r)
            } else if e.len() >= 2 {
                r matches Err(EcsHelperVarietyError::MultipleRepositoriesFound(s)) && s@ == joined(
                    repository_names(e),
                    ", "@,
                )
            } else {
                r == Err::<String, EcsHelperVarietyError>(EcsHelperVarietyError::NoRepositoryFound)
            }
        }),
{
    let with_name = collect_named(repos, image);
    if with_name.len() == 1 {
        return uri_of(&with_name[0]);
    }
    let exact = collect_exact(&with_name, hint, project, application);
    if exact.len() == 1 {
        return uri_of(&exact[0]);
    }
    if exact.len() > 1 {
        let names = names_of(&exact);
        return Err(EcsHelperVarietyError::MultipleRepositoriesFound(join(&names, ", ")));
    }
    Err(EcsHelperVarietyError::NoRepositoryFound)
}

/// `{repository}:latest`.
pub fn latest_tag(repository: &String) -> (r: String)
    ensures
        r@ == versioned_image(repository@, "latest"@),
{
    versioned_image_of(repository.as_str(), "latest")
}

/// `{repository}:{version}`.
pub fn version_tag(repository: &String, version: &String) -> (r: String)
    ensures
        r@ == versioned_image(repository@, version@),
{
    versioned_image_of(repository.as_str(), version.as_str())
}

/// The arguments of the image build: the context directory, the Dockerfile,
/// each build argument, the cache source when caching, and both tags.
pub open spec fn build_arguments_text(
    directory: Seq<char>,
    file: Seq<char>,
    build_args: Seq<Seq<char>>,
    cache: bool,
    repository: Seq<char>,
    version: Seq<char>,
) -> Seq<Seq<char>> {
    let latest = versioned_image(repository, "latest"@);
    seq!["build"@, directory, "--file="@ + file] + build_args.map_values(
        |a: Seq<char>| "--build-arg="@ + a,
    ) + (if cache {
        seq!["--cache-from"@, latest]
    } else {
        Seq::empty()
    }) + seq!["-t"@, versioned_image(repository, version), "-t"@, latest]
}

/// The arguments of the image build.
pub fn build_arguments(
    directory: &String,
    file: &String,
    build_args: &Option<Vec<String>>,
    cache: bool,
    repository: &String,
    version: &String,
) -> (r: Vec<String>)
    ensures
        views(r@) == build_arguments_text(
            directory@,
            file@,
            match build_args {
                Some(b) => views(b@),
                None => Seq::empty(),
            },
            cache,
            repository@,
            version@,
        ),
{
    let ghost extra = match build_args {
        Some(b) => views(b@),
        None => Seq::<Seq<char>>::empty(),
    };
    let mut out: Vec<String> = vec![
        String::from_str("build"),
        directory.clone(),
        concat("--file=", file.as_str()),
    ];
    let ghost head = seq!["build"@, directory@, "--file="@ + file@];
    assert(views(out@) =~= head);
    match build_args {
        Some(b) => {
            let mut i: usize = 0;
            while i < b.len()
                invariant
                    i <= b@.len(),
                    extra == views(b@),
                    views(out@) =~= head + extra.subrange(0, i as int).map_values(
                        |a: Seq<char>| "--build-arg="@ + a,
                    ),
                decreases b@.len() - i,
            {
                let ghost before = views(out@);
                let arg = concat("--build-arg=", b[i].as_str());
                out.push(arg);
                assert(views(out@) =~= before.push(arg@));
                assert(extra[i as int] == b@[i as int]@);
                assert(extra.subrange(0, i + 1).map_values(|a: Seq<char>| "--build-arg="@ + a)
                    =~= extra.subrange(0, i as int).map_values(|a: Seq<char>| "--build-arg="@ + a).push(
                    "--build-arg="@ + b@[i as int]@,
                ));
                i += 1;
            }
            assert(extra.subrange(0, b@.len() as int) =~= extra);
        },
        None => {
            assert(extra.map_values(|a: Seq<char>| "--build-arg="@ + a) =~= Seq::<
                Seq<char>,
            >::empty());
        },
    }
    let ghost mid = views(out@);
    let latest = latest_tag(repository);
    if cache {
        out.push(String::from_str("--cache-from"));
        out.push(latest.clone());
    }
    let ghost cached = if cache {
        seq!["--cache-from"@, latest@]
    } else {
        Seq::<Seq<char>>::empty()
    };
    assert(views(out@) =~= mid + cached);
    out.push(String::from_str("-t"));
    out.push(version_tag(repository, version));
    out.push(String::from_str("-t"));
    out.push(latest);
    assert(views(out@) =~= build_arguments_text(
        directory@,
        file@,
        extra,
        cache,
        repository@,
        version@,
    ));
    out
}

} // verus!
