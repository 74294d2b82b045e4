//! Shell `export` statements: one per image of the application, or one per
//! secret parameter of the environment.
use vstd::prelude::*;
use crate::config::Config;
use crate::errors::EcsHelperVarietyError;
use crate::registry::{versioned_image, versioned_image_of, Repository};
use crate::text::{concat, join, joined, views};

verus! {

/// Capture group 1 of the leftmost match of `pattern` in `haystack`; none
/// when the pattern does not compile, nothing matches, or the group took no
/// part in the match.
pub uninterp spec fn regex_group_one(pattern: Seq<char>, haystack: Seq<char>) -> Option<Seq<char>>;

/// Relies on regex's `Regex::new`, `Regex::captures` and `Captures::get`:
/// compiles `pattern` and returns the text of group 1 of its leftmost match in
/// `haystack`.
#[verifier::external_body]
fn capture_group_one(pattern: &str, haystack: &str) -> (r: Option<String>)
    ensures
        match r {
            Some(g) => regex_group_one(pattern@, haystack@) == Some(g@),
            None => regex_group_one(pattern@, haystack@) is None,
        },
{
    let re = regex::Regex::new(pattern).ok()?;
    let caps = re.captures(haystack)?;
    caps.get(1).map(|m| m.as_str().to_string())
}

/// The upper-case form of a text, as Unicode defines it.
pub uninterp spec fn upper_of(s: Seq<char>) -> Seq<char>;

/// Relies on `str::to_uppercase`: the upper-case form, which depends on the
/// characters alone; an empty text stays empty.
#[verifier::external_body]
fn uppercase(s: &str) -> (r: String)
    ensures
        r@ == upper_of(s@),
        s@.len() == 0 ==> r@.len() == 0,
{
    s.to_uppercase()
}

/// `s` with every `-` replaced by `_`.
pub open spec fn underscored(s: Seq<char>) -> Seq<char> {
    s.map_values(|c: char| if c == '-' { '_' } else { c })
}

/// `s` with every `-` replaced by `_`.
pub fn underscore_dashes(s: &str) -> (r: String)
    ensures
        r@ == underscored(s@),
{
    let n = s.unicode_len();
    let mut out = String::new();
    let mut i: usize = 0;
    while i < n
        invariant
            n == s@.len(),
            i <= n,
            out@ == underscored(s@.subrange(0, i as int)),
        decreases n - i,
    {
        if s.get_char(i) == '-' {
            out.append("_");
            proof {
                reveal_strlit("_");
            }
        } else {
            out.append(s.substring_char(i, i + 1));
        }
        assert(out@ =~= underscored(s@.subrange(0, i + 1)));
        i += 1;
    }
    assert(s@.subrange(0, n as int) =~= s@);
    out
}

/// The pattern that names the repositories of the application's containers:
/// `{project}-{application}-(.*)`, the container part captured.
pub open spec fn image_pattern(project: Seq<char>, application: Seq<char>) -> Seq<char> {
    project + "-"@ + application + "-(.*)"@
}

/// The variable for a repository of the application: the captured container
/// part, upper-cased with `-` turned to `_`, then `_IMAGE`, set to the
/// repository URI pinned to the version; none for a repository outside the
/// pattern or without a URI.
pub open spec fn image_entry(r: Repository, project: Seq<char>, application: Seq<char>, version: Seq<
    char,
>) -> Option<Seq<char>> {
    match (regex_group_one(image_pattern(project, application), r.name@), r.uri) {
        (Some(g), Some(u)) => Some(
            underscored(upper_of(g)) + "_IMAGE"@ + "="@ + versioned_image(u@, version),
        ),
        _ => None,
    }
}

/// The entries of the repositories that have one, in order.
pub open spec fn image_entries(
    repos: Seq<Repository>,
    project: Seq<char>,
    application: Seq<char>,
    version: Seq<char>,
) -> Seq<Seq<char>>
    decreases repos.len(),
{
    if repos.len() == 0 {
        Seq::empty()
    } else {
        let rest = image_entries(repos.drop_last(), project, application, version);
        match image_entry(repos.last(), project, application, version) {
            Some(e) => rest.push(e),
            None => rest,
        }
    }
}

fn entry_for(r: &Repository, pattern: &String, version: &String) -> (e: Option<String>)
    ensures
        match (regex_group_one(pattern@, r.name@), r.uri) {
            (Some(g), Some(u)) => e matches Some(s) && s@ == underscored(upper_of(g)) + "_IMAGE"@
                + "="@ + versioned_image(u@, version@),
            _ => e is None,
        },
{
    let group = match capture_group_one(pattern.as_str(), r.name.as_str()) {
        Some(g) => g,
        None => {
            return None;
        },
    };
    let uri = match &r.uri {
        Some(u) => u,
        None => {
            return None;
        },
    };
    let upper = uppercase(group.as_str());
    let mut out = underscore_dashes(upper.as_str());
    out.append("_IMAGE");
    out.append("=");
    out.append(versioned_image_of(uri.as_str(), version.as_str()).as_str());
    Some(out)
}

/// The statement that exports one variable per image of the application:
/// `export ` followed by the entries, separated by spaces.
pub fn export_images_statement(repos: &Vec<Repository>, config: &Config) -> (r: String)
    ensures
        r@ == "export "@ + joined(
            image_entries(repos@, config.project@, config.application@, config.version@),
            " "@,
        ),
{
    let mut pattern = concat(config.project.as_str(), "-");
    pattern.append(config.application.as_str());
    pattern.append("-(.*)");
    let ghost proj = config.project@;
    let ghost app = config.application@;
    let ghost ver = config.version@;
    let mut entries: Vec<String> = Vec::new();
    let mut i: usize = 0;
    while i < repos.len()
        invariant
            i <= repos@.len(),
            pattern@ == image_pattern(proj, app),
            proj == config.project@,
            app == config.application@,
            ver == config.version@,
            views(entries@) == image_entries(repos@.subrange(0, i as int), proj, app, ver),
        decreases repos@.len() - i,
    {
        let ghost before = views(entries@);
        let ghost after = repos@.subrange(0, i + 1);
        assert(after.drop_last() =~= repos@.subrange(0, i as int));
        assert(after.last() == repos@[i as int]);
        match entry_for(&repos[i], &pattern, &config.version) {
            Some(e) => {
                entries.push(e);
                assert(views(entries@) =~= before.push(e@));
            },
            None => {},
        }
        i += 1;
    }
    assert(repos@.subrange(0, repos@.len() as int) =~= repos@);
    concat("export ", join(&entries, " ").as_str())
}

/// The store path of a secret variable: `/{project}-{application}-{environment}/{name}`.
pub open spec fn parameter_path(config: Config, name: Seq<char>) -> Seq<char> {
    "/"@ + config.project@ + "-"@ + config.application@ + "-"@ + config.environment@ + "/"@ + name
}

/// The store paths of the variables to export; at least the list must be given.
pub fn parameter_names(config: &Config, names: &Option<Vec<String>>) -> (r: Result<
    Vec<String>,
    EcsHelperVarietyError,
>)
    ensures
        match names {
            None => r == Err::<Vec<String>, EcsHelperVarietyError>(
                EcsHelperVarietyError::NoEnvVariablesToExport,
            ),
            Some(ns) => r matches Ok(ps) && views(ps@) == views(ns@).map_values(
                |n: Seq<char>| parameter_path(*config, n),
            ),
        },
{
    let ns = match names {
        Some(ns) => ns,
        None => {
            return Err(EcsHelperVarietyError::NoEnvVariablesToExport);
        },
    };
    let mut out: Vec<String> = Vec::new();
    let mut i: usize = 0;
    while i < ns.len()
        invariant
            i <= ns@.len(),
            views(out@) =~= views(ns@).subrange(0, i as int).map_values(
                |n: Seq<char>| parameter_path(*config, n),
            ),
        decreases ns@.len() - i,
    {
        let mut p = concat("/", config.project.as_str());
        p.append("-");
        p.append(config.application.as_str());
        p.append("-");
        p.append(config.environment.as_str());
        p.append("/");
        p.append(ns[i].as_str());
        let ghost before = views(out@);
        out.push(p);
        assert(views(out@) =~= before.push(p@));
        assert(views(ns@)[i as int] == ns@[i as int]@);
        i += 1;
    }
    assert(views(ns@).subrange(0, ns@.len() as int) =~= views(ns@));
    Ok(out)
}

/// A parameter read from the store.
#[derive(Debug, Clone, PartialEq, Eq)]
pub struct Parameter {
    pub name: Option<String>,
    pub value: Option<String>,
}

/// `name=value` for a parameter that has both.
pub open spec fn parameter_entry(p: Parameter) -> Option<Seq<char>> {
    match (p.name, p.value) {
        (Some(n), Some(v)) => Some(n@ + "="@ + v@),
        _ => None,
    }
}

/// The entries of the parameters that have one, in order.
pub open spec fn parameter_entries(ps: Seq<Parameter>) -> Seq<Seq<char>>
    decreases ps.len(),
{
    if ps.len() == 0 {
        Seq::empty()
    } else {
        let rest = parameter_entries(ps.drop_last());
        match parameter_entry(ps.last()) {
            Some(e) => rest.push(e),
            None => rest,
        }
    }
}

/// The statement that exports the parameters: `export ` followed by
/// `name=value` for each, separated by spaces.
pub fn export_parameters_statement(params: &Vec<Parameter>) -> (r: String)
    ensures
        r@ == "export "@ + joined(parameter_entries(params@), " "@),
{
    let mut entries: Vec<String> = Vec::new();
    let mut i: usize = 0;
    while i < params.len()
        invariant
            i <= params@.len(),
            views(entries@) == parameter_entries(params@.subrange(0, i as int)),
        decreases params@.len() - i,
    {
        let ghost before = views(entries@);
        let ghost after = params@.subrange(0, i + 1);
        assert(after.drop_last() =~= params@.subrange(0, i as int));
        assert(after.last() == params@[i as int]);
        match (&params[i].name, &params[i].value) {
            (Some(n), Some(v)) => {
                let mut e = concat(n.as_str(), "=");
                e.append(v.as_str());
                entries.push(e);
                assert(views(entries@) =~= before.push(e@));
            },
            _ => {},
        }
        i += 1;
    }
    assert(params@.subrange(0, params@.len() as int) =~= params@);
    concat("export ", join(&entries, " ").as_str())
}

} // verus!
