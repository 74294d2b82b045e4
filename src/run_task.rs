//! Running a one-off command in a container of the service's task
//! definition: which container, and how it is changed for the run.
use vstd::prelude::*;
use crate::deploy::carries_over;
use crate::errors::EcsHelperVarietyError;
use crate::registry::{ImageLookup, Repository};
use crate::rewrite::{rewrite_containers, rewrite_result, RewritePolicy};
use crate::task_definition::{
    build_register_request, copy_opt, opt_view, ContainerDefinition, RegisterRequest,
    TaskDefinition,
};
use crate::text::{concat, contains, has_substring};

verus! {

/// The container has a name, and it contains the hint when one is given.
pub open spec fn picks(c: ContainerDefinition, hint: Option<Seq<char>>) -> bool {
    match c.name {
        Some(n) => match hint {
            Some(h) => has_substring(n@, h),
            None => true,
        },
        None => false,
    }
}

/// The position of the first container at or after `start` that `picks` accepts.
pub open spec fn first_pick(cs: Seq<ContainerDefinition>, hint: Option<Seq<char>>, start: int) -> Option<
    int,
>
    decreases cs.len() - start,
{
    if start < 0 || start >= cs.len() {
        None
    } else if picks(cs[start], hint) {
        Some(start)
    } else {
        first_pick(cs, hint, start + 1)
    }
}

/// The container the command runs in: the first accepted one, else the
/// first of the list; none for an empty list.
pub open spec fn run_target(cs: Seq<ContainerDefinition>, hint: Option<Seq<char>>) -> Option<int> {
    match first_pick(cs, hint, 0) {
        Some(i) => Some(i),
        None => if cs.len() > 0 {
            Some(0)
        } else {
            None
        },
    }
}

/// Chooses the container to run the command in.
pub fn select_run_container(cs: &Vec<ContainerDefinition>, hint: &Option<String>) -> (r: Option<
    usize,
>)
    ensures
        match r {
            Some(i) => i < cs@.len() && run_target(cs@, opt_view(*hint)) == Some(i as int),
            None => run_target(cs@, opt_view(*hint)) is None,
        },
{
    let mut i: usize = 0;
    while i < cs.len()
        invariant
            i <= cs@.len(),
            first_pick(cs@, opt_view(*hint), 0) == first_pick(cs@, opt_view(*hint), i as int),
        decreases cs@.len() - i,
    {
        let accepted = match &cs[i].name {
            Some(n) => match hint {
                Some(h) => contains(n.as_str(), h.as_str()),
                None => true,
            },
            None => false,
        };
        if accepted {
            return Some(i);
        }
        i += 1;
    }
    if cs.len() > 0 {
        Some(0)
    } else {
        None
    }
}

/// The name of a run: the container's name, followed by `-{run name}` when
/// one is given.
pub open spec fn run_name_text(container: Seq<char>, run: Option<Seq<char>>) -> Seq<char> {
    match run {
        Some(n) => container + "-"@ + n,
        None => container,
    }
}

/// The name of a run of the container.
pub fn run_name(container: &String, run: &Option<String>) -> (r: String)
    ensures
        r@ == run_name_text(container@, opt_view(*run)),
{
    match run {
        Some(n) => {
            let mut out = concat(container.as_str(), "-");
            out.append(n.as_str());
            out
        },
        None => container.clone(),
    }
}

/// The command line that runs `command` in a shell.
pub open spec fn shell_command(command: Seq<char>) -> Seq<Seq<char>> {
    seq!["bash"@, "-c"@, command]
}

/// The outcome of preparing `c` to run `command`: it is renamed to the run
/// name, runs the command in a shell, and logs under
/// `{log stream prefix}-{run name}`; the image and the rest stay.
pub open spec fn prepared(
    c: ContainerDefinition,
    run: Option<Seq<char>>,
    command: Seq<char>,
    r: Result<ContainerDefinition, EcsHelperVarietyError>,
) -> bool {
    match c.name {
        None => r matches Err(EcsHelperVarietyError::NoSpecifiedContainer(m)) && m@
            == "the container chosen for the command has no name"@,
        Some(n) => match c.log_stream_prefix {
            None => r matches Err(EcsHelperVarietyError::MissingLogStreamPrefix(m)) && m@ == n@,
            Some(p) => r matches Ok(d) && d@ == (
                Some(run_name_text(n@, run)),
                c@.1,
                Some(shell_command(command)),
                Some(p@ + "-"@ + run_name_text(n@, run)),
                c@.4,
            ),
        },
    }
}

/// Prepares a container to run `command` once.
pub fn prepare_run_container(c: &ContainerDefinition, run: &Option<String>, command: &String) -> (r:
    Result<ContainerDefinition, EcsHelperVarietyError>)
    ensures
        prepared(*c, opt_view(*run), command@, r),
{
    let name = match &c.name {
        Some(n) => n,
        None => {
            return Err(
                EcsHelperVarietyError::NoSpecifiedContainer(
                    String::from_str("the container chosen for the command has no name"),
                ),
            );
        },
    };
    let prefix = match &c.log_stream_prefix {
        Some(p) => p,
        None => {
            return Err(EcsHelperVarietyError::MissingLogStreamPrefix(name.clone()));
        },
    };
    let derived = run_name(name, run);
    let mut new_prefix = concat(prefix.as_str(), "-");
    new_prefix.append(derived.as_str());
    let shell = vec![String::from_str("bash"), String::from_str("-c"), command.clone()];
    let r = ContainerDefinition {
        name: Some(derived),
        image: copy_opt(&c.image),
        command: Some(shell),
        log_stream_prefix: Some(new_prefix),
        source: c.source,
    };
    assert(r@.2 == Some(shell_command(command@))) by {
        assert(shell@.map_values(|s: String| s@) =~= shell_command(command@));
    }
    Ok(r)
}

/// The outcome `r` of preparing a one-off run's registration request from
/// the rewritten containers.
pub open spec fn run_request_outcome(
    base: TaskDefinition,
    rewritten: Seq<ContainerDefinition>,
    hint: Option<Seq<char>>,
    run: Option<Seq<char>>,
    command: Seq<char>,
    r: Result<RegisterRequest, EcsHelperVarietyError>,
) -> bool {
    match run_target(rewritten, hint) {
        None => r == Err::<RegisterRequest, EcsHelperVarietyError>(
            EcsHelperVarietyError::NoContainerDefinitionsRewritten,
        ),
        Some(i) => match r {
            Ok(req) => carries_over(base, req) && req.container_definitions@.len() == 1 && prepared(
                rewritten[i],
                run,
                command,
                Ok(req.container_definitions@[0]),
            ),
            Err(e) => prepared(rewritten[i], run, command, Err(e)),
        },
    }
}

/// The outcome `r` of preparing a one-off run from the service's task
/// definition: its containers are rewritten under `policy`, and the request
/// is made from the rewritten ones.
pub open spec fn run_outcome(
    base: TaskDefinition,
    repos: Seq<Repository>,
    version: Seq<char>,
    lookups: Seq<ImageLookup>,
    policy: RewritePolicy,
    hint: Option<Seq<char>>,
    run: Option<Seq<char>>,
    command: Seq<char>,
    r: Result<RegisterRequest, EcsHelperVarietyError>,
) -> bool {
    ||| (r matches Err(e) && rewrite_result(
        base.container_definitions@,
        repos,
        version,
        lookups,
        policy,
        Err(e),
    ))
    ||| exists|rw: Vec<ContainerDefinition>|
        rewrite_result(base.container_definitions@, repos, version, lookups, policy, Ok(rw))
            && #[trigger] run_request_outcome(base, rw@, hint, run, command, r)
}

/// The registration request for a one-off run from the service's task
/// definition: its containers pointed at the version, then the chosen one
/// prepared for the command.
pub fn run_plan(
    base: &TaskDefinition,
    repos: &Vec<Repository>,
    version: &String,
    lookups: &Vec<ImageLookup>,
    policy: RewritePolicy,
    hint: &Option<String>,
    run: &Option<String>,
    command: &String,
) -> (r: Result<RegisterRequest, EcsHelperVarietyError>)
    requires
        lookups@.len() == base.container_definitions@.len(),
    ensures
        run_outcome(
            *base,
            repos@,
            version@,
            lookups@,
            policy,
            opt_view(*hint),
            opt_view(*run),
            command@,
            r,
        ),
{
    match rewrite_containers(&base.container_definitions, repos, version, lookups, policy) {
        Ok(rw) => {
            let r = run_task_request(base, &rw, hint, run, command);
            assert(run_request_outcome(*base, rw@, opt_view(*hint), opt_view(*run), command@, r));
            r
        },
        Err(e) => Err(e),
    }
}

/// The registration request for a one-off run: the chosen container of the
/// rewritten list, prepared for the command, as the only container, with the
/// scalar attributes of `base` carried over.
pub fn run_task_request(
    base: &TaskDefinition,
    rewritten: &Vec<ContainerDefinition>,
    hint: &Option<String>,
    run: &Option<String>,
    command: &String,
) -> (r: Result<RegisterRequest, EcsHelperVarietyError>)
    ensures
        run_request_outcome(*base, rewritten@, opt_view(*hint), opt_view(*run), command@, r),
{
    let i = match select_run_container(rewritten, hint) {
        Some(i) => i,
        None => {
            return Err(EcsHelperVarietyError::NoContainerDefinitionsRewritten);
        },
    };
    match prepare_run_container(&rewritten[i], run, command) {
        Ok(d) => {
            let containers = vec![d];
            Ok(build_register_request(base, containers))
        },
        Err(e) => Err(e),
    }
}

} // verus!
