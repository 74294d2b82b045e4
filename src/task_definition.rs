//! Container definitions, task definitions, and the registration request
//! built from them.
use vstd::prelude::*;

verus! {

/// The view of an optional string.
pub open spec fn opt_view(o: Option<String>) -> Option<Seq<char>> {
    match o {
        Some(s) => Some(s@),
        None => None,
    }
}

/// A copy of `o` with the same text.
pub fn copy_opt(o: &Option<String>) -> (r: Option<String>)
    ensures
        r == *o,
{
    match o {
        Some(s) => Some(s.clone()),
        None => None,
    }
}

/// A container of a task definition: the fields this library reads or
/// rewrites. `source` is the container's position in the task definition it
/// was read from, so that a caller can carry over the fields not held here.
#[derive(Debug, PartialEq, Eq)]
pub struct ContainerDefinition {
    pub name: Option<String>,
    pub image: Option<String>,
    pub command: Option<Vec<String>>,
    pub log_stream_prefix: Option<String>,
    pub source: usize,
}

/// The text of a container definition.
pub type ContainerView = (
    Option<Seq<char>>,
    Option<Seq<char>>,
    Option<Seq<Seq<char>>>,
    Option<Seq<char>>,
    nat,
);

impl View for ContainerDefinition {
    type V = ContainerView;

    open spec fn view(&self) -> ContainerView {
        (
            opt_view(self.name),
            opt_view(self.image),
            match self.command {
                Some(c) => Some(c@.map_values(|s: String| s@)),
                None => None,
            },
            opt_view(self.log_stream_prefix),
            self.source as nat,
        )
    }
}

impl Clone for ContainerDefinition {
    fn clone(&self) -> (r: Self)
        ensures
            r@ == self@,
            r.name == self.name,
            r.image == self.image,
            r.log_stream_prefix == self.log_stream_prefix,
            r.source == self.source,
    {
        let command = match &self.command {
            Some(c) => {
                let d = c.clone();
                assert(d@ =~= c@);
                Some(d)
            },
            None => None,
        };
        ContainerDefinition {
            name: copy_opt(&self.name),
            image: copy_opt(&self.image),
            command,
            log_stream_prefix: copy_opt(&self.log_stream_prefix),
            source: self.source,
        }
    }
}

/// A task definition as described by the orchestration service.
#[derive(Debug, PartialEq, Eq)]
pub struct TaskDefinition {
    pub task_definition_arn: Option<String>,
    pub family: Option<String>,
    pub cpu: Option<String>,
    pub memory: Option<String>,
    pub network_mode: Option<String>,
    pub execution_role_arn: Option<String>,
    pub task_role_arn: Option<String>,
    pub requires_compatibilities: Vec<String>,
    pub container_definitions: Vec<ContainerDefinition>,
}

/// The request that registers a new revision of a task definition.
#[derive(Debug, PartialEq, Eq)]
pub struct RegisterRequest {
    pub family: Option<String>,
    pub cpu: Option<String>,
    pub memory: Option<String>,
    pub network_mode: Option<String>,
    pub execution_role_arn: Option<String>,
    pub task_role_arn: Option<String>,
    pub requires_compatibility: Option<String>,
    pub container_definitions: Vec<ContainerDefinition>,
}

/// The first declared compatibility requirement, if any.
pub open spec fn first_compatibility(base: TaskDefinition) -> Option<String> {
    if base.requires_compatibilities@.len() > 0 {
        Some(base.requires_compatibilities@[0])
    } else {
        None
    }
}

/// The registration request for a new revision of `base` holding `containers`:
/// family, cpu, memory, network mode and both role ARNs are carried over as
/// they are (absent stays absent), only the first compatibility requirement
/// is forwarded, and the container list is replaced wholesale.
pub fn build_register_request(base: &TaskDefinition, containers: Vec<ContainerDefinition>) -> (r:
    RegisterRequest)
    ensures
        r.family == base.family,
        r.cpu == base.cpu,
        r.memory == base.memory,
        r.network_mode == base.network_mode,
        r.execution_role_arn == base.execution_role_arn,
        r.task_role_arn == base.task_role_arn,
        r.requires_compatibility == first_compatibility(*base),
        r.container_definitions == containers,
{
    let requires_compatibility = if base.requires_compatibilities.len() > 0 {
        Some(base.requires_compatibilities[0].clone())
    } else {
        None
    };
    RegisterRequest {
        family: copy_opt(&base.family),
        cpu: copy_opt(&base.cpu),
        memory: copy_opt(&base.memory),
        network_mode: copy_opt(&base.network_mode),
        execution_role_arn: copy_opt(&base.execution_role_arn),
        task_role_arn: copy_opt(&base.task_role_arn),
        requires_compatibility,
        container_definitions: containers,
    }
}

} // verus!
