//! Deploying the current service to a new image version: the request that
//! registers the rewritten task definition.
use vstd::prelude::*;
use crate::errors::EcsHelperVarietyError;
use crate::registry::{ImageLookup, Repository};
use crate::rewrite::{rewrite_containers, rewrite_result, RewritePolicy};
use crate::task_definition::{
    build_register_request, first_compatibility, RegisterRequest, TaskDefinition,
};

verus! {

/// `req` carries the scalar attributes of `base` as they are.
pub open spec fn carries_over(base: TaskDefinition, req: RegisterRequest) -> bool {
    &&& req.family == base.family
    &&& req.cpu == base.cpu
    &&& req.memory == base.memory
    &&& req.network_mode == base.network_mode
    &&& req.execution_role_arn == base.execution_role_arn
    &&& req.task_role_arn == base.task_role_arn
    &&& req.requires_compatibility == first_compatibility(base)
}

/// The outcome `r` of preparing a deployment's registration request.
pub open spec fn deployment_outcome(
    base: TaskDefinition,
    repos: Seq<Repository>,
    version: Seq<char>,
    lookups: Seq<ImageLookup>,
    policy: RewritePolicy,
    r: Result<RegisterRequest, EcsHelperVarietyError>,
) -> bool {
    match r {
        Ok(req) => carries_over(base, req) && rewrite_result(
            base.container_definitions@,
            repos,
            version,
            lookups,
            policy,
            Ok(req.container_definitions),
        ),
        Err(e) => rewrite_result(base.container_definitions@, repos, version, lookups, policy, Err(e)),
    }
}

/// The registration request for a deployment: every container of the
/// service's task definition pointed at `version` (the i-th with the
/// registry's answer `lookups[i]`), under `policy`, and the scalar attributes
/// carried over.
pub fn deployment_request(
    base: &TaskDefinition,
    repos: &Vec<Repository>,
    version: &String,
    lookups: &Vec<ImageLookup>,
    policy: RewritePolicy,
) -> (r: Result<RegisterRequest, EcsHelperVarietyError>)
    requires
        lookups@.len() == base.container_definitions@.len(),
    ensures
        deployment_outcome(*base, repos@, version@, lookups@, policy, r),
{
    match rewrite_containers(&base.container_definitions, repos, version, lookups, policy) {
        Ok(containers) => Ok(build_register_request(base, containers)),
        Err(e) => Err(e),
    }
}

} // verus!
