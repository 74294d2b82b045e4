//! Pointing every container of a task definition at the requested version.
use vstd::prelude::*;
use crate::errors::EcsHelperVarietyError;
use crate::registry::{
    bind_result, create_new_container_definition_from, matching_repositories, rebound,
    versioned_image, ImageLookup, Repository,
};
use crate::task_definition::ContainerDefinition;

verus! {

/// What to do when a container cannot be pointed at the version.
#[derive(Debug, Clone, Copy, PartialEq, Eq)]
pub enum RewritePolicy {
    /// Stop at the first container that fails, with its error.
    FailFast,
    /// Leave failing containers out and go on with the others.
    BestEffort,
}

/// Binding `c` succeeds: exactly one repository matches its image and the
/// registry holds the version tag.
pub open spec fn bind_succeeds(c: ContainerDefinition, repos: Seq<Repository>, lookup: ImageLookup) -> bool {
    matching_repositories(repos, c.image).len() == 1 && lookup is Found
}

/// The image reference that a successful binding gives `c`.
pub open spec fn bound_image(c: ContainerDefinition, repos: Seq<Repository>, version: Seq<char>) -> Seq<char> {
    versioned_image(matching_repositories(repos, c.image)[0].uri.unwrap()@, version)
}

/// The positions below `n`, in order, of the containers whose binding succeeds.
pub open spec fn kept(
    defs: Seq<ContainerDefinition>,
    lookups: Seq<ImageLookup>,
    repos: Seq<Repository>,
    n: int,
) -> Seq<int>
    decreases n,
{
    if n <= 0 {
        Seq::empty()
    } else if bind_succeeds(defs[n - 1], repos, lookups[n - 1]) {
        kept(defs, lookups, repos, n - 1).push(n - 1)
    } else {
        kept(defs, lookups, repos, n - 1)
    }
}

/// `out` holds, in order, the rebound copies of the containers at the
/// positions `ks`.
pub open spec fn rewritten_at(
    defs: Seq<ContainerDefinition>,
    repos: Seq<Repository>,
    version: Seq<char>,
    ks: Seq<int>,
    out: Seq<ContainerDefinition>,
) -> bool {
    &&& out.len() == ks.len()
    &&& forall|k: int|
        0 <= k < ks.len() ==> rebound(
            defs[ks[k]],
            #[trigger] out[k],
            bound_image(defs[ks[k]], repos, version),
        )
}

/// Every container below `n` binds.
pub open spec fn all_bind(
    defs: Seq<ContainerDefinition>,
    lookups: Seq<ImageLookup>,
    repos: Seq<Repository>,
    n: int,
) -> bool {
    forall|i: int| 0 <= i < n ==> bind_succeeds(defs[i], repos, #[trigger] lookups[i])
}

proof fn lemma_kept_all(
    defs: Seq<ContainerDefinition>,
    lookups: Seq<ImageLookup>,
    repos: Seq<Repository>,
    n: int,
)
    requires
        0 <= n,
        all_bind(defs, lookups, repos, n),
    ensures
        kept(defs, lookups, repos, n).len() == n,
        forall|k: int| 0 <= k < n ==> #[trigger] kept(defs, lookups, repos, n)[k] == k,
    decreases n,
{
    if n > 0 {
        assert(bind_succeeds(defs[n - 1], repos, lookups[n - 1]));
        lemma_kept_all(defs, lookups, repos, n - 1);
    }
}

/// When every one of the N containers has exactly one matching repository
/// and its tag exists, all N are kept, in their order; so the rewritten list
/// has N containers, the k-th pointing at `{repository URI}:{version}` for
/// the k-th container.
pub proof fn lemma_all_containers_rewritten(
    defs: Seq<ContainerDefinition>,
    lookups: Seq<ImageLookup>,
    repos: Seq<Repository>,
    version: Seq<char>,
    out: Seq<ContainerDefinition>,
)
    requires
        lookups.len() == defs.len(),
        all_bind(defs, lookups, repos, defs.len() as int),
        rewritten_at(defs, repos, version, kept(defs, lookups, repos, defs.len() as int), out),
    ensures
        out.len() == defs.len(),
        forall|k: int|
            0 <= k < defs.len() ==> rebound(
                defs[k],
                #[trigger] out[k],
                bound_image(defs[k], repos, version),
            ),
{
    lemma_kept_all(defs, lookups, repos, defs.len() as int);
    assert forall|k: int| 0 <= k < defs.len() implies rebound(
        defs[k],
        #[trigger] out[k],
        bound_image(defs[k], repos, version),
    ) by {
        assert(kept(defs, lookups, repos, defs.len() as int)[k] == k);
    }
}

/// The outcome of rewriting every container of `defs` under `policy`.
pub open spec fn rewrite_result(
    defs: Seq<ContainerDefinition>,
    repos: Seq<Repository>,
    version: Seq<char>,
    lookups: Seq<ImageLookup>,
    policy: RewritePolicy,
    r: Result<Vec<ContainerDefinition>, EcsHelperVarietyError>,
) -> bool {
            let ks = kept(defs, lookups, repos, defs.len() as int);
            match policy {
                RewritePolicy::BestEffort => {
                    &&& ks.len() == 0 <==> r == Err::<Vec<ContainerDefinition>, EcsHelperVarietyError>(
                        EcsHelperVarietyError::NoContainerDefinitionsRewritten,
                    )
                    &&& r matches Ok(out) ==> rewritten_at(defs, repos, version, ks, out@)
                },
                RewritePolicy::FailFast => {
                    &&& (r is Ok <==> defs.len() > 0 && all_bind(
                        defs,
                        lookups,
                        repos,
                        defs.len() as int,
                    ))
                    &&& r matches Ok(out) ==> rewritten_at(defs, repos, version, ks, out@)
                    &&& defs.len() == 0 ==> r == Err::<
                        Vec<ContainerDefinition>,
                        EcsHelperVarietyError,
                    >(EcsHelperVarietyError::NoContainerDefinitionsRewritten)
                    &&& r matches Err(e) ==> (defs.len() > 0 ==> (exists|i: int|
                        0 <= i < defs.len() && all_bind(defs, lookups, repos, i)
                            && bind_result(
                            #[trigger] defs[i],
                            repos,
                            version,
                            lookups[i],
                            Err(e),
                        )))
                },
            }
        }

/// Binds every container of `defs` (the i-th with the registry's answer
/// `lookups[i]`). Under `BestEffort` the containers that fail are left out;
/// under `FailFast` the first failure is returned. Either way an empty result
/// is refused with `NoContainerDefinitionsRewritten`.
pub fn rewrite_containers(
    defs: &Vec<ContainerDefinition>,
    repos: &Vec<Repository>,
    version: &String,
    lookups: &Vec<ImageLookup>,
    policy: RewritePolicy,
) -> (r: Result<Vec<ContainerDefinition>, EcsHelperVarietyError>)
    requires
        lookups@.len() == defs@.len(),
    ensures
        rewrite_result(defs@, repos@, version@, lookups@, policy, r),
{
    let mut out: Vec<ContainerDefinition> = Vec::new();
    let mut i: usize = 0;
    while i < defs.len()
        invariant
            lookups@.len() == defs@.len(),
            i <= defs@.len(),
            rewritten_at(defs@, repos@, version@, kept(defs@, lookups@, repos@, i as int), out@),
            policy == RewritePolicy::FailFast ==> all_bind(defs@, lookups@, repos@, i as int),
        decreases defs@.len() - i,
    {
        let ghost ks = kept(defs@, lookups@, repos@, i as int);
        let res = create_new_container_definition_from(&defs[i], repos, version, &lookups[i]);
        match res {
            Ok(d) => {
                assert(bind_succeeds(defs@[i as int], repos@, lookups@[i as int])) by {
                    let m = matching_repositories(repos@, defs@[i as int].image);
                    if m.len() == 1 {
                        assert(lookups@[i as int] is Found);
                    }
                }
                out.push(d);
                let ghost ks2 = kept(defs@, lookups@, repos@, i + 1);
                assert(ks2 == ks.push(i as int));
                assert forall|k: int| 0 <= k < ks2.len() implies rebound(
                    defs@[ks2[k]],
                    #[trigger] out@[k],
                    bound_image(defs@[ks2[k]], repos@, version@),
                ) by {
                    if k < ks.len() {
                        assert(ks2[k] == ks[k]);
                    }
                }
            },
            Err(e) => {
                assert(!bind_succeeds(defs@[i as int], repos@, lookups@[i as int]));
                match policy {
                    RewritePolicy::FailFast => {
                        return Err(e);
                    },
                    RewritePolicy::BestEffort => {},
                }
            },
        }
        i += 1;
    }
    if out.len() == 0 {
        return Err(EcsHelperVarietyError::NoContainerDefinitionsRewritten);
    }
    Ok(out)
}

} // verus!
