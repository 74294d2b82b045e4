//! Resolving a partial, user-supplied name to one identifier among those the
//! service lists.
use vstd::prelude::*;
use crate::config::Config;
use crate::errors::EcsHelperVarietyError;
use crate::task_definition::opt_view;
use crate::text::{concat, contains, has_substring, join, joined, views};

verus! {

/// A candidate is selected by the hint when one is given (the hint occurs in
/// it), and otherwise by the needles (each of them occurs in it).
pub open spec fn selects(c: Seq<char>, hint: Option<Seq<char>>, needles: Seq<Seq<char>>) -> bool {
    match hint {
        Some(h) => has_substring(c, h),
        None => forall|k: int| 0 <= k < needles.len() ==> has_substring(c, #[trigger] needles[k]),
    }
}

/// The position of the first selected candidate at or after `start`.
pub open spec fn first_selected(
    cands: Seq<Seq<char>>,
    hint: Option<Seq<char>>,
    needles: Seq<Seq<char>>,
    start: int,
) -> Option<int>
    decreases cands.len() - start,
{
    if start < 0 || start >= cands.len() {
        None
    } else if selects(cands[start], hint, needles) {
        Some(start)
    } else {
        first_selected(cands, hint, needles, start + 1)
    }
}

/// The resolution of a list of candidates: the first one selected.
pub open spec fn resolution(
    cands: Seq<Seq<char>>,
    hint: Option<Seq<char>>,
    needles: Seq<Seq<char>>,
) -> Option<int> {
    first_selected(cands, hint, needles, 0)
}

/// A resolved position is one of the candidates'.
pub proof fn lemma_resolution_in_range(
    cands: Seq<Seq<char>>,
    hint: Option<Seq<char>>,
    needles: Seq<Seq<char>>,
    start: int,
)
    ensures
        first_selected(cands, hint, needles, start) matches Some(i) ==> start <= i < cands.len(),
    decreases cands.len() - start,
{
    if 0 <= start < cands.len() && !selects(cands[start], hint, needles) {
        lemma_resolution_in_range(cands, hint, needles, start + 1);
    }
}

proof fn lemma_first_selected_unique(
    cands: Seq<Seq<char>>,
    hint: Option<Seq<char>>,
    needles: Seq<Seq<char>>,
    start: int,
    k: int,
)
    requires
        0 <= start <= k < cands.len(),
        selects(cands[k], hint, needles),
        forall|j: int| 0 <= j < cands.len() && j != k ==> !selects(#[trigger] cands[j], hint, needles),
    ensures
        first_selected(cands, hint, needles, start) == Some(k),
    decreases k - start,
{
    if start < k {
        lemma_first_selected_unique(cands, hint, needles, start + 1, k);
    }
}

proof fn lemma_first_selected_none(
    cands: Seq<Seq<char>>,
    hint: Option<Seq<char>>,
    needles: Seq<Seq<char>>,
    start: int,
)
    requires
        0 <= start,
        forall|j: int| 0 <= j < cands.len() ==> !selects(#[trigger] cands[j], hint, needles),
    ensures
        first_selected(cands, hint, needles, start) is None,
    decreases cands.len() - start,
{
    if start < cands.len() {
        lemma_first_selected_none(cands, hint, needles, start + 1);
    }
}

/// When exactly one candidate is selected, resolution picks it; when none
/// is, resolution finds nothing.
pub proof fn lemma_resolution_unique_or_none(
    cands: Seq<Seq<char>>,
    hint: Option<Seq<char>>,
    needles: Seq<Seq<char>>,
)
    ensures
        forall|k: int|
            0 <= k < cands.len() && selects(#[trigger] cands[k], hint, needles) && (forall|j: int|
                0 <= j < cands.len() && j != k ==> !selects(#[trigger] cands[j], hint, needles))
                ==> resolution(cands, hint, needles) == Some(k),
        (forall|j: int| 0 <= j < cands.len() ==> !selects(#[trigger] cands[j], hint, needles))
            ==> resolution(cands, hint, needles) is None,
{
    assert forall|k: int|
        0 <= k < cands.len() && selects(#[trigger] cands[k], hint, needles) && (forall|j: int|
            0 <= j < cands.len() && j != k ==> !selects(#[trigger] cands[j], hint, needles))
            implies resolution(cands, hint, needles) == Some(k) by {
        lemma_first_selected_unique(cands, hint, needles, 0, k);
    }
    if forall|j: int| 0 <= j < cands.len() ==> !selects(#[trigger] cands[j], hint, needles) {
        lemma_first_selected_none(cands, hint, needles, 0);
    }
}

/// Whether every needle occurs in `c`.
fn contains_all(c: &str, needles: &Vec<String>) -> (r: bool)
    ensures
        r == (forall|k: int| 0 <= k < needles@.len() ==> has_substring(c@, #[trigger] views(needles@)[k])),
{
    let mut i: usize = 0;
    while i < needles.len()
        invariant
            i <= needles@.len(),
            forall|k: int| 0 <= k < i ==> has_substring(c@, #[trigger] views(needles@)[k]),
        decreases needles@.len() - i,
    {
        if !contains(c, needles[i].as_str()) {
            assert(!has_substring(c@, views(needles@)[i as int]));
            return false;
        }
        i += 1;
    }
    true
}

/// Whether the candidate is selected by the hint or, without one, by the needles.
fn is_selected(c: &str, hint: &Option<String>, needles: &Vec<String>) -> (r: bool)
    ensures
        r == selects(c@, opt_view(*hint), views(needles@)),
{
    match hint {
        Some(h) => contains(c, h.as_str()),
        None => {
            let r = contains_all(c, needles);
            assert(views(needles@).len() == needles@.len());
            r
        },
    }
}

/// The position of the first candidate selected by the hint or, without one,
/// by the needles.
pub fn first_match(candidates: &Vec<String>, hint: &Option<String>, needles: &Vec<String>) -> (r:
    Option<usize>)
    ensures
        match r {
            Some(i) => i < candidates@.len() && resolution(
                views(candidates@),
                opt_view(*hint),
                views(needles@),
            ) == Some(i as int),
            None => resolution(views(candidates@), opt_view(*hint), views(needles@)) is None,
        },
{
    let ghost cands = views(candidates@);
    let ghost h = opt_view(*hint);
    let ghost ns = views(needles@);
    let mut i: usize = 0;
    while i < candidates.len()
        invariant
            i <= candidates@.len(),
            cands == views(candidates@),
            h == opt_view(*hint),
            ns == views(needles@),
            first_selected(cands, h, ns, 0) == first_selected(cands, h, ns, i as int),
        decreases candidates@.len() - i,
    {
        if is_selected(candidates[i].as_str(), hint, needles) {
            return Some(i);
        }
        i += 1;
    }
    None
}

/// The text of a failed resolution: `head`, the candidates joined by ", ",
/// ".\n", the context, and, when a hint was given, ", {label}: {hint}".
pub open spec fn not_found_text(
    head: Seq<char>,
    cands: Seq<Seq<char>>,
    context: Seq<char>,
    label: Seq<char>,
    hint: Option<Seq<char>>,
) -> Seq<char> {
    let base = head + joined(cands, ", "@) + ".\n"@ + context;
    match hint {
        Some(h) => base + ", "@ + label + ": "@ + h,
        None => base,
    }
}

fn not_found_message(
    head: &str,
    candidates: &Vec<String>,
    context: &str,
    label: &str,
    hint: &Option<String>,
) -> (r: String)
    ensures
        r@ == not_found_text(head@, views(candidates@), context@, label@, opt_view(*hint)),
{
    let mut out = concat(head, join(candidates, ", ").as_str());
    out.append(".\n");
    out.append(context);
    match hint {
        Some(h) => {
            out.append(", ");
            out.append(label);
            out.append(": ");
            out.append(h.as_str());
        },
        None => {},
    }
    out
}

/// `label: value` pairs joined by ", ".
pub open spec fn pairs_text(pairs: Seq<(Seq<char>, Seq<char>)>) -> Seq<char>
    decreases pairs.len(),
{
    if pairs.len() == 0 {
        Seq::empty()
    } else if pairs.len() == 1 {
        pairs[0].0 + ": "@ + pairs[0].1
    } else {
        pairs_text(pairs.drop_last()) + ", "@ + pairs.last().0 + ": "@ + pairs.last().1
    }
}

/// The context named in a failed resolution: "Project: …, environment: …" for
/// a cluster, with the application and the enclosing identifiers for the rest.
fn context_of(labels: &Vec<&str>, values: &Vec<&str>) -> (r: String)
    requires
        labels@.len() == values@.len(),
        labels@.len() > 0,
    ensures
        r@ == pairs_text(
            Seq::new(labels@.len(), |k: int| (labels@[k]@, values@[k]@)),
        ),
{
    let ghost ps = Seq::new(labels@.len(), |k: int| (labels@[k]@, values@[k]@));
    let mut out = concat(labels[0], ": ");
    out.append(values[0]);
    assert(ps.subrange(0, 1).drop_last() =~= Seq::<(Seq<char>, Seq<char>)>::empty());
    let mut i: usize = 1;
    while i < labels.len()
        invariant
            labels@.len() == values@.len(),
            1 <= i <= labels@.len(),
            ps == Seq::new(labels@.len(), |k: int| (labels@[k]@, values@[k]@)),
            out@ == pairs_text(ps.subrange(0, i as int)),
        decreases labels@.len() - i,
    {
        out.append(", ");
        out.append(labels[i]);
        out.append(": ");
        out.append(values[i]);
        assert(ps.subrange(0, i + 1).drop_last() =~= ps.subrange(0, i as int));
        i += 1;
    }
    assert(ps.subrange(0, labels@.len() as int) =~= ps);
    out
}

/// The outcome of resolving among `cands`: the first selected candidate, or
/// the failure text when none is selected.
pub open spec fn resolved(
    cands: Seq<Seq<char>>,
    hint: Option<Seq<char>>,
    needles: Seq<Seq<char>>,
    head: Seq<char>,
    context: Seq<char>,
    label: Seq<char>,
    r: Result<String, String>,
) -> bool {
    match resolution(cands, hint, needles) {
        Some(i) => r matches Ok(c) && c@ == cands[i],
        None => r matches Err(m) && m@ == not_found_text(head, cands, context, label, hint),
    }
}

fn resolve_among(
    candidates: &Vec<String>,
    hint: &Option<String>,
    needles: &Vec<String>,
    head: &str,
    context: &str,
    label: &str,
) -> (r: Result<String, String>)
    ensures
        resolved(
            views(candidates@),
            opt_view(*hint),
            views(needles@),
            head@,
            context@,
            label@,
            r,
        ),
{
    match first_match(candidates, hint, needles) {
        Some(i) => Ok(candidates[i].clone()),
        None => Err(not_found_message(head, candidates, context, label, hint)),
    }
}

/// "label: value, label: value" for the given pairs.
pub open spec fn context_text(labels: Seq<&str>, values: Seq<Seq<char>>) -> Seq<char> {
    pairs_text(Seq::new(labels.len(), |k: int| (labels[k]@, values[k])))
}

fn context_for(labels: &Vec<&str>, values: &Vec<&str>) -> (r: String)
    requires
        labels@.len() == values@.len(),
        labels@.len() > 0,
    ensures
        r@ == context_text(labels@, values@.map_values(|v: &str| v@)),
{
    let r = context_of(labels, values);
    assert(Seq::new(labels@.len(), |k: int| (labels@[k]@, values@[k]@)) =~= Seq::new(
        labels@.len(),
        |k: int| (labels@[k]@, values@.map_values(|v: &str| v@)[k]),
    ));
    r
}

/// The outcome `r` of resolving the cluster.
pub open spec fn cluster_outcome(clusters: Seq<String>, config: Config, hint: Option<String>, r: Result<String, EcsHelperVarietyError>) -> bool {
    match resolution(
        views(clusters),
        opt_view(hint),
        seq![config.project@, config.environment@],
    ) {
        Some(i) => r matches Ok(c) && c@ == clusters[i]@,
        None => r matches Err(EcsHelperVarietyError::NoSpecifiedCluster(m)) && m@
            == not_found_text(
            "Cluster specified in cli not exists, clusters you have: "@,
            views(clusters),
            context_text(
                seq!["Project", "environment"],
                seq![config.project@, config.environment@],
            ),
            "cluster"@,
            opt_view(hint),
        ),
    }
}

/// Resolves the cluster: the first whose identifier contains the hint, or,
/// without a hint, both the project and the environment.
pub fn get_current_cluster(clusters: &Vec<String>, config: &Config, hint: &Option<String>) -> (r: Result<
    String,
    EcsHelperVarietyError,
>)
    ensures
        cluster_outcome(clusters@, *config, *hint, r),
{
    let needles = vec![config.project.clone(), config.environment.clone()];
    assert(views(needles@) =~= seq![config.project@, config.environment@]);
    let labels = vec!["Project", "environment"];
    let values = vec![config.project.as_str(), config.environment.as_str()];
    assert(values@.map_values(|v: &str| v@) =~= seq![config.project@, config.environment@]);
    assert(labels@ =~= seq!["Project", "environment"]);
    let context = context_for(&labels, &values);
    assert(context@ == context_text(
        seq!["Project", "environment"],
        seq![config.project@, config.environment@],
    ));
    let res = resolve_among(
        clusters,
        hint,
        &needles,
        "Cluster specified in cli not exists, clusters you have: ",
        context.as_str(),
        "cluster",
    );
    proof {
        lemma_resolution_in_range(views(clusters@), opt_view(*hint), views(needles@), 0);
    }
    assert(resolved(
        views(clusters@),
        opt_view(*hint),
        seq![config.project@, config.environment@],
        "Cluster specified in cli not exists, clusters you have: "@,
        context@,
        "cluster"@,
        res,
    ));
    match res {
        Ok(c) => Ok(c),
        Err(m) => Err(EcsHelperVarietyError::NoSpecifiedCluster(m)),
    }
}

/// The outcome `r` of resolving the service.
pub open spec fn service_outcome(services: Seq<String>, config: Config, cluster: String, hint: Option<String>, r: Result<String, EcsHelperVarietyError>) -> bool {
    match resolution(views(services), opt_view(hint), seq![config.application@, config.environment@]) {
        Some(i) => r matches Ok(c) && c@ == services[i]@,
        None => r matches Err(EcsHelperVarietyError::NoSpecifiedService(m)) && m@ == not_found_text(
            "Service specified in cli not exists, services you have: "@,
            views(services),
            context_text(
                seq!["Project", "application", "environment", "cluster"],
                seq![config.project@, config.application@, config.environment@, cluster@],
            ),
            "service"@,
            opt_view(hint),
        ),
    }
}

/// Resolves the service within `cluster`: the first whose identifier contains
/// the hint, or, without a hint, both the application and the environment.
pub fn get_current_service(services: &Vec<String>, config: &Config, cluster: &String, hint: &Option<String>) -> (r: Result<
    String,
    EcsHelperVarietyError,
>)
    ensures
        service_outcome(services@, *config, *cluster, *hint, r),
{
    let needles = vec![config.application.clone(), config.environment.clone()];
    assert(views(needles@) =~= seq![config.application@, config.environment@]);
    let labels = vec!["Project", "application", "environment", "cluster"];
    let values = vec![config.project.as_str(), config.application.as_str(), config.environment.as_str(), cluster.as_str()];
    assert(values@.map_values(|v: &str| v@) =~= seq![config.project@, config.application@, config.environment@, cluster@]);
    assert(labels@ =~= seq!["Project", "application", "environment", "cluster"]);
    let context = context_for(&labels, &values);
    let res = resolve_among(
        services,
        hint,
        &needles,
        "Service specified in cli not exists, services you have: ",
        context.as_str(),
        "service",
    );
    proof {
        lemma_resolution_in_range(views(services@), opt_view(*hint), views(needles@), 0);
    }
    match res {
        Ok(c) => Ok(c),
        Err(m) => Err(EcsHelperVarietyError::NoSpecifiedService(m)),
    }
}

/// The outcome `r` of resolving the task.
pub open spec fn task_outcome(tasks: Seq<String>, config: Config, cluster: String, service: String, hint: Option<String>, r: Result<String, EcsHelperVarietyError>) -> bool {
    match resolution(views(tasks), opt_view(hint), seq![config.environment@]) {
        Some(i) => r matches Ok(c) && c@ == tasks[i]@,
        None => r matches Err(EcsHelperVarietyError::NoSpecifiedTask(m)) && m@ == not_found_text(
            "Task specified in CLI does not exist, tasks you have: "@,
            views(tasks),
            context_text(
                seq!["Project", "application", "environment", "cluster", "service"],
                seq![config.project@, config.application@, config.environment@, cluster@, service@],
            ),
            "task"@,
            opt_view(hint),
        ),
    }
}

/// Resolves the running task of `service`: the first whose identifier contains
/// the hint, or, without a hint, the environment.
pub fn get_current_task(tasks: &Vec<String>, config: &Config, cluster: &String, service: &String, hint: &Option<String>) -> (r: Result<
    String,
    EcsHelperVarietyError,
>)
    ensures
        task_outcome(tasks@, *config, *cluster, *service, *hint, r),
{
    let needles = vec![config.environment.clone()];
    assert(views(needles@) =~= seq![config.environment@]);
    let labels = vec!["Project", "application", "environment", "cluster", "service"];
    let values = vec![config.project.as_str(), config.application.as_str(), config.environment.as_str(), cluster.as_str(), service.as_str()];
    assert(values@.map_values(|v: &str| v@) =~= seq![config.project@, config.application@, config.environment@, cluster@, service@]);
    assert(labels@ =~= seq!["Project", "application", "environment", "cluster", "service"]);
    let context = context_for(&labels, &values);
    let res = resolve_among(
        tasks,
        hint,
        &needles,
        "Task specified in CLI does not exist, tasks you have: ",
        context.as_str(),
        "task",
    );
    proof {
        lemma_resolution_in_range(views(tasks@), opt_view(*hint), views(needles@), 0);
    }
    match res {
        Ok(c) => Ok(c),
        Err(m) => Err(EcsHelperVarietyError::NoSpecifiedTask(m)),
    }
}

/// The outcome `r` of resolving the container.
pub open spec fn container_outcome(containers: Seq<String>, config: Config, cluster: String, task: String, hint: Option<String>, r: Result<String, EcsHelperVarietyError>) -> bool {
    match resolution(views(containers), opt_view(hint), seq![config.application@, config.environment@]) {
        Some(i) => r matches Ok(c) && c@ == containers[i]@,
        None => r matches Err(EcsHelperVarietyError::NoSpecifiedContainer(m)) && m@ == not_found_text(
            "Container specified in CLI does not exist, containers you have: "@,
            views(containers),
            context_text(
                seq!["Project", "application", "environment", "cluster", "task"],
                seq![config.project@, config.application@, config.environment@, cluster@, task@],
            ),
            "container"@,
            opt_view(hint),
        ),
    }
}

/// Resolves the container of `task`: the first whose name contains the hint,
/// or, without a hint, both the application and the environment.
pub fn get_target_container(containers: &Vec<String>, config: &Config, cluster: &String, task: &String, hint: &Option<String>) -> (r: Result<
    String,
    EcsHelperVarietyError,
>)
    ensures
        container_outcome(containers@, *config, *cluster, *task, *hint, r),
{
    let needles = vec![config.application.clone(), config.environment.clone()];
    assert(views(needles@) =~= seq![config.application@, config.environment@]);
    let labels = vec!["Project", "application", "environment", "cluster", "task"];
    let values = vec![config.project.as_str(), config.application.as_str(), config.environment.as_str(), cluster.as_str(), task.as_str()];
    assert(values@.map_values(|v: &str| v@) =~= seq![config.project@, config.application@, config.environment@, cluster@, task@]);
    assert(labels@ =~= seq!["Project", "application", "environment", "cluster", "task"]);
    let context = context_for(&labels, &values);
    let res = resolve_among(
        containers,
        hint,
        &needles,
        "Container specified in CLI does not exist, containers you have: ",
        context.as_str(),
        "container",
    );
    proof {
        lemma_resolution_in_range(views(containers@), opt_view(*hint), views(needles@), 0);
    }
    match res {
        Ok(c) => Ok(c),
        Err(m) => Err(EcsHelperVarietyError::NoSpecifiedContainer(m)),
    }
}

/// How many candidates a hint or the needles select.
#[derive(Debug, Clone, PartialEq, Eq)]
pub enum MatchOutcome {
    /// Exactly one, this one.
    Unique(String),
    /// None.
    NoMatch,
    /// Several, all of them in order.
    Ambiguous(Vec<String>),
}

/// The predicate "selected by the hint or, without one, by the needles".
pub open spec fn selected_by(hint: Option<Seq<char>>, needles: Seq<Seq<char>>) -> spec_fn(
    Seq<char>,
) -> bool {
    |c: Seq<char>| selects(c, hint, needles)
}

/// Classifies the candidates as one, none, or several selected, so that a
/// caller can refuse an ambiguous hint instead of taking the first match.
pub fn classify_matches(candidates: &Vec<String>, hint: &Option<String>, needles: &Vec<String>) -> (r:
    MatchOutcome)
    ensures
        ({
            let sel = views(candidates@).filter(selected_by(opt_view(*hint), views(needles@)));
            &&& (sel.len() == 0 <==> r == MatchOutcome::NoMatch)
            &&& (sel.len() == 1 <==> r is Unique)
            &&& r matches MatchOutcome::Unique(c) ==> c@ == sel[0]
            &&& r matches MatchOutcome::Ambiguous(v) ==> views(v@) == sel && sel.len() >= 2
        }),
{
    let ghost pred = selected_by(opt_view(*hint), views(needles@));
    let ghost cands = views(candidates@);
    let mut out: Vec<String> = Vec::new();
    let mut i: usize = 0;
    assert(cands.subrange(0, 0).filter(pred) =~= Seq::<Seq<char>>::empty()) by {
        reveal(Seq::filter);
    }
    while i < candidates.len()
        invariant
            i <= candidates@.len(),
            cands == views(candidates@),
            pred == selected_by(opt_view(*hint), views(needles@)),
            views(out@) == cands.subrange(0, i as int).filter(pred),
        decreases candidates@.len() - i,
    {
        let hit = is_selected(candidates[i].as_str(), hint, needles);
        let ghost before = views(out@);
        let ghost after = cands.subrange(0, i + 1);
        assert(after.drop_last() =~= cands.subrange(0, i as int));
        assert(after.last() == candidates@[i as int]@);
        reveal(Seq::filter);
        if hit {
            let c = candidates[i].clone();
            out.push(c);
            assert(views(out@) =~= before.push(c@));
        }
        i += 1;
    }
    assert(cands.subrange(0, candidates@.len() as int) =~= cands);
    if out.len() == 0 {
        MatchOutcome::NoMatch
    } else if out.len() == 1 {
        MatchOutcome::Unique(out[0].clone())
    } else {
        MatchOutcome::Ambiguous(out)
    }
}

} // verus!
