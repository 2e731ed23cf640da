//! The choice of the two workers of a request.
use crate::router::GrpcPDRouter;
use crate::services::{
    ConnectionMode, LoadBalancingPolicy, PolicyRegistry, RouterServices, Worker, WorkerRegistry,
    WorkerType,
};
use std::sync::Arc;
use vstd::prelude::*;

verus! {

/// The part that a worker plays for a request.
#[derive(Clone, Copy, Debug, PartialEq, Eq, Structural)]
pub enum Role {
    Prefill,
    Decode,
}

/// Whether a worker is of the type that its role asks for.
pub open spec fn plays(worker: Worker, role: Role) -> bool {
    match role {
        Role::Prefill => worker.worker_type is Prefill,
        Role::Decode => worker.worker_type is Decode,
    }
}

/// The worker type that a search by role asks for.
pub open spec fn type_of(role: Role) -> WorkerType {
    match role {
        Role::Prefill => WorkerType::Prefill { bootstrap_port: None },
        Role::Decode => WorkerType::Decode,
    }
}

/// The workers of `workers` that can play `role`, in their order.
pub open spec fn playing(workers: Seq<Arc<Worker>>, role: Role) -> Seq<Arc<Worker>> {
    workers.filter(|worker: Arc<Worker>| plays(*worker, role))
}

/// Whether a worker is of the type that its role asks for.
pub fn can_play(worker: &Worker, role: Role) -> (yes: bool)
    ensures
        yes == plays(*worker, role),
{
    match role {
        Role::Prefill => matches!(worker.worker_type, WorkerType::Prefill { .. }),
        Role::Decode => matches!(worker.worker_type, WorkerType::Decode),
    }
}

/// Keeps the workers that can play `role`.
pub fn keep_playing(workers: &Vec<Arc<Worker>>, role: Role) -> (kept: Vec<Arc<Worker>>)
    ensures
        kept@ == playing(workers@, role),
{
    let ghost test = |worker: Arc<Worker>| plays(*worker, role);
    let mut kept: Vec<Arc<Worker>> = Vec::new();
    let mut i: usize = 0;
    proof {
        reveal(Seq::filter);
        assert(workers@.take(0).filter(test) =~= Seq::empty());
    }
    while i < workers.len()
        invariant
            i <= workers.len(),
            test == (|worker: Arc<Worker>| plays(*worker, role)),
            kept@ == workers@.take(i as int).filter(test),
        decreases workers.len() - i,
    {
        proof {
            reveal(Seq::filter);
            assert(workers@.take(i + 1).drop_last() =~= workers@.take(i as int));
            assert(workers@.take(i + 1).last() == workers@[i as int]);
        }
        if can_play(&*workers[i], role) {
            kept.push(workers[i].clone());
        }
        i += 1;
    }
    assert(workers@.take(i as int) =~= workers@);
    kept
}

/// `workers` are what the registry lists for `role`: all that serve `model` and can play it, or
/// without a model those of the role that are reached by gRPC and, if so asked, healthy.
pub open spec fn are_listed<R: WorkerRegistry>(
    registry: &R,
    model: Option<&str>,
    role: Role,
    healthy_only: bool,
    workers: Seq<Arc<Worker>>,
) -> bool {
    match model {
        Some(model) => exists|all: Vec<Arc<Worker>>| #[trigger]
            call_ensures(R::get_by_model_fast, (registry, model), all) && workers == playing(
                all@,
                role,
            ),
        None => exists|all: Vec<Arc<Worker>>| #[trigger]
            call_ensures(
                R::get_workers_filtered,
                (
                    registry,
                    None,
                    Some(type_of(role)),
                    Some(ConnectionMode::Grpc { port: None }),
                    healthy_only,
                ),
                all,
            ) && workers == all@,
    }
}

/// `pick` is what `policy` answers, asked to choose among `workers`.
pub open spec fn picks<P: LoadBalancingPolicy>(
    policy: &P,
    workers: Seq<Arc<Worker>>,
    request_text: Option<&str>,
    pick: Option<usize>,
) -> bool {
    exists|list: &[Arc<Worker>]| #[trigger]
        call_ensures(P::select_worker, (policy, list, request_text), pick) && list@ == workers
}

/// Why a request has no workers.
#[derive(Clone, Copy, Debug, PartialEq, Eq, Structural)]
pub enum SelectionError {
    NoPrefillWorkers,
    NoDecodeWorkers,
    PrefillNotSelected,
    DecodeNotSelected,
}

impl SelectionError {
    /// The message that clients see.
    pub open spec fn spec_message(self) -> Seq<char> {
        match self {
            SelectionError::NoPrefillWorkers => "No healthy prefill workers available"@,
            SelectionError::NoDecodeWorkers => "No healthy decode workers available"@,
            SelectionError::PrefillNotSelected => "Failed to select prefill worker"@,
            SelectionError::DecodeNotSelected => "Failed to select decode worker"@,
        }
    }

    /// The message that clients see.
    pub fn message(&self) -> (message: String)
        ensures
            message@ == self.spec_message(),
    {
        match self {
            SelectionError::NoPrefillWorkers => "No healthy prefill workers available".to_string(),
            SelectionError::NoDecodeWorkers => "No healthy decode workers available".to_string(),
            SelectionError::PrefillNotSelected => "Failed to select prefill worker".to_string(),
            SelectionError::DecodeNotSelected => "Failed to select decode worker".to_string(),
        }
    }
}

/// What selection comes to.
#[derive(Debug, PartialEq, Eq)]
pub enum PairSelection {
    /// The workers of the request.
    Pair { prefill: Arc<Worker>, decode: Arc<Worker> },
    /// There are none.
    Failed(SelectionError),
    /// A policy chose a place where there is no worker: nothing can be done with that.
    OutOfRange,
}

/// What selection comes to, given the workers listed for each role and what the policies answered.
pub open spec fn selection_of(
    prefill_workers: Seq<Arc<Worker>>,
    decode_workers: Seq<Arc<Worker>>,
    prefill_pick: Option<usize>,
    decode_pick: Option<usize>,
) -> PairSelection {
    if prefill_workers.len() == 0 {
        PairSelection::Failed(SelectionError::NoPrefillWorkers)
    } else if decode_workers.len() == 0 {
        PairSelection::Failed(SelectionError::NoDecodeWorkers)
    } else {
        match (prefill_pick, decode_pick) {
            (None, _) => PairSelection::Failed(SelectionError::PrefillNotSelected),
            (_, None) => PairSelection::Failed(SelectionError::DecodeNotSelected),
            (Some(p), Some(d)) => if p < prefill_workers.len() && d < decode_workers.len() {
                PairSelection::Pair {
                    prefill: prefill_workers[p as int],
                    decode: decode_workers[d as int],
                }
            } else {
                PairSelection::OutOfRange
            },
        }
    }
}

/// Selects a pair, given the workers listed for each role and what the policies answered.
pub fn select_picked(
    prefill_workers: &Vec<Arc<Worker>>,
    decode_workers: &Vec<Arc<Worker>>,
    prefill_pick: Option<usize>,
    decode_pick: Option<usize>,
) -> (selection: PairSelection)
    ensures
        selection == selection_of(prefill_workers@, decode_workers@, prefill_pick, decode_pick),
{
    if prefill_workers.len() == 0 {
        return PairSelection::Failed(SelectionError::NoPrefillWorkers);
    }
    if decode_workers.len() == 0 {
        return PairSelection::Failed(SelectionError::NoDecodeWorkers);
    }
    let p: usize = match prefill_pick {
        Some(p) => p,
        None => return PairSelection::Failed(SelectionError::PrefillNotSelected),
    };
    let d: usize = match decode_pick {
        Some(d) => d,
        None => return PairSelection::Failed(SelectionError::DecodeNotSelected),
    };
    if p < prefill_workers.len() && d < decode_workers.len() {
        PairSelection::Pair {
            prefill: prefill_workers[p].clone(),
            decode: decode_workers[d].clone(),
        }
    } else {
        PairSelection::OutOfRange
    }
}

/// The model that selection goes by: none unless the router is aware of data parallelism.
pub open spec fn effective_model(dp_aware: bool, model_id: Option<&str>) -> Option<&str> {
    if dp_aware {
        model_id
    } else {
        None
    }
}

/// `selection` is what the registry and the policies of `router` bring about. A policy is asked
/// only when both roles have workers, and the decode policy only when the prefill policy chose.
pub open spec fn is_selected<S: RouterServices>(
    router: GrpcPDRouter<S>,
    request_text: Option<&str>,
    model_id: Option<&str>,
    selection: PairSelection,
) -> bool {
    exists|
        prefill_workers: Seq<Arc<Worker>>,
        decode_workers: Seq<Arc<Worker>>,
        prefill_pick: Option<usize>,
        decode_pick: Option<usize>,
    |
        {
            let model = effective_model(router.dp_aware, model_id);
            let asked = prefill_workers.len() > 0 && decode_workers.len() > 0;
            &&& are_listed(
                &*router.worker_registry,
                model,
                Role::Prefill,
                true,
                prefill_workers,
            )
            &&& are_listed(&*router.worker_registry, model, Role::Decode, true, decode_workers)
            &&& asked ==> picks_for(
                &*router.policy_registry,
                Role::Prefill,
                prefill_workers,
                request_text,
                prefill_pick,
            )
            &&& asked && prefill_pick is Some ==> picks_for(
                &*router.policy_registry,
                Role::Decode,
                decode_workers,
                request_text,
                decode_pick,
            )
            &&& selection == #[trigger] selection_of(
                prefill_workers,
                decode_workers,
                prefill_pick,
                decode_pick,
            )
        }
}

/// `pick` is what the policy in force for `role` answers.
pub open spec fn picks_for<P: PolicyRegistry>(
    policies: &P,
    role: Role,
    workers: Seq<Arc<Worker>>,
    request_text: Option<&str>,
    pick: Option<usize>,
) -> bool {
    match role {
        Role::Prefill => exists|policy: Arc<P::Policy>| #[trigger]
            call_ensures(P::get_prefill_policy, (policies,), policy) && picks(
                &*policy,
                workers,
                request_text,
                pick,
            ),
        Role::Decode => exists|policy: Arc<P::Policy>| #[trigger]
            call_ensures(P::get_decode_policy, (policies,), policy) && picks(
                &*policy,
                workers,
                request_text,
                pick,
            ),
    }
}

/// How many workers a router knows for each role, and whether it is aware of data parallelism.
#[derive(Clone, Copy, Debug, PartialEq, Eq, Structural)]
pub struct RouterSummary {
    pub prefill_workers_count: usize,
    pub decode_workers_count: usize,
    pub dp_aware: bool,
}

impl<S: RouterServices> GrpcPDRouter<S> {
    fn list_workers(&self, model: Option<&str>, role: Role, healthy_only: bool) -> (workers: Vec<
        Arc<Worker>,
    >)
        ensures
            are_listed(&*self.worker_registry, model, role, healthy_only, workers@),
    {
        match model {
            Some(model) => {
                let all = self.worker_registry.get_by_model_fast(model);
                keep_playing(&all, role)
            },
            None => {
                let worker_type: WorkerType = match role {
                    Role::Prefill => WorkerType::Prefill { bootstrap_port: None },
                    Role::Decode => WorkerType::Decode,
                };
                self.worker_registry.get_workers_filtered(
                    None,
                    Some(worker_type),
                    Some(ConnectionMode::Grpc { port: None }),
                    healthy_only,
                )
            },
        }
    }

    /// Selects a prefill and a decode worker by the policies in force.
    pub fn select_pd_pair(&self, request_text: Option<&str>, model_id: Option<&str>) -> (selection:
        PairSelection)
        ensures
            is_selected(*self, request_text, model_id, selection),
    {
        let model: Option<&str> = if self.dp_aware {
            model_id
        } else {
            None
        };
        let prefill_workers = self.list_workers(model, Role::Prefill, true);
        let decode_workers = self.list_workers(model, Role::Decode, true);
        if prefill_workers.len() == 0 || decode_workers.len() == 0 {
            return select_picked(&prefill_workers, &decode_workers, None, None);
        }
        let prefill_policy = self.policy_registry.get_prefill_policy();
        let decode_policy = self.policy_registry.get_decode_policy();
        let prefill_pick = prefill_policy.select_worker(prefill_workers.as_slice(), request_text);
        assert(picks_for(
            &*self.policy_registry,
            Role::Prefill,
            prefill_workers@,
            request_text,
            prefill_pick,
        ));
        if prefill_pick.is_none() {
            return select_picked(&prefill_workers, &decode_workers, None, None);
        }
        let decode_pick = decode_policy.select_worker(decode_workers.as_slice(), request_text);
        assert(picks_for(
            &*self.policy_registry,
            Role::Decode,
            decode_workers@,
            request_text,
            decode_pick,
        ));
        select_picked(&prefill_workers, &decode_workers, prefill_pick, decode_pick)
    }

    /// Counts the workers of each role that are reached by gRPC, healthy or not.
    pub fn summary(&self) -> (summary: RouterSummary)
        ensures
            summary.dp_aware == self.dp_aware,
            exists|prefill: Seq<Arc<Worker>>| #[trigger]
                are_listed(&*self.worker_registry, None, Role::Prefill, false, prefill)
                    && summary.prefill_workers_count == prefill.len(),
            exists|decode: Seq<Arc<Worker>>| #[trigger]
                are_listed(&*self.worker_registry, None, Role::Decode, false, decode)
                    && summary.decode_workers_count == decode.len(),
    {
        let prefill_workers = self.list_workers(None, Role::Prefill, false);
        let decode_workers = self.list_workers(None, Role::Decode, false);
        RouterSummary {
            prefill_workers_count: prefill_workers.len(),
            decode_workers_count: decode_workers.len(),
            dp_aware: self.dp_aware,
        }
    }
}

} // verus!
