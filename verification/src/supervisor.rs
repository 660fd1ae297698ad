//! Supervisor decisions. The embedding application runs the start and stop
//! flows — it holds the lock, spawns, probes and kills — and asks these
//! functions what to do at every decision point:
//!
//! * `start`: [`start_gate`], then under the lock [`Registry::get`] and, if
//!   an entry exists, [`on_liveness`] with the observed non-blocking
//!   liveness of the tracked process; outside the lock
//!   [`crate::launch::build_launch_plan`] and, when asked to wait, the
//!   [`crate::health::HealthWait`] protocol; finally, under the lock again,
//!   [`Registry::insert`].
//! * `stop`: under the lock [`stop_remove`]; the returned process is then
//!   killed by the application.

use vstd::prelude::*;
use vstd::string::*;

use crate::error::{ConfigIssue, ModuleError};
use crate::manifest::Manifest;
use crate::registry::{ManagedProcess, Registry};

verus! {

/// What the application observed of a tracked process with a non-blocking
/// liveness check.
#[derive(Clone, Debug, PartialEq)]
pub enum Liveness {
    /// The process has not exited.
    Alive,
    /// The process has exited.
    Exited,
    /// The check itself failed; carries the OS error text.
    StatusUnknown(String),
}

/// What a start request must do after the registry has been consulted.
#[derive(Clone, Debug, PartialEq)]
pub enum StartDecision {
    /// A live instance is already tracked: return its pid and port
    /// unchanged, spawn nothing.
    Reuse(u32, u16),
    /// No live instance remains: launch a fresh process.
    Relaunch,
    /// The request fails with the carried error.
    Fail(ModuleError),
}

/// The decision for a tracked process `p` under observation `observed`.
pub open spec fn spec_liveness_decision(p: ManagedProcess, observed: Liveness) -> StartDecision {
    match observed {
        Liveness::Alive => StartDecision::Reuse(p.pid, p.port),
        Liveness::Exited => StartDecision::Relaunch,
        Liveness::StatusUnknown(e) => StartDecision::Fail(ModuleError::StatusCheck(e)),
    }
}

/// How one liveness review moves the registry from `pre` to `post` and
/// produces decision `d`: only an observed exit evicts the entry, and no
/// other id is ever touched.
pub open spec fn liveness_transition(
    pre: Registry,
    post: Registry,
    id: Seq<char>,
    observed: Liveness,
    d: StartDecision,
) -> bool {
    &&& d == spec_liveness_decision(pre.spec_get(id)->Some_0, observed)
    &&& (observed is Exited ==> post.spec_get(id) is None && (forall|k: Seq<char>|
        k != id ==> post.spec_get(k) == pre.spec_get(k)))
    &&& (!(observed is Exited) ==> post == pre)
}

/// How one stop moves the registry from `pre` to `post` and produces result
/// `r`: a tracked entry is removed and returned; an untracked id is
/// reported as not found and changes nothing.
pub open spec fn stop_transition(
    pre: Registry,
    post: Registry,
    id: Seq<char>,
    r: Result<ManagedProcess, ModuleError>,
) -> bool {
    &&& (pre.spec_get(id) is Some ==> {
        &&& r == Result::<ManagedProcess, ModuleError>::Ok(pre.spec_get(id)->Some_0)
        &&& post.spec_get(id) is None
        &&& forall|k: Seq<char>| k != id ==> post.spec_get(k) == pre.spec_get(k)
    })
    &&& (pre.spec_get(id) is None ==> {
        &&& (r matches Err(e) && e matches ModuleError::NotFound(s) && s@ == id)
        &&& post == pre
    })
}

/// The very first check of a start request: a descriptor whose backend is
/// disabled fails at once, before the registry is consulted, before any
/// port is allocated and before anything is spawned.
pub fn start_gate(m: &Manifest) -> (r: Result<(), ModuleError>)
    ensures
        r is Ok <==> m.backend.enabled,
        !m.backend.enabled ==> r == Result::<(), ModuleError>::Err(
            ModuleError::Configuration(ConfigIssue::BackendDisabled),
        ),
{
    if m.backend.enabled {
        Result::Ok(())
    } else {
        Result::Err(ModuleError::Configuration(ConfigIssue::BackendDisabled))
    }
}

/// Reviews a tracked entry against the observed liveness of its process,
/// under the registry lock: a live process is reused unchanged, an exited
/// one is evicted so that the caller relaunches, a failed check fails the
/// request and changes nothing.
pub fn on_liveness(reg: &mut Registry, id: &str, observed: Liveness) -> (d: StartDecision)
    requires
        old(reg).wf(),
        old(reg).spec_get(id@) is Some,
    ensures
        final(reg).wf(),
        liveness_transition(*old(reg), *final(reg), id@, observed, d),
{
    match observed {
        Liveness::Alive => {
            match reg.get(id) {
                Option::Some(p) => StartDecision::Reuse(p.pid, p.port),
                Option::None => {
                    proof {
                        assert(false);
                    }
                    StartDecision::Relaunch
                },
            }
        },
        Liveness::Exited => {
            reg.remove(id);
            StartDecision::Relaunch
        },
        Liveness::StatusUnknown(e) => StartDecision::Fail(ModuleError::StatusCheck(e)),
    }
}

/// Removes the registry entry for `id` under the lock. The caller kills the
/// returned process afterwards, outside the lock; a kill failure is
/// reported, but the entry is already gone either way.
pub fn stop_remove(reg: &mut Registry, id: &str) -> (r: Result<ManagedProcess, ModuleError>)
    requires
        old(reg).wf(),
    ensures
        final(reg).wf(),
        stop_transition(*old(reg), *final(reg), id@, r),
{
    match reg.remove(id) {
        Option::Some(p) => Result::Ok(p),
        Option::None => Result::Err(ModuleError::NotFound(id.to_owned())),
    }
}

/// The confirmation message returned by a successful stop.
pub fn stop_ack(id: &str) -> (s: String)
    ensures
        s@ == "module "@ + id@ + " stopped"@,
{
    let mut out = "module ".to_owned();
    out.append(id);
    out.append(" stopped");
    proof {
        assert(out@ =~= "module "@ + id@ + " stopped"@);
    }
    out
}

/// Law: start is idempotent. While a tracked process stays alive, two
/// consecutive start reviews of the same id leave the registry exactly as
/// it was and both decide to reuse the identical `(pid, port)`; neither
/// decision launches anything.
pub proof fn lemma_start_idempotent(
    pre: Registry,
    mid: Registry,
    post: Registry,
    id: Seq<char>,
    d1: StartDecision,
    d2: StartDecision,
)
    requires
        pre.spec_get(id) is Some,
        liveness_transition(pre, mid, id, Liveness::Alive, d1),
        liveness_transition(mid, post, id, Liveness::Alive, d2),
    ensures
        mid == pre,
        post == pre,
        d1 == StartDecision::Reuse(pre.spec_get(id)->Some_0.pid, pre.spec_get(id)->Some_0.port),
        d2 == d1,
{
}

/// Law: a detected exit relaunches. If the tracked process of `id` is
/// observed to have exited, the stale entry is evicted — the id is no
/// longer tracked, every other id is untouched — and the decision is to
/// launch a fresh process.
pub proof fn lemma_exit_relaunches(
    pre: Registry,
    post: Registry,
    id: Seq<char>,
    d: StartDecision,
)
    requires
        pre.spec_get(id) is Some,
        liveness_transition(pre, post, id, Liveness::Exited, d),
    ensures
        d == StartDecision::Relaunch,
        post.spec_get(id) is None,
        forall|k: Seq<char>| k != id ==> post.spec_get(k) == pre.spec_get(k),
{
}

/// Law: stop removes state. After a stop of a tracked id succeeds, the id
/// is no longer tracked, so a second stop of the same id fails with the
/// not-found error and changes nothing — and a subsequent start finds no
/// entry to reuse, hence spawns a fresh process.
pub proof fn lemma_stop_removes_state(
    pre: Registry,
    mid: Registry,
    post: Registry,
    id: Seq<char>,
    r1: Result<ManagedProcess, ModuleError>,
    r2: Result<ManagedProcess, ModuleError>,
)
    requires
        pre.spec_get(id) is Some,
        stop_transition(pre, mid, id, r1),
        stop_transition(mid, post, id, r2),
    ensures
        r1 == Result::<ManagedProcess, ModuleError>::Ok(pre.spec_get(id)->Some_0),
        mid.spec_get(id) is None,
        (r2 matches Err(e) && e matches ModuleError::NotFound(s) && s@ == id),
        post == mid,
{
}

} // verus!
