use vstd::prelude::*;

use crate::config::ClientConfigPlan;
use crate::config::client_config_plan;
use crate::config::opt_path_view;
use crate::config::plan_matches;
use crate::errors::Error;

verus! {

/// The process-wide client slot: holds at most one initialized client for
/// the process lifetime. The slot has exactly two states, uninitialized and
/// ready; a ready slot is never replaced.
///
/// The host wraps this in its run-once suspension primitive; the slot itself
/// captures the state machine that primitive must drive.
pub struct ClientCell<T> {
    inner: Option<T>,
}

/// The slot state after one acquisition completes: a ready slot is kept
/// unchanged whatever the new attempt produced, an empty slot is filled by a
/// successful attempt, and a failed attempt leaves an empty slot empty.
pub open spec fn completed<T>(state: Option<T>, init: Result<T, Error>) -> Option<T> {
    match state {
        Some(c) => Some(c),
        None => match init {
            Ok(c) => Some(c),
            Err(_) => None,
        },
    }
}

impl<T> ClientCell<T> {
    /// The client this slot holds, if any.
    pub closed spec fn stored(&self) -> Option<T> {
        self.inner
    }

    /// Whether the slot has been initialized.
    pub open spec fn is_ready(&self) -> bool {
        self.stored() is Some
    }

    /// Whether an observer of this slot sees the client `c`.
    pub open spec fn sees(&self, c: T) -> bool {
        self.stored() == Some(c)
    }

    /// A fresh, uninitialized slot.
    pub fn new() -> (r: Self)
        ensures
            !r.is_ready(),
    {
        ClientCell { inner: None }
    }

    /// Whether the slot still needs an initialization attempt.
    pub fn needs_init(&self) -> (r: bool)
        ensures
            r == !self.is_ready(),
    {
        self.inner.is_none()
    }

    /// The stored client, if the slot is ready.
    pub fn get(&self) -> (r: Option<&T>)
        ensures
            match r {
                Some(c) => self.sees(*c),
                None => !self.is_ready(),
            },
    {
        self.inner.as_ref()
    }

    /// Record the outcome of one initialization attempt. A ready slot
    /// ignores the outcome and stays as it is; an empty slot is filled on
    /// success and left empty on failure, so a later attempt may retry.
    /// The error of a failed first attempt is handed back unchanged.
    pub fn complete_acquire(&mut self, init: Result<T, Error>) -> (r: Result<(), Error>)
        ensures
            final(self).stored() == completed(old(self).stored(), init),
            r is Ok <==> (old(self).is_ready() || init is Ok),
            r matches Err(e) ==> init matches Err(e0) && e == e0,
    {
        if self.inner.is_some() {
            return Ok(());
        }
        match init {
            Ok(c) => {
                self.inner = Some(c);
                Ok(())
            },
            Err(e) => Err(e),
        }
    }
}

/// The action an acquisition takes: return the stored client, or run the
/// initializer with a configuration plan built from the supplied base path.
pub enum AcquireStep {
    UseExisting,
    Initialize(ClientConfigPlan),
}

/// Decide what one `acquire` call does. A ready slot is used as it is — the
/// supplied path is ignored, a known limitation of the singleton — and an
/// empty slot asks the host to initialize a client from the returned plan.
pub fn acquire_step<T>(cell: &ClientCell<T>, custom_path: Option<&String>) -> (r: AcquireStep)
    ensures
        cell.is_ready() ==> r == AcquireStep::UseExisting,
        !cell.is_ready() ==> (r matches AcquireStep::Initialize(p) && plan_matches(
            p,
            opt_path_view(custom_path),
        )),
{
    if cell.needs_init() {
        AcquireStep::Initialize(client_config_plan(custom_path))
    } else {
        AcquireStep::UseExisting
    }
}

/// The initializer fills the slot at most once: once a first success has
/// filled it with `c`, every later completed attempt — successful or not —
/// leaves `c` in place.
pub proof fn lemma_first_success_wins<T>(c: T, later: Result<T, Error>)
    ensures
        completed(completed(None::<T>, Ok(c)), later) == Some(c),
{
}

/// The slot state after a whole sequence of completed acquisition attempts,
/// applied in order to a fresh slot.
pub open spec fn completed_all<T>(attempts: Seq<Result<T, Error>>) -> Option<T>
    decreases attempts.len(),
{
    if attempts.len() == 0 {
        None
    } else {
        completed(completed_all(attempts.drop_last()), attempts.last())
    }
}

/// A slot that only ever saw failed attempts is still uninitialized.
pub proof fn lemma_all_failures_leave_empty<T>(attempts: Seq<Result<T, Error>>)
    requires
        forall|j: int| 0 <= j < attempts.len() ==> (#[trigger] attempts[j]) is Err,
    ensures
        completed_all(attempts) is None,
    decreases attempts.len(),
{
    if attempts.len() > 0 {
        assert(forall|j: int|
            0 <= j < attempts.drop_last().len() ==> (#[trigger] attempts.drop_last()[j]) is Err);
        lemma_all_failures_leave_empty(attempts.drop_last());
    }
}

/// Once some sequence of attempts has left the slot holding `c`, any further
/// attempts whatever leave it holding `c`.
pub proof fn lemma_client_identity_stable<T>(
    attempts: Seq<Result<T, Error>>,
    more: Seq<Result<T, Error>>,
    c: T,
)
    requires
        completed_all(attempts) == Some(c),
    ensures
        completed_all(attempts + more) == Some(c),
    decreases more.len(),
{
    if more.len() == 0 {
        assert(attempts + more =~= attempts);
    } else {
        lemma_client_identity_stable(attempts, more.drop_last(), c);
        assert((attempts + more).drop_last() =~= attempts + more.drop_last());
        assert((attempts + more).last() == more.last());
    }
}

/// For any sequence of interleaved acquisitions, the initializer succeeds at
/// most once: the first successful attempt decides the client identity, and
/// every later attempt, successful or failed, observes that same client.
pub proof fn lemma_first_success_decides<T>(attempts: Seq<Result<T, Error>>, i: int)
    requires
        0 <= i < attempts.len(),
        attempts[i] is Ok,
        forall|j: int| 0 <= j < i ==> (#[trigger] attempts[j]) is Err,
    ensures
        completed_all(attempts) == Some(attempts[i]->Ok_0),
{
    let prefix = attempts.take(i + 1);
    assert(forall|j: int| 0 <= j < i ==> (#[trigger] attempts.take(i)[j]) is Err);
    lemma_all_failures_leave_empty(attempts.take(i));
    assert(prefix.drop_last() =~= attempts.take(i));
    assert(prefix.last() == attempts[i]);
    assert(completed_all(prefix) == Some(attempts[i]->Ok_0));
    lemma_client_identity_stable(prefix, attempts.skip(i + 1), attempts[i]->Ok_0);
    assert(prefix + attempts.skip(i + 1) =~= attempts);
}

/// All callers that observe success observe the same client identity.
pub proof fn lemma_observers_agree<T>(cell: &ClientCell<T>, a: T, b: T)
    requires
        cell.sees(a),
        cell.sees(b),
    ensures
        a == b,
{
}

/// A failed first attempt does not poison the slot: the slot stays
/// uninitialized, and a later attempt is free to succeed.
pub proof fn lemma_failed_init_leaves_slot_open<T>(e: Error, c: T)
    ensures
        completed(None::<T>, Err(e)) is None,
        completed(completed(None::<T>, Err(e)), Ok(c)) == Some(c),
{
}

} // verus!
