//! The queue of detected critical issues that wait for a safe moment.
//!
//! A unit is queued at most once. The queue is released as a whole, oldest
//! entry first, and only in a graphical session with high confidence.

use vstd::prelude::*;
use vstd::string::*;
use std::time::Instant;
use crate::classifier::Detection;
use crate::confidence::Confidence;
use crate::state::BootContext;
use crate::text::str_eq;

verus! {

/// `std::time::Instant`, a reading of the monotonic clock. Its inside stays
/// hidden.
#[verifier::external_type_specification]
#[verifier::external_body]
pub struct ExInstant(Instant);

/// `Instant` is `Copy`: its clone is the same reading.
pub assume_specification[ <Instant as Clone>::clone ](t: &Instant) -> (r: Instant)
    ensures
        r == *t,
;

/// Wraps `Instant::now`. Nothing is claimed about the reading.
#[verifier::external_body]
fn instant_now() -> (t: Instant) {
    Instant::now()
}

/// A remediation that was detected and put off.
#[derive(Debug, Clone)]
pub struct DeferredHealAction {
    pub unit: String,
    pub reason: String,
    pub created_at: Instant,
}

/// The pending actions, oldest first.
#[derive(Debug)]
pub struct DeferredHealQueue {
    actions: Vec<DeferredHealAction>,
}

/// Whether the queue may be released: only in a graphical session and with
/// high confidence.
pub open spec fn release_ready(boot_context: BootContext, confidence: Confidence) -> bool {
    boot_context == BootContext::Graphical && confidence == Confidence::High
}

/// Whether some pending action is for the unit.
pub open spec fn is_queued(pending: Seq<DeferredHealAction>, unit: Seq<char>) -> bool {
    exists|i: int| 0 <= i < pending.len() && (#[trigger] pending[i]).unit@ == unit
}

/// No unit has two pending actions.
pub open spec fn units_distinct(pending: Seq<DeferredHealAction>) -> bool {
    forall|i: int, j: int|
        0 <= i < j < pending.len() ==> (#[trigger] pending[i]).unit@ != (#[trigger] pending[j]).unit@
}

/// The pending actions after a detection made at `created_at` is offered:
/// as before where the unit is queued already, else with one action more at
/// the end.
pub open spec fn enqueued(
    pending: Seq<DeferredHealAction>,
    detection: Detection,
    created_at: Instant,
) -> Seq<DeferredHealAction> {
    if is_queued(pending, detection.unit@) {
        pending
    } else {
        pending.push(
            DeferredHealAction { unit: detection.unit, reason: detection.reason, created_at },
        )
    }
}

impl DeferredHealQueue {
    /// A unit is queued at most once.
    #[verifier::type_invariant]
    spec fn one_action_per_unit(self) -> bool {
        units_distinct(self.actions@)
    }

    /// The pending actions, oldest first.
    pub closed spec fn pending(&self) -> Seq<DeferredHealAction> {
        self.actions@
    }

    /// An empty queue.
    pub fn new() -> (queue: DeferredHealQueue)
        ensures
            queue.pending() == Seq::<DeferredHealAction>::empty(),
    {
        DeferredHealQueue { actions: Vec::new() }
    }

    /// The number of pending actions.
    pub fn len(&self) -> (n: usize)
        ensures
            n == self.pending().len(),
            units_distinct(self.pending()),
    {
        proof {
            use_type_invariant(self);
        }
        self.actions.len()
    }

    /// Whether nothing is pending.
    pub fn is_empty(&self) -> (empty: bool)
        ensures
            empty == (self.pending().len() == 0),
    {
        self.actions.len() == 0
    }

    /// Whether an action for the unit is pending.
    pub fn contains_unit(&self, unit: &str) -> (queued: bool)
        ensures
            queued == is_queued(self.pending(), unit@),
    {
        let mut i: usize = 0;
        while i < self.actions.len()
            invariant
                i <= self.actions.len(),
                forall|j: int| 0 <= j < i ==> (#[trigger] self.actions@[j]).unit@ != unit@,
            decreases self.actions.len() - i,
        {
            if str_eq(self.actions[i].unit.as_str(), unit) {
                return true;
            }
            i = i + 1;
        }
        false
    }

    /// Queues an action for the detection, created at `created_at`, unless
    /// one for the same unit is pending.
    pub fn enqueue_at(&mut self, detection: &Detection, created_at: Instant)
        ensures
            final(self).pending() == enqueued(old(self).pending(), *detection, created_at),
            units_distinct(final(self).pending()),
    {
        proof {
            use_type_invariant(&*self);
        }
        if self.contains_unit(detection.unit.as_str()) {
            return ;
        }
        let mut actions: Vec<DeferredHealAction> = Vec::new();
        std::mem::swap(&mut actions, &mut self.actions);
        actions.push(
            DeferredHealAction {
                unit: detection.unit.clone(),
                reason: detection.reason.clone(),
                created_at,
            },
        );
        self.actions = actions;
    }

    /// Queues an action for the detection unless one for the same unit is
    /// pending. A new action is stamped with the current reading of the
    /// monotonic clock.
    pub fn enqueue(&mut self, detection: &Detection)
        ensures
            exists|created_at: Instant|
                final(self).pending() == #[trigger] enqueued(
                    old(self).pending(),
                    *detection,
                    created_at,
                ),
            is_queued(final(self).pending(), detection.unit@),
            final(self).pending().len() == if is_queued(old(self).pending(), detection.unit@) {
                old(self).pending().len()
            } else {
                old(self).pending().len() + 1
            },
            units_distinct(final(self).pending()),
    {
        let created_at = instant_now();
        self.enqueue_at(detection, created_at);
        proof {
            let after = self.pending();
            if !is_queued(old(self).pending(), detection.unit@) {
                assert(after[after.len() - 1].unit@ == detection.unit@);
            }
        }
    }

    /// Takes every pending action out of the queue, oldest first, where the
    /// release is ready; where it is not, takes nothing and keeps the queue.
    pub fn drain_ready(&mut self, boot_context: BootContext, confidence: Confidence) -> (released:
        Vec<DeferredHealAction>)
        ensures
            release_ready(boot_context, confidence) ==> released@ == old(self).pending()
                && final(self).pending() == Seq::<DeferredHealAction>::empty(),
            !release_ready(boot_context, confidence) ==> released@ == Seq::<
                DeferredHealAction,
            >::empty() && final(self).pending() == old(self).pending(),
    {
        let mut released: Vec<DeferredHealAction> = Vec::new();
        if boot_context != BootContext::Graphical {
            return released;
        }
        if confidence != Confidence::High {
            return released;
        }
        std::mem::swap(&mut released, &mut self.actions);
        released
    }

    /// Releases the queue to `exec` where the release is ready: every
    /// pending action is handed to `exec`, oldest first, and the queue is
    /// left empty. Where the release is not ready, `exec` is not called and
    /// the queue stays as it is.
    pub fn try_execute<F: FnMut(&DeferredHealAction)>(
        &mut self,
        boot_context: BootContext,
        confidence: Confidence,
        mut exec: F,
    )
        requires
            release_ready(boot_context, confidence) ==> forall|i: int|
                0 <= i < old(self).pending().len() ==> call_requires(
                    exec,
                    (&#[trigger] old(self).pending()[i],),
                ),
        ensures
            release_ready(boot_context, confidence) ==> final(self).pending() == Seq::<
                DeferredHealAction,
            >::empty(),
            release_ready(boot_context, confidence) ==> forall|i: int|
                0 <= i < old(self).pending().len() ==> call_ensures(
                    exec,
                    (&#[trigger] old(self).pending()[i],),
                    (),
                ),
            !release_ready(boot_context, confidence) ==> final(self).pending() == old(
                self,
            ).pending(),
    {
        broadcast use vstd::function::group_function_axioms;

        let ghost given = exec;
        let released = self.drain_ready(boot_context, confidence);
        let mut i: usize = 0;
        while i < released.len()
            invariant
                i <= released.len(),
                exec == given,
                forall|j: int|
                    0 <= j < released@.len() ==> call_requires(exec, (&#[trigger] released@[j],)),
                forall|j: int| 0 <= j < i ==> call_ensures(exec, (&#[trigger] released@[j],), ()),
            decreases released.len() - i,
        {
            exec(&released[i]);
            i = i + 1;
        }
    }

    /// Discards every pending action.
    pub fn clear(&mut self)
        ensures
            final(self).pending() == Seq::<DeferredHealAction>::empty(),
    {
        self.actions = Vec::new();
    }
}

impl Default for DeferredHealQueue {
    fn default() -> (queue: DeferredHealQueue)
        ensures
            queue.pending() == Seq::<DeferredHealAction>::empty(),
    {
        DeferredHealQueue::new()
    }
}

/// Offering a second detection for a unit that the first one queued leaves
/// the queue as the first one left it: a unit has one pending action.
pub proof fn lemma_enqueue_twice_once(
    pending: Seq<DeferredHealAction>,
    first: Detection,
    second: Detection,
    first_at: Instant,
    second_at: Instant,
)
    requires
        first.unit@ == second.unit@,
    ensures
        enqueued(enqueued(pending, first, first_at), second, second_at) == enqueued(
            pending,
            first,
            first_at,
        ),
        pending.len() == 0 ==> enqueued(enqueued(pending, first, first_at), second, second_at).len()
            == 1,
{
    let once = enqueued(pending, first, first_at);
    if !is_queued(pending, first.unit@) {
        assert(once[once.len() - 1].unit@ == second.unit@);
    }
    assert(is_queued(once, second.unit@));
}

/// With medium confidence, and also in a multi-user session, the release is
/// not ready.
pub proof fn lemma_release_needs_graphical_and_high(
    boot_context: BootContext,
    confidence: Confidence,
)
    requires
        confidence != Confidence::High || boot_context != BootContext::Graphical,
    ensures
        !release_ready(boot_context, confidence),
{
}

} // verus!
