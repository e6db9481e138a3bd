use vstd::prelude::*;
use crate::failure::{Failure, RemoteError, is_fatal, is_degradation};

verus! {

/// The outcome of one entity's submission.
pub type Outcome = Result<(), RemoteError>;

/// What a batch amounts to after one more outcome, from what it amounted to
/// before.
pub open spec fn status_after(status: Result<nat, RemoteError>, outcome: Outcome) -> Result<nat, RemoteError> {
    match status {
        Err(e) => Err(e),
        Ok(n) => match outcome {
            Ok(_) => Ok(n),
            Err(e) => if is_fatal(e) {
                Err(e)
            } else if is_degradation(e) {
                Ok(n + 1)
            } else {
                Ok(n)
            },
        },
    }
}

/// What a batch amounts to after the given outcomes, in order: the number of
/// possible degradations, or the first fatal error.
pub open spec fn batch_status(outcomes: Seq<Outcome>) -> Result<nat, RemoteError>
    decreases outcomes.len(),
{
    if outcomes.len() == 0 {
        Ok(0)
    } else {
        status_after(batch_status(outcomes.drop_last()), outcomes.last())
    }
}

/// How many of the outcomes are possible degradations.
pub open spec fn degradation_count(outcomes: Seq<Outcome>) -> nat
    decreases outcomes.len(),
{
    if outcomes.len() == 0 {
        0
    } else {
        degradation_count(outcomes.drop_last()) + match outcomes.last() {
            Err(e) => if is_degradation(e) { 1nat } else { 0nat },
            Ok(_) => 0nat,
        }
    }
}

/// Whether the outcome is a fatal failure.
pub open spec fn is_fatal_outcome(outcome: Outcome) -> bool {
    match outcome {
        Err(e) => is_fatal(e),
        Ok(_) => false,
    }
}

/// What a batch runner does next.
#[derive(Debug, Clone, Copy, PartialEq, Eq)]
pub enum Step {
    /// Process the entity at this position of the batch.
    Process(usize),
    /// The batch is over, with this result.
    Done(Result<usize, Failure<RemoteError>>),
}

/// The next step of a batch of `total` entities after these outcomes.
pub open spec fn next_step_of(outcomes: Seq<Outcome>, total: nat) -> Step {
    match batch_status(outcomes) {
        Err(e) => Step::Done(Err(Failure::Fatal(e))),
        Ok(n) => if outcomes.len() < total {
            Step::Process(outcomes.len() as usize)
        } else {
            Step::Done(Ok(n as usize))
        },
    }
}

/// Progress of one batch over its entities, in the order they were processed.
pub struct Batch {
    processed: usize,
    degradations: usize,
    fatal: Option<RemoteError>,
    seen: Ghost<Seq<Outcome>>,
}

impl Batch {
    /// The outcomes recorded so far.
    pub closed spec fn history(&self) -> Seq<Outcome> {
        self.seen@
    }

    pub closed spec fn wf(&self) -> bool {
        &&& self.processed == self.seen@.len()
        &&& self.degradations <= self.seen@.len()
        &&& match batch_status(self.seen@) {
            Ok(n) => self.fatal is None && self.degradations == n,
            Err(e) => self.fatal == Some(e),
        }
    }

    /// A batch before its first entity, with a degradation count of zero.
    pub fn new() -> (r: Batch)
        ensures
            r.wf(),
            r.history() == Seq::<Outcome>::empty(),
            batch_status(r.history()) == Ok::<nat, RemoteError>(0),
    {
        Batch { processed: 0, degradations: 0, fatal: None, seen: Ghost(Seq::empty()) }
    }

    /// Whether the next entity may be processed: no fatal outcome so far.
    pub fn may_continue(&self) -> (r: bool)
        requires
            self.wf(),
        ensures
            r == (batch_status(self.history()) is Ok),
    {
        self.fatal.is_none()
    }

    /// Records the outcome of the next entity's submission.
    pub fn record(&mut self, outcome: Outcome)
        requires
            old(self).wf(),
            batch_status(old(self).history()) is Ok,
            old(self).history().len() < usize::MAX,
        ensures
            final(self).wf(),
            final(self).history() == old(self).history().push(outcome),
            batch_status(final(self).history()) == status_after(batch_status(old(self).history()), outcome),
    {
        let ghost before = self.seen@;
        let ghost after = before.push(outcome);
        assert(after.drop_last() == before);
        match Failure::assess(outcome) {
            Ok(n) => {
                self.degradations = self.degradations + n;
            },
            Err(Failure::Fatal(e)) => {
                self.fatal = Some(e);
            },
            Err(_) => {},
        }
        self.processed = self.processed + 1;
        self.seen = Ghost(after);
    }

    /// Records an entity for which no transaction could be built: it is
    /// passed over like an account that vanished, without counting as a
    /// degradation, and the batch goes on.
    pub fn skip(&mut self)
        requires
            old(self).wf(),
            batch_status(old(self).history()) is Ok,
            old(self).history().len() < usize::MAX,
        ensures
            final(self).wf(),
            final(self).history() == old(self).history().push(Err(RemoteError::AccountNotFound)),
            batch_status(final(self).history()) == batch_status(old(self).history()),
    {
        self.record(Err(RemoteError::AccountNotFound));
    }

    /// The batch's result: its degradation count, or the fatal failure that
    /// ended it.
    pub fn status(&self) -> (r: Result<usize, Failure<RemoteError>>)
        requires
            self.wf(),
        ensures
            match batch_status(self.history()) {
                Ok(n) => r == Ok::<usize, Failure<RemoteError>>(n as usize),
                Err(e) => r == Err::<usize, Failure<RemoteError>>(Failure::Fatal(e)),
            },
    {
        match self.fatal {
            Some(e) => Err(Failure::Fatal(e)),
            None => Ok(self.degradations),
        }
    }
}

impl Batch {
    /// The next step of a batch of `total` entities: the next entity in
    /// order while no outcome was fatal, else the batch's result.
    pub fn next_step(&self, total: usize) -> (r: Step)
        requires
            self.wf(),
        ensures
            r == next_step_of(self.history(), total as nat),
    {
        match self.fatal {
            Some(e) => Step::Done(Err(Failure::Fatal(e))),
            None => if self.processed < total {
                Step::Process(self.processed)
            } else {
                Step::Done(Ok(self.degradations))
            },
        }
    }
}

/// Once a fatal outcome has been recorded, the batch is aborted with that
/// error whatever would have come after it: no later entity is processed.
pub proof fn lemma_fatal_aborts_batch(outcomes: Seq<Outcome>, later: Seq<Outcome>)
    requires
        batch_status(outcomes) is Err,
    ensures
        batch_status(outcomes + later) == batch_status(outcomes),
    decreases later.len(),
{
    if later.len() > 0 {
        let shorter = later.drop_last();
        lemma_fatal_aborts_batch(outcomes, shorter);
        assert((outcomes + later).drop_last() == outcomes + shorter);
    } else {
        assert(outcomes + later == outcomes);
    }
}

/// The batch is aborted exactly when some outcome is fatal, and the error is
/// that of the first fatal outcome.
pub proof fn lemma_first_fatal_decides(outcomes: Seq<Outcome>, i: int, e: RemoteError)
    requires
        0 <= i < outcomes.len(),
        outcomes[i] == Err::<(), RemoteError>(e),
        is_fatal(e),
        forall|j: int| 0 <= j < i ==> !is_fatal_outcome(#[trigger] outcomes[j]),
    ensures
        batch_status(outcomes) == Err::<nat, RemoteError>(e),
    decreases outcomes.len(),
{
    if i < outcomes.len() - 1 {
        lemma_first_fatal_decides(outcomes.drop_last(), i, e);
    } else {
        lemma_no_fatal_counts(outcomes.drop_last());
    }
}

/// A batch whose outcomes hold no fatal one succeeds, with a degradation count
/// equal to the number of possible degradations among them.
pub proof fn lemma_no_fatal_counts(outcomes: Seq<Outcome>)
    requires
        forall|j: int| 0 <= j < outcomes.len() ==> !is_fatal_outcome(#[trigger] outcomes[j]),
    ensures
        batch_status(outcomes) == Ok::<nat, RemoteError>(degradation_count(outcomes)),
    decreases outcomes.len(),
{
    if outcomes.len() > 0 {
        let shorter = outcomes.drop_last();
        assert forall|j: int| 0 <= j < shorter.len() implies !is_fatal_outcome(#[trigger] shorter[j]) by {
            assert(shorter[j] == outcomes[j]);
        }
        lemma_no_fatal_counts(shorter);
        assert(outcomes.last() == outcomes[outcomes.len() - 1]);
    }
}

/// After a fatal outcome the runner is told that the batch is over, with
/// that failure, however many entities remain.
pub proof fn lemma_fatal_ends_batch(outcomes: Seq<Outcome>, total: nat)
    requires
        outcomes.len() > 0,
        is_fatal_outcome(outcomes.last()),
        forall|j: int| 0 <= j < outcomes.len() - 1 ==> !is_fatal_outcome(#[trigger] outcomes[j]),
    ensures
        next_step_of(outcomes, total) == Step::Done(Err(Failure::Fatal(outcomes.last()->Err_0))),
{
    let i = outcomes.len() - 1;
    assert(outcomes.last() == outcomes[i]);
    lemma_first_fatal_decides(outcomes, i, outcomes.last()->Err_0);
}

/// A batch whose entities all came back without a fatal outcome ends in
/// success, with the number of possible degradations as its count.
pub proof fn lemma_batch_without_fatal_succeeds(outcomes: Seq<Outcome>)
    requires
        forall|j: int| 0 <= j < outcomes.len() ==> !is_fatal_outcome(#[trigger] outcomes[j]),
    ensures
        next_step_of(outcomes, outcomes.len()) == Step::Done(Ok(degradation_count(outcomes) as usize)),
{
    lemma_no_fatal_counts(outcomes);
}

} // verus!
