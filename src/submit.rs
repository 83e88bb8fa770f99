use vstd::prelude::*;

verus! {

/// Where a submission stands.
#[derive(Debug, Clone, Copy, PartialEq, Eq)]
pub enum Phase {
    /// Waiting for the account's current sequence number.
    AwaitingSequenceNumber,
    /// Waiting for the transaction carrying this sequence number to be signed.
    AwaitingSignature(u64),
    /// Waiting for the node's dry run of the signed transaction.
    AwaitingSimulation,
    /// Waiting for the node to accept the signed transaction.
    AwaitingSubmission,
    /// The transaction was submitted.
    Done,
    /// The submission was abandoned.
    Failed,
}

/// What the node or the signer reported back.
#[derive(Debug, Clone, Copy, PartialEq, Eq)]
pub enum SubmitEvent {
    /// The account's current sequence number.
    SequenceNumber(u64),
    /// The sequence number could not be fetched.
    FetchFailed,
    /// The transaction was signed.
    Signed,
    /// The dry run succeeded.
    SimulationPassed,
    /// The dry run reported that the transaction would fail.
    SimulationFailed,
    /// The node accepted the transaction.
    Submitted,
    /// The node refused the transaction, or could not be reached.
    SubmitFailed,
}

/// Why a submission was abandoned.
#[derive(Debug, Clone, Copy, PartialEq, Eq)]
pub enum SubmitError {
    SequenceNumberUnavailable,
    SimulationFailed,
    SubmissionFailed,
    /// An event came that the current phase does not expect.
    UnexpectedEvent,
}

/// What the caller must do next.
#[derive(Debug, Clone, Copy, PartialEq, Eq)]
pub enum SubmitAction {
    /// Fetch the account's current sequence number.
    FetchSequenceNumber,
    /// Build and sign the transaction with this sequence number.
    Sign(u64),
    /// Ask the node to dry-run the signed transaction.
    Simulate,
    /// Submit the signed transaction.
    Submit,
    /// Report the submitted transaction; nothing is left to do.
    Finish,
    /// Stop and report the error.
    Abort(SubmitError),
}

/// One transaction's way from a built payload to the node.
#[derive(Debug, Clone, Copy, PartialEq, Eq)]
pub struct Submission {
    pub phase: Phase,
    /// Whether the transaction is dry-run before it is submitted.
    pub simulate: bool,
}

/// The phase after `event` in `phase`, and the action it calls for.
pub open spec fn next(phase: Phase, simulate: bool, event: SubmitEvent) -> (Phase, SubmitAction) {
    match (phase, event) {
        (Phase::AwaitingSequenceNumber, SubmitEvent::SequenceNumber(n)) => (
            Phase::AwaitingSignature(n),
            SubmitAction::Sign(n),
        ),
        (Phase::AwaitingSequenceNumber, SubmitEvent::FetchFailed) => (
            Phase::Failed,
            SubmitAction::Abort(SubmitError::SequenceNumberUnavailable),
        ),
        (Phase::AwaitingSignature(_), SubmitEvent::Signed) => if simulate {
            (Phase::AwaitingSimulation, SubmitAction::Simulate)
        } else {
            (Phase::AwaitingSubmission, SubmitAction::Submit)
        },
        (Phase::AwaitingSimulation, SubmitEvent::SimulationPassed) => (
            Phase::AwaitingSubmission,
            SubmitAction::Submit,
        ),
        (Phase::AwaitingSimulation, SubmitEvent::SimulationFailed) => (
            Phase::Failed,
            SubmitAction::Abort(SubmitError::SimulationFailed),
        ),
        (Phase::AwaitingSubmission, SubmitEvent::Submitted) => (Phase::Done, SubmitAction::Finish),
        (Phase::AwaitingSubmission, SubmitEvent::SubmitFailed) => (
            Phase::Failed,
            SubmitAction::Abort(SubmitError::SubmissionFailed),
        ),
        _ => (Phase::Failed, SubmitAction::Abort(SubmitError::UnexpectedEvent)),
    }
}

/// The actions called for when `events` come one after another, starting in `phase`.
pub open spec fn run(phase: Phase, simulate: bool, events: Seq<SubmitEvent>) -> Seq<SubmitAction>
    decreases events.len(),
{
    if events.len() == 0 {
        seq![]
    } else {
        let (p, a) = next(phase, simulate, events[0]);
        seq![a] + run(p, simulate, events.drop_first())
    }
}

/// The event a dry run amounts to: it passed only when the node answered and reported
/// success.
pub fn simulation_outcome(answered: bool, success: Option<bool>) -> (r: SubmitEvent)
    ensures
        r == (if answered && success == Some(true) {
            SubmitEvent::SimulationPassed
        } else {
            SubmitEvent::SimulationFailed
        }),
{
    match (answered, success) {
        (true, Some(true)) => SubmitEvent::SimulationPassed,
        _ => SubmitEvent::SimulationFailed,
    }
}

impl Submission {
    /// A new submission, and its first action: fetch the sequence number.
    pub fn new(simulate: bool) -> (r: (Submission, SubmitAction))
        ensures
            r.0.phase == Phase::AwaitingSequenceNumber,
            r.0.simulate == simulate,
            r.1 == SubmitAction::FetchSequenceNumber,
    {
        (Submission { phase: Phase::AwaitingSequenceNumber, simulate }, SubmitAction::FetchSequenceNumber)
    }

    /// Takes in what the node or signer reported, and says what to do next.
    pub fn step(&mut self, event: SubmitEvent) -> (r: SubmitAction)
        ensures
            final(self).simulate == old(self).simulate,
            (final(self).phase, r) == next(old(self).phase, old(self).simulate, event),
    {
        let (phase, action) = match (self.phase, event) {
            (Phase::AwaitingSequenceNumber, SubmitEvent::SequenceNumber(n)) => (
                Phase::AwaitingSignature(n),
                SubmitAction::Sign(n),
            ),
            (Phase::AwaitingSequenceNumber, SubmitEvent::FetchFailed) => (
                Phase::Failed,
                SubmitAction::Abort(SubmitError::SequenceNumberUnavailable),
            ),
            (Phase::AwaitingSignature(_), SubmitEvent::Signed) => if self.simulate {
                (Phase::AwaitingSimulation, SubmitAction::Simulate)
            } else {
                (Phase::AwaitingSubmission, SubmitAction::Submit)
            },
            (Phase::AwaitingSimulation, SubmitEvent::SimulationPassed) => (
                Phase::AwaitingSubmission,
                SubmitAction::Submit,
            ),
            (Phase::AwaitingSimulation, SubmitEvent::SimulationFailed) => (
                Phase::Failed,
                SubmitAction::Abort(SubmitError::SimulationFailed),
            ),
            (Phase::AwaitingSubmission, SubmitEvent::Submitted) => (
                Phase::Done,
                SubmitAction::Finish,
            ),
            (Phase::AwaitingSubmission, SubmitEvent::SubmitFailed) => (
                Phase::Failed,
                SubmitAction::Abort(SubmitError::SubmissionFailed),
            ),
            _ => (Phase::Failed, SubmitAction::Abort(SubmitError::UnexpectedEvent)),
        };
        self.phase = phase;
        action
    }
}

proof fn lemma_run_len(phase: Phase, simulate: bool, events: Seq<SubmitEvent>)
    ensures
        run(phase, simulate, events).len() == events.len(),
    decreases events.len(),
{
    if events.len() > 0 {
        lemma_run_len(next(phase, simulate, events[0]).0, simulate, events.drop_first());
    }
}

proof fn lemma_no_sign_after_start(phase: Phase, simulate: bool, events: Seq<SubmitEvent>)
    requires
        phase != Phase::AwaitingSequenceNumber,
    ensures
        forall|i: int| 0 <= i < events.len() ==> !(#[trigger] run(phase, simulate, events)[i] is Sign),
    decreases events.len(),
{
    if events.len() > 0 {
        let p = next(phase, simulate, events[0]).0;
        lemma_no_sign_after_start(p, simulate, events.drop_first());
        lemma_run_len(p, simulate, events.drop_first());
        assert forall|i: int| 0 <= i < events.len() implies !(#[trigger] run(
            phase,
            simulate,
            events,
        )[i] is Sign) by {
            if i > 0 {
                assert(run(phase, simulate, events)[i] == run(p, simulate, events.drop_first())[i
                    - 1]);
            }
        }
    }
}

proof fn lemma_failed_is_final(simulate: bool, events: Seq<SubmitEvent>)
    ensures
        forall|i: int|
            0 <= i < events.len() ==> #[trigger] run(Phase::Failed, simulate, events)[i]
                == SubmitAction::Abort(SubmitError::UnexpectedEvent),
    decreases events.len(),
{
    if events.len() > 0 {
        lemma_failed_is_final(simulate, events.drop_first());
        lemma_run_len(Phase::Failed, simulate, events.drop_first());
        assert forall|i: int| 0 <= i < events.len() implies #[trigger] run(
            Phase::Failed,
            simulate,
            events,
        )[i] == SubmitAction::Abort(SubmitError::UnexpectedEvent) by {
            if i > 0 {
                assert(run(Phase::Failed, simulate, events)[i] == run(
                    Phase::Failed,
                    simulate,
                    events.drop_first(),
                )[i - 1]);
            }
        }
    }
}

proof fn lemma_nothing_after_abort(phase: Phase, simulate: bool, events: Seq<SubmitEvent>)
    ensures
        forall|i: int, j: int|
            0 <= i < j < events.len() && (#[trigger] run(phase, simulate, events)[i] is Abort)
                ==> #[trigger] run(phase, simulate, events)[j] == SubmitAction::Abort(
                SubmitError::UnexpectedEvent,
            ),
    decreases events.len(),
{
    if events.len() > 0 {
        let p = next(phase, simulate, events[0]).0;
        let rest = events.drop_first();
        lemma_nothing_after_abort(p, simulate, rest);
        lemma_run_len(p, simulate, rest);
        lemma_failed_is_final(simulate, rest);
        assert forall|i: int, j: int|
            0 <= i < j < events.len() && (#[trigger] run(phase, simulate, events)[i] is Abort)
                implies #[trigger] run(phase, simulate, events)[j] == SubmitAction::Abort(
            SubmitError::UnexpectedEvent,
        ) by {
            assert(run(phase, simulate, events)[j] == run(p, simulate, rest)[j - 1]);
            if i > 0 {
                assert(run(phase, simulate, events)[i] == run(p, simulate, rest)[i - 1]);
            }
        }
    }
}

proof fn lemma_submit_follows_simulation(phase: Phase, events: Seq<SubmitEvent>)
    ensures
        forall|j: int|
            0 <= j < events.len() && #[trigger] run(phase, true, events)[j] == SubmitAction::Submit
                ==> events[j] == SubmitEvent::SimulationPassed,
    decreases events.len(),
{
    if events.len() > 0 {
        let p = next(phase, true, events[0]).0;
        let rest = events.drop_first();
        lemma_submit_follows_simulation(p, rest);
        lemma_run_len(p, true, rest);
        assert forall|j: int|
            0 <= j < events.len() && #[trigger] run(phase, true, events)[j]
                == SubmitAction::Submit implies events[j] == SubmitEvent::SimulationPassed by {
            if j > 0 {
                assert(run(phase, true, events)[j] == run(p, true, rest)[j - 1]);
                assert(events[j] == rest[j - 1]);
            }
        }
    }
}

/// A submission signs at most once, as the very next step after the sequence number came
/// back, and with exactly that number: the number is fetched fresh for each submission and
/// never reused.
pub proof fn lemma_sign_uses_fetched_sequence_number(simulate: bool, events: Seq<SubmitEvent>)
    ensures
        run(Phase::AwaitingSequenceNumber, simulate, events).len() == events.len(),
        forall|i: int|
            0 <= i < events.len() && (#[trigger] run(
                Phase::AwaitingSequenceNumber,
                simulate,
                events,
            )[i] is Sign) ==> i == 0 && events[0] == SubmitEvent::SequenceNumber(
                run(Phase::AwaitingSequenceNumber, simulate, events)[i]->Sign_0,
            ),
{
    lemma_run_len(Phase::AwaitingSequenceNumber, simulate, events);
    if events.len() > 0 {
        let p = next(Phase::AwaitingSequenceNumber, simulate, events[0]).0;
        let rest = events.drop_first();
        lemma_no_sign_after_start(p, simulate, rest);
        lemma_run_len(p, simulate, rest);
        assert forall|i: int|
            0 <= i < events.len() && (#[trigger] run(
                Phase::AwaitingSequenceNumber,
                simulate,
                events,
            )[i] is Sign) implies i == 0 && events[0] == SubmitEvent::SequenceNumber(
            run(Phase::AwaitingSequenceNumber, simulate, events)[i]->Sign_0,
        ) by {
            if i > 0 {
                assert(run(Phase::AwaitingSequenceNumber, simulate, events)[i] == run(
                    p,
                    simulate,
                    rest,
                )[i - 1]);
            }
        }
    }
}

/// With simulation requested, the transaction is submitted only in answer to a passed dry
/// run, and once a dry run has failed nothing is ever submitted.
pub proof fn lemma_failed_simulation_blocks_submission(events: Seq<SubmitEvent>)
    ensures
        forall|j: int|
            0 <= j < events.len() && #[trigger] run(Phase::AwaitingSequenceNumber, true, events)[j]
                == SubmitAction::Submit ==> events[j] == SubmitEvent::SimulationPassed,
        forall|i: int, j: int|
            0 <= i < j < events.len() && #[trigger] run(Phase::AwaitingSequenceNumber, true, events)[i]
                == SubmitAction::Abort(SubmitError::SimulationFailed) ==> #[trigger] run(
                Phase::AwaitingSequenceNumber,
                true,
                events,
            )[j] != SubmitAction::Submit,
{
    lemma_submit_follows_simulation(Phase::AwaitingSequenceNumber, events);
    lemma_nothing_after_abort(Phase::AwaitingSequenceNumber, true, events);
}

} // verus!
