use aptos_relayer::builder::RelayerConfig;
use aptos_relayer::plan::{contract_deployed, relay_plan, RelayStep};
use aptos_relayer::relayer::AptosRelayer;
use aptos_relayer::source::{payload_from_tool_output, payload_tool_args, SourceError};
use aptos_relayer::submit::{simulation_outcome, Phase, Submission, SubmitAction, SubmitError, SubmitEvent};

/// A node double: hands out increasing sequence numbers and records what it was asked.
struct FakeNode {
    next_sequence_number: u64,
    simulation_passes: bool,
    signed_with: Vec<u64>,
    submitted: usize,
}

fn drive(node: &mut FakeNode, mut sub: Submission, mut action: SubmitAction) -> SubmitAction {
    loop {
        let event = match action {
            SubmitAction::FetchSequenceNumber => {
                let n = node.next_sequence_number;
                SubmitEvent::SequenceNumber(n)
            }
            SubmitAction::Sign(n) => {
                node.signed_with.push(n);
                SubmitEvent::Signed
            }
            SubmitAction::Simulate => {
                if node.simulation_passes {
                    SubmitEvent::SimulationPassed
                } else {
                    SubmitEvent::SimulationFailed
                }
            }
            SubmitAction::Submit => {
                node.submitted += 1;
                node.next_sequence_number += 1;
                SubmitEvent::Submitted
            }
            SubmitAction::Finish | SubmitAction::Abort(_) => return action,
        };
        action = sub.step(event);
    }
}

fn relayer() -> AptosRelayer {
    AptosRelayer::new([1u8; 32], RelayerConfig::new([7u8; 32], "main", "process_redstone_payload").unwrap())
}

#[test]
fn each_submission_fetches_a_fresh_sequence_number() {
    let mut node = FakeNode { next_sequence_number: 7, simulation_passes: true, signed_with: vec![], submitted: 0 };
    let r = relayer();
    let (_, s, a) = r.process_redstone_payload(vec![1], vec![2]).unwrap();
    assert_eq!(drive(&mut node, s, a), SubmitAction::Finish);
    let (_, s, a) = r.process_redstone_payload(vec![1], vec![3]).unwrap();
    assert_eq!(drive(&mut node, s, a), SubmitAction::Finish);
    assert_eq!(node.signed_with, vec![7, 8]);
    assert_eq!(node.submitted, 2);
}

#[test]
fn failed_simulation_prevents_submission() {
    let mut node = FakeNode { next_sequence_number: 1, simulation_passes: false, signed_with: vec![], submitted: 0 };
    let (_, s, a) = relayer().process_redstone_payload(vec![1], vec![2]).unwrap();
    assert_eq!(drive(&mut node, s, a), SubmitAction::Abort(SubmitError::SimulationFailed));
    assert_eq!(node.submitted, 0);
}

#[test]
fn submission_steps_in_order() {
    let (mut s, a) = Submission::new(true);
    assert_eq!(a, SubmitAction::FetchSequenceNumber);
    assert_eq!(s.step(SubmitEvent::SequenceNumber(5)), SubmitAction::Sign(5));
    assert_eq!(s.phase, Phase::AwaitingSignature(5));
    assert_eq!(s.step(SubmitEvent::Signed), SubmitAction::Simulate);
    assert_eq!(s.step(SubmitEvent::SimulationPassed), SubmitAction::Submit);
    assert_eq!(s.step(SubmitEvent::Submitted), SubmitAction::Finish);
    assert_eq!(s.phase, Phase::Done);
}

#[test]
fn submission_without_simulation_submits_after_signing() {
    let (mut s, _) = Submission::new(false);
    s.step(SubmitEvent::SequenceNumber(0));
    assert_eq!(s.step(SubmitEvent::Signed), SubmitAction::Submit);
}

#[test]
fn submission_errors_abort() {
    let (mut s, _) = Submission::new(true);
    assert_eq!(s.step(SubmitEvent::FetchFailed), SubmitAction::Abort(SubmitError::SequenceNumberUnavailable));
    assert_eq!(s.phase, Phase::Failed);
    let (mut s, _) = Submission::new(false);
    s.step(SubmitEvent::SequenceNumber(3));
    s.step(SubmitEvent::Signed);
    assert_eq!(s.step(SubmitEvent::SubmitFailed), SubmitAction::Abort(SubmitError::SubmissionFailed));
    let (mut s, _) = Submission::new(true);
    assert_eq!(s.step(SubmitEvent::Signed), SubmitAction::Abort(SubmitError::UnexpectedEvent));
    assert_eq!(s.step(SubmitEvent::SequenceNumber(1)), SubmitAction::Abort(SubmitError::UnexpectedEvent));
}

#[test]
fn failing_tool_is_reported_without_reading_output() {
    let r = payload_from_tool_output(false, "[1,2,3]", "boom");
    assert_eq!(r, Err(SourceError::ToolFailed("boom".to_string())));
}

#[test]
fn malformed_tool_output_is_a_parse_error() {
    assert_eq!(payload_from_tool_output(true, "[1,2", ""), Err(SourceError::MalformedOutput));
    assert_eq!(payload_from_tool_output(true, "[256]", ""), Err(SourceError::MalformedOutput));
    assert_eq!(payload_from_tool_output(true, "not json", ""), Err(SourceError::MalformedOutput));
}

#[test]
fn tool_output_array_gives_its_bytes() {
    assert_eq!(payload_from_tool_output(true, "[1,2,3]", ""), Ok(vec![1, 2, 3]));
    assert_eq!(payload_from_tool_output(true, " [ ]\n", ""), Ok(vec![]));
}

#[test]
fn tool_is_run_with_symbol_signers_and_binary_mode() {
    assert_eq!(payload_tool_args("BTC"), vec!["BTC", "-s", "3", "-b"]);
}

#[test]
fn plan_without_initialize_flag_only_relays() {
    assert_eq!(relay_plan(false), vec![RelayStep::ProcessPayload]);
}

#[test]
fn plan_with_initialize_flag_initializes_first() {
    assert_eq!(relay_plan(true), vec![RelayStep::Initialize, RelayStep::ProcessPayload]);
    let mut node = FakeNode { next_sequence_number: 10, simulation_passes: true, signed_with: vec![], submitted: 0 };
    let r = relayer();
    let init = aptos_relayer::builder::InitializeParams::with_defaults(vec![vec![1u8; 20]]);
    let (_, s, a) = r.initialize(&init).unwrap();
    assert_eq!(drive(&mut node, s, a), SubmitAction::Finish);
    let (_, s, a) = r.process_redstone_payload(vec![1], vec![2]).unwrap();
    assert_eq!(drive(&mut node, s, a), SubmitAction::Finish);
    assert_eq!(node.signed_with, vec![10, 11]);
}

#[test]
fn contract_counts_as_deployed_from_two_modules() {
    assert!(!contract_deployed(0));
    assert!(!contract_deployed(1));
    assert!(contract_deployed(2));
}

#[test]
fn simulation_passes_only_on_reported_success() {
    assert_eq!(simulation_outcome(true, Some(true)), SubmitEvent::SimulationPassed);
    assert_eq!(simulation_outcome(true, Some(false)), SubmitEvent::SimulationFailed);
    assert_eq!(simulation_outcome(true, None), SubmitEvent::SimulationFailed);
    assert_eq!(simulation_outcome(false, Some(true)), SubmitEvent::SimulationFailed);
}
