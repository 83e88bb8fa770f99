use vstd::prelude::*;

verus! {

/// Fewest modules the contract's account must hold for the contract to count as deployed.
pub const MIN_DEPLOYED_MODULES: usize = 2;

/// One transaction of a relay run.
#[derive(Debug, Clone, Copy, PartialEq, Eq)]
pub enum RelayStep {
    /// The contract's one-time initialization.
    Initialize,
    /// Relaying one payload.
    ProcessPayload,
}

/// The transactions of one run, in order.
pub open spec fn relay_steps(initialize: bool) -> Seq<RelayStep> {
    if initialize {
        seq![RelayStep::Initialize, RelayStep::ProcessPayload]
    } else {
        seq![RelayStep::ProcessPayload]
    }
}

/// The transactions of one run: the payload is always relayed, and the contract is
/// initialized first when that was asked for.
pub fn relay_plan(initialize: bool) -> (r: Vec<RelayStep>)
    ensures
        r@ == relay_steps(initialize),
{
    let mut steps: Vec<RelayStep> = Vec::new();
    if initialize {
        steps.push(RelayStep::Initialize);
    }
    steps.push(RelayStep::ProcessPayload);
    assert(steps@ =~= relay_steps(initialize));
    steps
}

/// Whether an account holding `module_count` modules has the contract deployed.
pub fn contract_deployed(module_count: usize) -> (r: bool)
    ensures
        r == (module_count >= MIN_DEPLOYED_MODULES),
{
    module_count >= MIN_DEPLOYED_MODULES
}

} // verus!
