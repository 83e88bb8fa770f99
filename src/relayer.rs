use vstd::prelude::*;

use crate::builder::{
    initialize_args, make_initialize_call, make_process_payload_call, process_payload_args,
    signers_encodable, BuildError, EntryFunctionCall, InitializeParams, RelayerConfig,
};
use crate::encoding::MAX_SEQUENCE_LENGTH;
use crate::submit::{Phase, Submission, SubmitAction};

verus! {

/// Default chain the relayer submits to.
pub const DEFAULT_CHAIN_ID: u8 = 177;

/// Default price of one unit of gas.
pub const DEFAULT_GAS_UNIT_PRICE: u64 = 100;

/// Default most gas one transaction may use.
pub const DEFAULT_MAX_GAS_AMOUNT: u64 = 10000;

/// Fee and chain settings stamped on every transaction.
#[derive(Debug, Clone, Copy, PartialEq, Eq)]
pub struct TransactionParams {
    pub chain_id: u8,
    pub gas_unit_price: u64,
    pub max_gas_amount: u64,
}

impl TransactionParams {
    /// Chain 177, a gas unit price of 100 and at most 10000 units of gas.
    pub fn defaults() -> (r: TransactionParams)
        ensures
            r.chain_id == DEFAULT_CHAIN_ID,
            r.gas_unit_price == DEFAULT_GAS_UNIT_PRICE,
            r.max_gas_amount == DEFAULT_MAX_GAS_AMOUNT,
    {
        TransactionParams {
            chain_id: DEFAULT_CHAIN_ID,
            gas_unit_price: DEFAULT_GAS_UNIT_PRICE,
            max_gas_amount: DEFAULT_MAX_GAS_AMOUNT,
        }
    }
}

/// A transaction ready to be signed.
#[derive(Debug)]
pub struct RawTransaction {
    pub sender: [u8; 32],
    pub sequence_number: u64,
    pub call: EntryFunctionCall,
    pub params: TransactionParams,
}

/// Relays payloads from one account to one configured entry point.
#[derive(Debug)]
pub struct AptosRelayer {
    /// Address of the signing account.
    pub sender: [u8; 32],
    pub config: RelayerConfig,
    pub params: TransactionParams,
}

impl AptosRelayer {
    /// A relayer for the account at `sender`, with the default fee settings.
    pub fn new(sender: [u8; 32], config: RelayerConfig) -> (r: AptosRelayer)
        ensures
            r.sender == sender,
            r.config == config,
            r.params.chain_id == DEFAULT_CHAIN_ID,
            r.params.gas_unit_price == DEFAULT_GAS_UNIT_PRICE,
            r.params.max_gas_amount == DEFAULT_MAX_GAS_AMOUNT,
    {
        AptosRelayer { sender, config, params: TransactionParams::defaults() }
    }

    /// The call that relays `payload` for the feed `feed_id`.
    pub fn make_process_redstone_payload_tx(&self, feed_id: Vec<u8>, payload: Vec<u8>) -> (r: Result<
        EntryFunctionCall,
        BuildError,
    >)
        ensures
            r is Ok <==> feed_id@.len() <= MAX_SEQUENCE_LENGTH && payload@.len()
                <= MAX_SEQUENCE_LENGTH,
            r is Ok ==> ({
                let c = r->Ok_0;
                &&& c.module.address == self.config.module.address
                &&& c.module.name@ == self.config.module.name@
                &&& c.function@ == self.config.function@
                &&& c.args.deep_view() == process_payload_args(feed_id@, payload@)
            }),
            r is Err ==> r == Err::<EntryFunctionCall, BuildError>(BuildError::ArgumentTooLong),
    {
        make_process_payload_call(&self.config, feed_id, payload)
    }

    /// The one-time `initialize` call, on the configured module.
    pub fn make_initialize_tx(&self, init: &InitializeParams) -> (r: Result<
        EntryFunctionCall,
        BuildError,
    >)
        ensures
            r is Ok <==> signers_encodable(init.signers@),
            r is Ok ==> ({
                let c = r->Ok_0;
                &&& c.module.address == self.config.module.address
                &&& c.module.name@ == self.config.module.name@
                &&& c.function@ == "initialize"@
                &&& c.args.deep_view() == initialize_args(*init)
            }),
            r is Err ==> r == Err::<EntryFunctionCall, BuildError>(BuildError::ArgumentTooLong),
    {
        make_initialize_call(&self.config.module, init)
    }

    /// `call` from this relayer's account with `sequence_number`, under its fee settings.
    pub fn raw_transaction(&self, call: EntryFunctionCall, sequence_number: u64) -> (r:
        RawTransaction)
        ensures
            r.sender == self.sender,
            r.sequence_number == sequence_number,
            r.call == call,
            r.params == self.params,
    {
        RawTransaction { sender: self.sender, sequence_number, call, params: self.params }
    }

    /// Starts sending a built call: the submission, and its first action.
    pub fn send_transaction(&self, simulate: bool) -> (r: (Submission, SubmitAction))
        ensures
            r.0.phase == Phase::AwaitingSequenceNumber,
            r.0.simulate == simulate,
            r.1 == SubmitAction::FetchSequenceNumber,
    {
        Submission::new(simulate)
    }

    /// Builds the initialize call and starts its submission, with a dry run first.
    pub fn initialize(&self, init: &InitializeParams) -> (r: Result<
        (EntryFunctionCall, Submission, SubmitAction),
        BuildError,
    >)
        ensures
            r is Ok <==> signers_encodable(init.signers@),
            r is Ok ==> ({
                let (c, s, a) = r->Ok_0;
                &&& c.module.address == self.config.module.address
                &&& c.module.name@ == self.config.module.name@
                &&& c.function@ == "initialize"@
                &&& c.args.deep_view() == initialize_args(*init)
                &&& s.phase == Phase::AwaitingSequenceNumber
                &&& s.simulate
                &&& a == SubmitAction::FetchSequenceNumber
            }),
            r is Err ==> r == Err::<(EntryFunctionCall, Submission, SubmitAction), BuildError>(
                BuildError::ArgumentTooLong,
            ),
    {
        let call = match self.make_initialize_tx(init) {
            Ok(c) => c,
            Err(e) => return Err(e),
        };
        let (s, a) = self.send_transaction(true);
        Ok((call, s, a))
    }

    /// Builds the call relaying `payload` for `feed_id` and starts its submission, with a dry
    /// run first.
    pub fn process_redstone_payload(&self, feed_id: Vec<u8>, payload: Vec<u8>) -> (r: Result<
        (EntryFunctionCall, Submission, SubmitAction),
        BuildError,
    >)
        ensures
            r is Ok <==> feed_id@.len() <= MAX_SEQUENCE_LENGTH && payload@.len()
                <= MAX_SEQUENCE_LENGTH,
            r is Ok ==> ({
                let (c, s, a) = r->Ok_0;
                &&& c.module.address == self.config.module.address
                &&& c.module.name@ == self.config.module.name@
                &&& c.function@ == self.config.function@
                &&& c.args.deep_view() == process_payload_args(feed_id@, payload@)
                &&& s.phase == Phase::AwaitingSequenceNumber
                &&& s.simulate
                &&& a == SubmitAction::FetchSequenceNumber
            }),
            r is Err ==> r == Err::<(EntryFunctionCall, Submission, SubmitAction), BuildError>(
                BuildError::ArgumentTooLong,
            ),
    {
        let call = match self.make_process_redstone_payload_tx(feed_id, payload) {
            Ok(c) => c,
            Err(e) => return Err(e),
        };
        let (s, a) = self.send_transaction(true);
        Ok((call, s, a))
    }
}

} // verus!
