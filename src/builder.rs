use vstd::prelude::*;
use vstd::string::StringSliceAdditionalSpecFns;

use crate::address::{parse_address, parsed_address};
use crate::encoding::{
    bcs_byte_lists, bcs_bytes, bcs_u64, bcs_u8, encode_byte_lists, encode_bytes, encode_u64,
    encode_u8, lemma_bcs_bytes_injective, uleb128, MAX_SEQUENCE_LENGTH,
};

verus! {

/// Longest identifier, in bytes, that the chain accepts.
pub const MAX_IDENTIFIER_LENGTH: usize = 128;

/// Seconds in fifteen hours: the default length of both time windows of `initialize`.
pub const FIFTEEN_HOURS_SECS: u64 = 54000;

/// Default number of signatures the contract requires.
pub const DEFAULT_SIGNER_THRESHOLD: u8 = 3;

pub open spec fn is_ascii_letter(c: char) -> bool {
    ('a' <= c && c <= 'z') || ('A' <= c && c <= 'Z')
}

pub open spec fn is_identifier_char(c: char) -> bool {
    is_ascii_letter(c) || ('0' <= c && c <= '9') || c == '_'
}

/// A Move identifier: 1 to 128 characters, letters, digits and `_`, not starting with a digit.
pub open spec fn is_valid_identifier(s: Seq<char>) -> bool {
    &&& 0 < s.len() <= MAX_IDENTIFIER_LENGTH
    &&& (is_ascii_letter(s[0]) || s[0] == '_')
    &&& forall|i: int| 0 <= i < s.len() ==> #[trigger] is_identifier_char(s[i])
}

/// Relies on aptos_sdk::types::Identifier::new: it accepts exactly the valid identifiers.
#[verifier::external_body]
fn identifier_accepted(s: &str) -> (r: bool)
    ensures
        r == is_valid_identifier(s@),
{
    aptos_sdk::types::Identifier::new(s).is_ok()
}

/// Why a call could not be built.
#[derive(Debug, Clone, Copy, PartialEq, Eq)]
pub enum BuildError {
    /// The module's account address is not a hex address.
    InvalidAddress,
    /// A module or function name is not a valid identifier.
    InvalidIdentifier,
    /// An argument is longer than the canonical encoding allows.
    ArgumentTooLong,
}

/// A module on chain: the account it is published under and its name.
#[derive(Debug, Clone)]
pub struct ModuleRef {
    pub address: [u8; 32],
    pub name: String,
}

/// A call of an entry function with its arguments already encoded.
#[derive(Debug, Clone)]
pub struct EntryFunctionCall {
    pub module: ModuleRef,
    pub function: String,
    pub args: Vec<Vec<u8>>,
}

/// The entry point called for each relayed payload.
#[derive(Debug, Clone)]
pub struct RelayerConfig {
    pub module: ModuleRef,
    pub function: String,
}

/// The arguments of the contract's one-time `initialize` call.
#[derive(Debug, Clone)]
pub struct InitializeParams {
    /// Addresses of the signers whose attestations are accepted.
    pub signers: Vec<Vec<u8>>,
    /// Number of signatures required.
    pub threshold: u8,
    /// First time window, in seconds.
    pub window_a: u64,
    /// Second time window, in seconds.
    pub window_b: u64,
}

impl ModuleRef {
    /// A copy of this module reference.
    pub fn duplicate(&self) -> (r: ModuleRef)
        ensures
            r.address == self.address,
            r.name@ == self.name@,
    {
        ModuleRef { address: self.address, name: self.name.clone() }
    }
}

impl RelayerConfig {
    pub open spec fn wf(&self) -> bool {
        is_valid_identifier(self.module.name@) && is_valid_identifier(self.function@)
    }

    /// The entry point `function` of module `module_name` published under `address`.
    pub fn new(address: [u8; 32], module_name: &str, function: &str) -> (r: Result<
        RelayerConfig,
        BuildError,
    >)
        ensures
            r is Ok <==> is_valid_identifier(module_name@) && is_valid_identifier(function@),
            r is Ok ==> ({
                let c = r->Ok_0;
                &&& c.module.address == address
                &&& c.module.name@ == module_name@
                &&& c.function@ == function@
                &&& c.wf()
            }),
            r is Err ==> r == Err::<RelayerConfig, BuildError>(BuildError::InvalidIdentifier),
    {
        if !identifier_accepted(module_name) || !identifier_accepted(function) {
            return Err(BuildError::InvalidIdentifier);
        }
        Ok(RelayerConfig {
            module: ModuleRef { address, name: module_name.to_string() },
            function: function.to_string(),
        })
    }

    /// The entry point `function` of module `module_name` published under the account whose
    /// address `address` writes in hex.
    pub fn from_text(address: &str, module_name: &str, function: &str) -> (r: Result<
        RelayerConfig,
        BuildError,
    >)
        ensures
            parsed_address(address.spec_bytes()) is None ==> r == Err::<RelayerConfig, BuildError>(
                BuildError::InvalidAddress,
            ),
            parsed_address(address.spec_bytes()) is Some ==> {
                &&& r is Ok <==> is_valid_identifier(module_name@) && is_valid_identifier(function@)
                &&& r is Err ==> r == Err::<RelayerConfig, BuildError>(BuildError::InvalidIdentifier)
                &&& r is Ok ==> ({
                    let c = r->Ok_0;
                    &&& c.module.address@ == parsed_address(address.spec_bytes())->Some_0
                    &&& c.module.name@ == module_name@
                    &&& c.function@ == function@
                    &&& c.wf()
                })
            },
    {
        match parse_address(address) {
            Some(a) => RelayerConfig::new(a, module_name, function),
            None => Err(BuildError::InvalidAddress),
        }
    }
}

impl InitializeParams {
    /// The given signers, with a threshold of three and both windows fifteen hours long.
    pub fn with_defaults(signers: Vec<Vec<u8>>) -> (r: InitializeParams)
        ensures
            r.signers@ == signers@,
            r.threshold == DEFAULT_SIGNER_THRESHOLD,
            r.window_a == FIFTEEN_HOURS_SECS,
            r.window_b == FIFTEEN_HOURS_SECS,
    {
        InitializeParams {
            signers,
            threshold: DEFAULT_SIGNER_THRESHOLD,
            window_a: FIFTEEN_HOURS_SECS,
            window_b: FIFTEEN_HOURS_SECS,
        }
    }
}

/// The encoded arguments of a payload-processing call.
pub open spec fn process_payload_args(feed_id: Seq<u8>, payload: Seq<u8>) -> Seq<Seq<u8>> {
    seq![bcs_bytes(feed_id), bcs_bytes(payload)]
}

/// The encoded arguments of an `initialize` call.
pub open spec fn initialize_args(p: InitializeParams) -> Seq<Seq<u8>> {
    seq![
        bcs_byte_lists(p.signers.deep_view()),
        bcs_u8(p.threshold),
        bcs_u64(p.window_a),
        bcs_u64(p.window_b),
    ]
}

/// Whether every signer address fits the encoding.
pub open spec fn signers_encodable(signers: Seq<Vec<u8>>) -> bool {
    &&& signers.len() <= MAX_SEQUENCE_LENGTH
    &&& forall|i: int| 0 <= i < signers.len() ==> #[trigger] signers[i]@.len() <= MAX_SEQUENCE_LENGTH
}

/// Builds the call that relays `payload` for the feed `feed_id` to the configured entry point.
pub fn make_process_payload_call(config: &RelayerConfig, feed_id: Vec<u8>, payload: Vec<u8>) -> (r:
    Result<EntryFunctionCall, BuildError>)
    ensures
        r is Ok <==> feed_id@.len() <= MAX_SEQUENCE_LENGTH && payload@.len() <= MAX_SEQUENCE_LENGTH,
        r is Ok ==> ({
            let c = r->Ok_0;
            &&& c.module.address == config.module.address
            &&& c.module.name@ == config.module.name@
            &&& c.function@ == config.function@
            &&& c.args.deep_view() == process_payload_args(feed_id@, payload@)
        }),
        r is Err ==> r == Err::<EntryFunctionCall, BuildError>(BuildError::ArgumentTooLong),
{
    let a = match encode_bytes(&feed_id) {
        Some(a) => a,
        None => return Err(BuildError::ArgumentTooLong),
    };
    let b = match encode_bytes(&payload) {
        Some(b) => b,
        None => return Err(BuildError::ArgumentTooLong),
    };
    let ghost (va, vb) = (a@, b@);
    let args = vec![a, b];
    assert(args.deep_view()[0] =~= va);
    assert(args.deep_view()[1] =~= vb);
    assert(args.deep_view() =~= process_payload_args(feed_id@, payload@));
    Ok(EntryFunctionCall { module: config.module.duplicate(), function: config.function.clone(), args })
}

/// Builds the contract's one-time `initialize` call on `module`.
pub fn make_initialize_call(module: &ModuleRef, params: &InitializeParams) -> (r: Result<
    EntryFunctionCall,
    BuildError,
>)
    ensures
        r is Ok <==> signers_encodable(params.signers@),
        r is Ok ==> ({
            let c = r->Ok_0;
            &&& c.module.address == module.address
            &&& c.module.name@ == module.name@
            &&& c.function@ == "initialize"@
            &&& c.args.deep_view() == initialize_args(*params)
        }),
        r is Err ==> r == Err::<EntryFunctionCall, BuildError>(BuildError::ArgumentTooLong),
{
    let signers = match encode_byte_lists(&params.signers) {
        Some(s) => s,
        None => return Err(BuildError::ArgumentTooLong),
    };
    let threshold = encode_u8(params.threshold);
    let window_a = encode_u64(params.window_a);
    let window_b = encode_u64(params.window_b);
    let ghost (v0, v1, v2, v3) = (signers@, threshold@, window_a@, window_b@);
    let args = vec![signers, threshold, window_a, window_b];
    assert(args.deep_view()[0] =~= v0);
    assert(args.deep_view()[1] =~= v1);
    assert(args.deep_view()[2] =~= v2);
    assert(args.deep_view()[3] =~= v3);
    assert(args.deep_view() =~= initialize_args(*params));
    Ok(EntryFunctionCall {
        module: module.duplicate(),
        function: "initialize".to_string(),
        args,
    })
}

/// Building a payload-processing call is deterministic: the same feed identifier and payload
/// always give byte-identical encoded arguments, whatever else differs between the two calls.
/// Nothing else enters them: different inputs never give the same arguments.
pub proof fn lemma_process_payload_args_deterministic(
    feed_a: Seq<u8>,
    payload_a: Seq<u8>,
    feed_b: Seq<u8>,
    payload_b: Seq<u8>,
)
    ensures
        process_payload_args(feed_a, payload_a) == process_payload_args(feed_b, payload_b)
            <==> feed_a == feed_b && payload_a == payload_b,
        process_payload_args(feed_a, payload_a)[0] == uleb128(feed_a.len()) + feed_a,
        process_payload_args(feed_a, payload_a)[1] == uleb128(payload_a.len()) + payload_a,
{
    if process_payload_args(feed_a, payload_a) == process_payload_args(feed_b, payload_b) {
        assert(process_payload_args(feed_a, payload_a)[0] == process_payload_args(feed_b, payload_b)[0]);
        assert(process_payload_args(feed_a, payload_a)[1] == process_payload_args(feed_b, payload_b)[1]);
        lemma_bcs_bytes_injective(feed_a, feed_b);
        lemma_bcs_bytes_injective(payload_a, payload_b);
    }
}

} // verus!
