use vstd::prelude::*;

verus! {

/// The bytes that a JSON text denotes when read as an array of integers from 0 to 255, or
/// `None` when it is not such an array.
pub uninterp spec fn json_byte_array(s: Seq<char>) -> Option<Seq<u8>>;

#[verifier::external_type_specification]
#[verifier::external_body]
pub struct ExJsonError(serde_json::Error);

/// Relies on serde_json::from_str for `Vec<u8>`: it reads a JSON array of integers that each
/// fit in a byte, and its outcome depends on the text alone.
#[verifier::external_body]
fn parse_byte_array(s: &str) -> (r: Result<Vec<u8>, serde_json::Error>)
    ensures
        match r {
            Ok(v) => json_byte_array(s@) == Some(v@),
            Err(_) => json_byte_array(s@) is None,
        },
{
    serde_json::from_str::<Vec<u8>>(s)
}

/// Why no payload could be had from the payload tool.
#[derive(Debug, Clone, PartialEq, Eq)]
pub enum SourceError {
    /// The tool exited with a failure; this is what it wrote to its error stream.
    ToolFailed(String),
    /// The tool's output is not a JSON array of bytes.
    MalformedOutput,
}

/// The arguments the payload tool is run with for `symbol`: the symbol, three signers, and
/// binary output.
pub fn payload_tool_args(symbol: &str) -> (r: Vec<String>)
    ensures
        r@.len() == 4,
        r@[0]@ == symbol@,
        r@[1]@ == "-s"@,
        r@[2]@ == "3"@,
        r@[3]@ == "-b"@,
{
    vec![symbol.to_string(), "-s".to_string(), "3".to_string(), "-b".to_string()]
}

/// The payload carried by the tool's output. A failed run is reported with its error stream,
/// and its output is not read.
pub fn payload_from_tool_output(succeeded: bool, stdout: &str, stderr: &str) -> (r: Result<
    Vec<u8>,
    SourceError,
>)
    ensures
        !succeeded ==> r is Err && r->Err_0 is ToolFailed && r->Err_0->ToolFailed_0@ == stderr@,
        succeeded ==> match json_byte_array(stdout@) {
            Some(b) => r is Ok && r->Ok_0@ == b,
            None => r == Err::<Vec<u8>, SourceError>(SourceError::MalformedOutput),
        },
{
    if !succeeded {
        return Err(SourceError::ToolFailed(stderr.to_string()));
    }
    match parse_byte_array(stdout) {
        Ok(bytes) => Ok(bytes),
        Err(_) => Err(SourceError::MalformedOutput),
    }
}

} // verus!
