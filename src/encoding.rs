use vstd::prelude::*;

verus! {

/// The longest sequence the canonical encoding accepts.
pub const MAX_SEQUENCE_LENGTH: usize = 2147483647;

#[verifier::external_type_specification]
#[verifier::external_body]
pub struct ExBcsError(aptos_sdk::aptos_bcs::Error);

/// Unsigned LEB128: seven bits per byte, low bits first, high bit set on every byte but the last.
pub open spec fn uleb128(n: nat) -> Seq<u8>
    decreases n,
{
    if n < 128 {
        seq![n as u8]
    } else {
        seq![((n % 128) + 128) as u8] + uleb128(n / 128)
    }
}

/// The `count` low bytes of `v`, least significant first.
pub open spec fn le_bytes(v: nat, count: nat) -> Seq<u8>
    decreases count,
{
    if count == 0 {
        seq![]
    } else {
        seq![(v % 256) as u8] + le_bytes(v / 256, (count - 1) as nat)
    }
}

/// Canonical encoding of a byte vector: its length, then the bytes.
pub open spec fn bcs_bytes(b: Seq<u8>) -> Seq<u8> {
    uleb128(b.len()) + b
}

/// Concatenation of the encodings of each byte vector of `l`.
pub open spec fn bcs_items(l: Seq<Seq<u8>>) -> Seq<u8>
    decreases l.len(),
{
    if l.len() == 0 {
        seq![]
    } else {
        bcs_bytes(l[0]) + bcs_items(l.drop_first())
    }
}

/// Canonical encoding of a list of byte vectors: the count, then each vector encoded.
pub open spec fn bcs_byte_lists(l: Seq<Seq<u8>>) -> Seq<u8> {
    uleb128(l.len()) + bcs_items(l)
}

/// Canonical encoding of a `u8`: the byte itself.
pub open spec fn bcs_u8(v: u8) -> Seq<u8> {
    seq![v]
}

/// Canonical encoding of a `u64`: eight bytes, little endian.
pub open spec fn bcs_u64(v: u64) -> Seq<u8> {
    le_bytes(v as nat, 8)
}

/// Relies on aptos_bcs::to_bytes for `Vec<u8>`: a ULEB128 length then the bytes; it fails
/// only when the length exceeds `MAX_SEQUENCE_LENGTH`.
#[verifier::external_body]
fn to_bytes_vec(v: &Vec<u8>) -> (r: Result<Vec<u8>, aptos_sdk::aptos_bcs::Error>)
    ensures
        r is Ok <==> v@.len() <= MAX_SEQUENCE_LENGTH,
        r is Ok ==> r->Ok_0@ == bcs_bytes(v@),
{
    aptos_sdk::aptos_bcs::to_bytes(v)
}

/// Relies on aptos_bcs::to_bytes for `Vec<Vec<u8>>`: a ULEB128 count then each vector as a
/// ULEB128 length and its bytes; it fails only when a length exceeds `MAX_SEQUENCE_LENGTH`.
#[verifier::external_body]
fn to_bytes_vec_list(v: &Vec<Vec<u8>>) -> (r: Result<Vec<u8>, aptos_sdk::aptos_bcs::Error>)
    ensures
        r is Ok <==> (v@.len() <= MAX_SEQUENCE_LENGTH && forall|i: int|
            0 <= i < v@.len() ==> #[trigger] v@[i]@.len() <= MAX_SEQUENCE_LENGTH),
        r is Ok ==> r->Ok_0@ == bcs_byte_lists(v.deep_view()),
{
    aptos_sdk::aptos_bcs::to_bytes(v)
}

/// Relies on aptos_bcs::to_bytes for `u8`: the byte itself, never an error.
#[verifier::external_body]
fn to_bytes_u8(v: u8) -> (r: Result<Vec<u8>, aptos_sdk::aptos_bcs::Error>)
    ensures
        r is Ok,
        r is Ok ==> r->Ok_0@ == bcs_u8(v),
{
    aptos_sdk::aptos_bcs::to_bytes(&v)
}

/// Relies on aptos_bcs::to_bytes for `u64`: eight little-endian bytes, never an error.
#[verifier::external_body]
fn to_bytes_u64(v: u64) -> (r: Result<Vec<u8>, aptos_sdk::aptos_bcs::Error>)
    ensures
        r is Ok,
        r is Ok ==> r->Ok_0@ == bcs_u64(v),
{
    aptos_sdk::aptos_bcs::to_bytes(&v)
}

/// Encodes a byte vector; `None` when it is longer than the encoding allows.
pub fn encode_bytes(v: &Vec<u8>) -> (r: Option<Vec<u8>>)
    ensures
        r is Some <==> v@.len() <= MAX_SEQUENCE_LENGTH,
        r is Some ==> r->Some_0@ == bcs_bytes(v@),
{
    match to_bytes_vec(v) {
        Ok(b) => Some(b),
        Err(_) => None,
    }
}

/// Encodes a list of byte vectors; `None` when the list or one of its vectors is too long.
pub fn encode_byte_lists(v: &Vec<Vec<u8>>) -> (r: Option<Vec<u8>>)
    ensures
        r is Some <==> (v@.len() <= MAX_SEQUENCE_LENGTH && forall|i: int|
            0 <= i < v@.len() ==> #[trigger] v@[i]@.len() <= MAX_SEQUENCE_LENGTH),
        r is Some ==> r->Some_0@ == bcs_byte_lists(v.deep_view()),
{
    match to_bytes_vec_list(v) {
        Ok(b) => Some(b),
        Err(_) => None,
    }
}

/// Encodes a `u8`.
pub fn encode_u8(v: u8) -> (r: Vec<u8>)
    ensures
        r@ == bcs_u8(v),
{
    match to_bytes_u8(v) {
        Ok(b) => b,
        Err(_) => Vec::new(),
    }
}

/// Encodes a `u64`.
pub fn encode_u64(v: u64) -> (r: Vec<u8>)
    ensures
        r@ == bcs_u64(v),
{
    match to_bytes_u64(v) {
        Ok(b) => b,
        Err(_) => Vec::new(),
    }
}

proof fn lemma_uleb128_len_monotone(a: nat, b: nat)
    requires
        a <= b,
    ensures
        uleb128(a).len() <= uleb128(b).len(),
        uleb128(a).len() >= 1,
    decreases b,
{
    if b >= 128 && a >= 128 {
        vstd::arithmetic::div_mod::lemma_div_is_ordered(a as int, b as int, 128);
        lemma_uleb128_len_monotone(a / 128, b / 128);
    }
}

/// Distinct byte vectors have distinct encodings.
pub proof fn lemma_bcs_bytes_injective(x: Seq<u8>, y: Seq<u8>)
    requires
        bcs_bytes(x) == bcs_bytes(y),
    ensures
        x == y,
{
    assert(bcs_bytes(x).len() == uleb128(x.len()).len() + x.len());
    assert(bcs_bytes(y).len() == uleb128(y.len()).len() + y.len());
    if x.len() < y.len() {
        lemma_uleb128_len_monotone(x.len(), y.len());
        assert(bcs_bytes(x).len() < bcs_bytes(y).len());
    } else if y.len() < x.len() {
        lemma_uleb128_len_monotone(y.len(), x.len());
        assert(bcs_bytes(y).len() < bcs_bytes(x).len());
    } else {
        let k = uleb128(x.len()).len() as int;
        assert(x =~= bcs_bytes(x).subrange(k, bcs_bytes(x).len() as int));
        assert(y =~= bcs_bytes(y).subrange(k, bcs_bytes(y).len() as int));
    }
}

} // verus!
