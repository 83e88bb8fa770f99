use vstd::prelude::*;
use vstd::string::StringSliceAdditionalSpecFns;

verus! {

/// Number of bytes in a feed identifier.
pub const FEED_ID_LEN: usize = 32;

/// The identifier of a feed: the symbol's bytes followed by zeros, 32 bytes in all.
pub open spec fn feed_id_of(symbol: Seq<u8>) -> Seq<u8> {
    symbol + Seq::new((FEED_ID_LEN - symbol.len()) as nat, |i: int| 0u8)
}

/// Encodes a feed symbol (at most 32 bytes of UTF-8) as its 32-byte identifier.
pub fn make_feed_id_bytes(feed_id: &str) -> (r: [u8; 32])
    requires
        feed_id.spec_bytes().len() <= FEED_ID_LEN,
    ensures
        r@ == feed_id_of(feed_id.spec_bytes()),
{
    let src = feed_id.as_bytes();
    let n = src.len();
    let mut bytes = [0u8; 32];
    let mut i: usize = 0;
    while i < n
        invariant
            n == src@.len(),
            src@ == feed_id.spec_bytes(),
            n <= FEED_ID_LEN,
            i <= n,
            forall|j: int| 0 <= j < i ==> bytes@[j] == src@[j],
            forall|j: int| i <= j < FEED_ID_LEN ==> bytes@[j] == 0u8,
        decreases n - i,
    {
        bytes[i] = src[i];
        i = i + 1;
    }
    assert(bytes@ =~= feed_id_of(feed_id.spec_bytes()));
    bytes
}

/// A feed identifier is exactly 32 bytes: the symbol's bytes first, zeros after them.
pub proof fn lemma_feed_id_layout(symbol: Seq<u8>)
    requires
        symbol.len() <= FEED_ID_LEN,
    ensures
        feed_id_of(symbol).len() == FEED_ID_LEN,
        feed_id_of(symbol).subrange(0, symbol.len() as int) == symbol,
        forall|i: int| symbol.len() <= i < FEED_ID_LEN ==> #[trigger] feed_id_of(symbol)[i] == 0u8,
{
    assert(feed_id_of(symbol).subrange(0, symbol.len() as int) =~= symbol);
}

} // verus!
