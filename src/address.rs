use vstd::prelude::*;
use vstd::string::StringSliceAdditionalSpecFns;

verus! {

/// Number of bytes in an account address.
pub const ADDRESS_LENGTH: usize = 32;

pub open spec fn is_hex_digit(b: u8) -> bool {
    (48 <= b && b <= 57) || (65 <= b && b <= 70) || (97 <= b && b <= 102)
}

/// Value of a hex digit (`0`-`9`, `A`-`F`, `a`-`f`).
pub open spec fn hex_value(b: u8) -> int {
    if b <= 57 {
        b - 48
    } else if b <= 70 {
        b - 55
    } else {
        b - 87
    }
}

/// Whether `s` starts with `0x` or `0X`.
pub open spec fn has_hex_prefix(s: Seq<u8>) -> bool {
    s.len() >= 2 && s[0] == 48 && (s[1] == 120 || s[1] == 88)
}

/// The digits of an address text: what follows an optional `0x` or `0X`.
pub open spec fn address_digits(s: Seq<u8>) -> Seq<u8> {
    if has_hex_prefix(s) {
        s.subrange(2, s.len() as int)
    } else {
        s
    }
}

/// The digits left-padded with `0` to 64.
pub open spec fn padded_digits(d: Seq<u8>) -> Seq<u8> {
    Seq::new((64 - d.len()) as nat, |i: int| 48u8) + d
}

/// The address an address text denotes: 1 to 64 hex digits after an optional `0x`, read as a
/// big-endian number of 32 bytes.
pub open spec fn parsed_address(s: Seq<u8>) -> Option<Seq<u8>> {
    let d = address_digits(s);
    if 0 < d.len() <= 64 && forall|i: int| 0 <= i < d.len() ==> #[trigger] is_hex_digit(d[i]) {
        let p = padded_digits(d);
        Some(
            Seq::new(
                ADDRESS_LENGTH as nat,
                |i: int| (16 * hex_value(p[2 * i]) + hex_value(p[2 * i + 1])) as u8,
            ),
        )
    } else {
        None
    }
}

/// The padded digits begin with a second `0x`, which the hex decoder would strip as well.
pub open spec fn doubly_prefixed(s: Seq<u8>) -> bool {
    let d = address_digits(s);
    0 < d.len() <= 64 && has_hex_prefix(padded_digits(d))
}

/// Relies on aptos_sdk::types::AccountAddress::from_hex: an optional `0x`, then 1 to 64 hex
/// digits of either case, zero-padded on the left and decoded to 32 bytes. When the padded
/// digits begin with `0x` the decoder strips that too and the copy into 32 bytes panics, so
/// such texts are left out.
#[verifier::external_body]
fn address_from_hex(s: &str) -> (r: Option<[u8; 32]>)
    requires
        !doubly_prefixed(s.spec_bytes()),
    ensures
        r is Some <==> parsed_address(s.spec_bytes()) is Some,
        r is Some ==> r->Some_0@ == parsed_address(s.spec_bytes())->Some_0,
{
    aptos_sdk::types::AccountAddress::from_hex(s).ok().map(|a| a.to_bytes())
}

/// Reads an account address written in hex, with or without `0x`; `None` when the text is
/// not one.
pub fn parse_address(s: &str) -> (r: Option<[u8; 32]>)
    ensures
        r is Some <==> parsed_address(s.spec_bytes()) is Some,
        r is Some ==> r->Some_0@ == parsed_address(s.spec_bytes())->Some_0,
{
    let b = s.as_bytes();
    let n = b.len();
    let start: usize = if n >= 2 && b[0] == 48 && (b[1] == 120 || b[1] == 88) {
        2
    } else {
        0
    };
    let ghost d = address_digits(b@);
    assert(d =~= b@.subrange(start as int, n as int));
    let len = n - start;
    let second_prefix = if len == 64 {
        b[start] == 48 && (b[start + 1] == 120 || b[start + 1] == 88)
    } else if len == 63 {
        b[start] == 120 || b[start] == 88
    } else {
        false
    };
    if second_prefix {
        assert(!is_hex_digit(d[len - 63]));
        return None;
    }
    proof {
        if 0 < d.len() <= 64 {
            let p = padded_digits(d);
            if d.len() == 64 {
                assert(p[0] == d[0] && p[1] == d[1]);
            } else if d.len() == 63 {
                assert(p[0] == 48 && p[1] == d[0]);
            } else {
                assert(p[0] == 48 && p[1] == 48);
            }
        }
    }
    address_from_hex(s)
}

} // verus!
