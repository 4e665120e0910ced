//! Account addresses and secret keys, held as plain bytes.

use vstd::prelude::*;
use crate::hex::{all_hex_digits, big_endian_value, hex_bytes, is_hex_digit, is_hex_space};

verus! {

/// The order of the secp256k1 group: a secret key is a number from one up
/// to, and not including, this one.
pub open spec fn secp256k1_order() -> nat {
    0xFFFFFFFFFFFFFFFFFFFFFFFFFFFFFFFEBAAEDCE6AF48A03BBFD25E8CD0364141nat
}

/// The text with one leading `0x` taken off, where it has one.
pub open spec fn without_0x(s: Seq<char>) -> Seq<char> {
    if s.len() >= 2 && s[0] == '0' && s[1] == 'x' {
        s.skip(2)
    } else {
        s
    }
}

/// The hexadecimal digits of a text, in order, the white space left out.
pub open spec fn digits_of(t: Seq<char>) -> Seq<char> {
    t.filter(|c: char| is_hex_digit(c))
}

/// The 20 bytes that a text names as an address: an optional `0x`, then
/// exactly 40 hexadecimal digits, white space allowed between them.
pub open spec fn address_of(s: Seq<char>) -> Option<Seq<u8>> {
    let t = without_0x(s);
    if (forall|i: int| 0 <= i < t.len() ==> is_hex_digit(#[trigger] t[i]) || is_hex_space(t[i]))
        && digits_of(t).len() == 40 {
        Some(hex_bytes(digits_of(t)))
    } else {
        None
    }
}

/// The 32 bytes that a text names as a secret key: exactly 64 hexadecimal
/// digits whose number is neither zero nor at least the group order.
pub open spec fn secret_key_of(s: Seq<char>) -> Option<Seq<u8>> {
    if s.len() == 64 && all_hex_digits(s) && 0 < big_endian_value(hex_bytes(s))
        && big_endian_value(hex_bytes(s)) < secp256k1_order() {
        Some(hex_bytes(s))
    } else {
        None
    }
}

/// A 20-byte account or contract address.
#[derive(Clone, Copy, Debug, PartialEq, Eq)]
pub struct Address {
    pub bytes: [u8; 20],
}

impl View for Address {
    type V = Seq<u8>;

    open spec fn view(&self) -> Seq<u8> {
        self.bytes@
    }
}

impl Address {
    /// Whether two addresses hold the same bytes.
    pub fn same_as(&self, other: &Address) -> (r: bool)
        ensures
            r == (self@ == other@),
    {
        let mut i: usize = 0;
        while i < 20
            invariant
                i <= 20,
                self@.len() == 20,
                other@.len() == 20,
                forall|j: int| 0 <= j < i ==> self@[j] == other@[j],
            decreases 20 - i,
        {
            if self.bytes[i] != other.bytes[i] {
                return false;
            }
            i = i + 1;
        }
        assert(self@ =~= other@);
        true
    }
}

/// Relies on `FromStr` of web3's `Address` (fixed-hash's `H160`): it strips
/// one `0x`, reads hexadecimal digits in pairs while skipping space, tab, CR
/// and LF, and fails on any other character or on a count of digits other
/// than 40.
#[verifier::external_body]
fn parse_h160(s: &str) -> (r: Option<[u8; 20]>)
    ensures
        match r {
            Some(b) => address_of(s@) == Some(b@),
            None => address_of(s@) is None,
        },
{
    s.parse::<web3::types::Address>().ok().map(|a| a.0)
}

/// Relies on `FromStr` of secp256k1's `SecretKey`: 64 hexadecimal digits,
/// whose number libsecp256k1's `ec_seckey_verify` accepts when it is
/// neither zero nor at least the group order.
#[verifier::external_body]
fn parse_secp256k1_key(s: &str) -> (r: Option<[u8; 32]>)
    ensures
        match r {
            Some(b) => secret_key_of(s@) == Some(b@),
            None => secret_key_of(s@) is None,
        },
{
    s.parse::<secp256k1::SecretKey>().ok().map(|k| k.secret_bytes())
}

/// Reads an address from text: an optional `0x` and 40 hexadecimal digits.
pub fn parse_address(s: &str) -> (r: Option<Address>)
    ensures
        match r {
            Some(a) => address_of(s@) == Some(a@),
            None => address_of(s@) is None,
        },
{
    match parse_h160(s) {
        Some(b) => Some(Address { bytes: b }),
        None => None,
    }
}

/// A secret key, held as its 32 bytes, most significant first.
#[derive(Clone, Copy, Debug, PartialEq, Eq)]
pub struct SecretKey {
    pub bytes: [u8; 32],
}

impl View for SecretKey {
    type V = Seq<u8>;

    open spec fn view(&self) -> Seq<u8> {
        self.bytes@
    }
}

/// Reads a secret key from 64 hexadecimal digits.
pub fn parse_secret_key(s: &str) -> (r: Option<SecretKey>)
    ensures
        match r {
            Some(k) => secret_key_of(s@) == Some(k@),
            None => secret_key_of(s@) is None,
        },
{
    match parse_secp256k1_key(s) {
        Some(b) => Some(SecretKey { bytes: b }),
        None => None,
    }
}

} // verus!
