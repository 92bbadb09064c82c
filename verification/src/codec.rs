//! Codec between 20-byte host-ledger token addresses and destination-ledger
//! account identities.
//!
//! An account identity derived for a token is the lower-case hex encoding of
//! the 20 address bytes, followed by a separator byte `.`, followed by the
//! parent (factory) identity. The derivation is injective over 20-byte
//! addresses, and the address can be recovered from the first 40 bytes of the
//! identity.

use crate::errors::Error;
use vstd::prelude::*;

verus! {

/// The separator byte `.` between the hex prefix and the parent identity.
pub const SEPARATOR: u8 = 46;

/// Number of bytes in a host-ledger token address.
pub const ADDRESS_LEN: usize = 20;

/// Length of the hex encoding of a token address.
pub const ADDRESS_HEX_LEN: usize = 40;

/// A 20-byte host-ledger token address.
pub struct Address(pub Vec<u8>);

impl View for Address {
    type V = Seq<u8>;

    open spec fn view(&self) -> Seq<u8> {
        self.0@
    }
}

impl Address {
    /// A well-formed address holds exactly 20 bytes.
    pub open spec fn wf(&self) -> bool {
        self@.len() == ADDRESS_LEN
    }
}

/// Whether `c` is an ASCII hex digit (`0-9`, `a-f`, `A-F`).
pub open spec fn is_hex_digit(c: u8) -> bool {
    ||| 48 <= c && c <= 57
    ||| 97 <= c && c <= 102
    ||| 65 <= c && c <= 70
}

/// Numeric value of the hex digit `c`.
pub open spec fn nibble_value(c: u8) -> u8
    recommends
        is_hex_digit(c),
{
    if 48 <= c && c <= 57 {
        (c - 48) as u8
    } else if 97 <= c && c <= 102 {
        (c - 87) as u8
    } else {
        (c - 55) as u8
    }
}

/// Lower-case hex digit for the nibble `n`.
pub open spec fn hex_digit(n: u8) -> u8
    recommends
        n < 16,
{
    if n < 10 {
        (n + 48) as u8
    } else {
        (n + 87) as u8
    }
}

/// Lower-case hex encoding of a byte string: two digits per byte, high
/// nibble first.
pub open spec fn hex_encoded(s: Seq<u8>) -> Seq<u8> {
    Seq::new(s.len() * 2, |i: int|
        if i % 2 == 0 {
            hex_digit((s[i / 2] / 16) as u8)
        } else {
            hex_digit((s[i / 2] % 16) as u8)
        })
}

/// Bytes denoted by a hex string: one byte per digit pair.
pub open spec fn hex_decoded(s: Seq<u8>) -> Seq<u8>
    recommends
        forall|i: int| 0 <= i < s.len() ==> is_hex_digit(s[i]),
{
    Seq::new(s.len() / 2, |i: int|
        (nibble_value(s[2 * i]) * 16 + nibble_value(s[2 * i + 1])) as u8)
}

/// The account identity derived for `address` under the parent identity
/// `parent`: hex encoding, separator, parent.
pub open spec fn account_id_seq(address: Seq<u8>, parent: Seq<u8>) -> Seq<u8> {
    hex_encoded(address) + seq![SEPARATOR] + parent
}

/// Whether `s` starts with 40 hex digits, so that a token address can be
/// recovered from it.
pub open spec fn valid_account_prefix(s: Seq<u8>) -> bool {
    &&& s.len() >= ADDRESS_HEX_LEN
    &&& forall|i: int| 0 <= i < ADDRESS_HEX_LEN ==> is_hex_digit(#[trigger] s[i])
}

/// Decoding a hex digit undoes encoding a nibble.
proof fn lemma_nibble_round_trip(n: u8)
    requires
        n < 16,
    ensures
        is_hex_digit(hex_digit(n)),
        nibble_value(hex_digit(n)) == n,
{
}

/// Hex decoding undoes hex encoding.
pub proof fn lemma_hex_round_trip(s: Seq<u8>)
    ensures
        forall|i: int| 0 <= i < hex_encoded(s).len() ==> is_hex_digit(#[trigger] hex_encoded(s)[i]),
        hex_decoded(hex_encoded(s)) == s,
{
    let e = hex_encoded(s);
    assert forall|i: int| 0 <= i < e.len() implies is_hex_digit(#[trigger] e[i]) by {
        let b = s[i / 2];
        assert(b / 16 < 16);
        assert(b % 16 < 16);
        if i % 2 == 0 {
            lemma_nibble_round_trip((b / 16) as u8);
        } else {
            lemma_nibble_round_trip((b % 16) as u8);
        }
    }
    assert forall|i: int| 0 <= i < s.len() implies hex_decoded(e)[i] == s[i] by {
        let b = s[i];
        assert(e[2 * i] == hex_digit((b / 16) as u8));
        assert(e[2 * i + 1] == hex_digit((b % 16) as u8));
        lemma_nibble_round_trip((b / 16) as u8);
        lemma_nibble_round_trip((b % 16) as u8);
        assert(b / 16 * 16 + b % 16 == b);
    }
    assert(hex_decoded(e) =~= s);
}

/// Law: a derived account identity always carries its token address. For
/// every 20-byte address and any parent identity, the identity starts with a
/// valid 40-digit hex prefix, and decoding that prefix yields the address
/// again.
pub proof fn lemma_address_round_trip(address: Seq<u8>, parent: Seq<u8>)
    requires
        address.len() == ADDRESS_LEN,
    ensures
        valid_account_prefix(account_id_seq(address, parent)),
        hex_decoded(account_id_seq(address, parent).subrange(0, ADDRESS_HEX_LEN as int))
            == address,
{
    let acct = account_id_seq(address, parent);
    lemma_hex_round_trip(address);
    assert(acct.subrange(0, ADDRESS_HEX_LEN as int) =~= hex_encoded(address));
}

/// Appends a copy of `src` to `out`.
pub fn push_bytes(out: &mut Vec<u8>, src: &Vec<u8>)
    ensures
        final(out)@ == old(out)@ + src@,
{
    let ghost base = out@;
    let mut i: usize = 0;
    while i < src.len()
        invariant
            i <= src@.len(),
            out@.len() == base.len() + i,
            out@ == base + src@.subrange(0, i as int),
        decreases src@.len() - i,
    {
        out.push(src[i]);
        i = i + 1;
        assert(out@ =~= base + src@.subrange(0, i as int));
    }
    assert(out@ =~= base + src@);
}

/// Whether two byte strings hold the same bytes.
pub fn bytes_eq(a: &Vec<u8>, b: &Vec<u8>) -> (r: bool)
    ensures
        r == (a@ == b@),
{
    if a == b {
        assert(a@ =~= b@);
        true
    } else {
        assert(a@ != b@) by {
            if a@ == b@ {
                assert(forall|i: int| 0 <= i < a@.len() ==> a@[i] == b@[i]);
            }
        }
        false
    }
}

/// A copy of `src` as a fresh vector.
pub fn copy_bytes(src: &Vec<u8>) -> (r: Vec<u8>)
    ensures
        r@ == src@,
{
    let mut out: Vec<u8> = Vec::new();
    push_bytes(&mut out, src);
    assert(out@ =~= src@);
    out
}

/// The lower-case hex digit for the nibble `n`.
fn hex_digit_byte(n: u8) -> (r: u8)
    requires
        n < 16,
    ensures
        r == hex_digit(n),
{
    if n < 10 {
        n + 48
    } else {
        n + 87
    }
}

/// The value of the hex digit `c`, or `None` if `c` is not one.
fn nibble_of(c: u8) -> (r: Option<u8>)
    ensures
        is_hex_digit(c) ==> r == Some(nibble_value(c)),
        !is_hex_digit(c) ==> r is None,
{
    if 48 <= c && c <= 57 {
        Some(c - 48)
    } else if 97 <= c && c <= 102 {
        Some(c - 87)
    } else if 65 <= c && c <= 70 {
        Some(c - 55)
    } else {
        None
    }
}

/// Appends the lower-case hex encoding of `src` to `out`.
fn push_hex(out: &mut Vec<u8>, src: &Vec<u8>)
    ensures
        final(out)@ == old(out)@ + hex_encoded(src@),
{
    let ghost base = out@;
    let ghost enc = hex_encoded(src@);
    let mut i: usize = 0;
    while i < src.len()
        invariant
            i <= src@.len(),
            enc == hex_encoded(src@),
            out@.len() == base.len() + 2 * i,
            forall|j: int| 0 <= j < base.len() ==> out@[j] == base[j],
            forall|j: int| 0 <= j < 2 * i ==> out@[base.len() + j] == enc[j],
        decreases src@.len() - i,
    {
        let b = src[i];
        assert(b / 16 < 16 && b % 16 < 16);
        out.push(hex_digit_byte(b / 16));
        out.push(hex_digit_byte(b % 16));
        i = i + 1;
    }
    assert(out@ =~= base + enc);
}

/// Derives the destination-ledger account identity for `address` under the
/// parent identity `parent`: 40 lower-case hex digits, a separator, and the
/// parent.
pub fn account_id_from_token_address(address: &Address, parent: &Vec<u8>) -> (r: Vec<u8>)
    ensures
        r@ == account_id_seq(address@, parent@),
{
    let mut out: Vec<u8> = Vec::new();
    push_hex(&mut out, &address.0);
    out.push(SEPARATOR);
    push_bytes(&mut out, parent);
    assert(out@ =~= account_id_seq(address@, parent@));
    out
}

/// Recovers the 20-byte token address from the first 40 bytes of an account
/// identity. Fails with `MalformedCallerIdentity` exactly when the identity
/// is shorter than 40 bytes or one of its first 40 bytes is not a hex digit.
pub fn address_from_token_account_id(account_id: &Vec<u8>) -> (r: Result<Address, Error>)
    ensures
        r is Ok <==> valid_account_prefix(account_id@),
        r matches Ok(a) ==> a.wf() && a@ == hex_decoded(
            account_id@.subrange(0, ADDRESS_HEX_LEN as int),
        ),
        r matches Err(e) ==> e == Error::MalformedCallerIdentity,
{
    if account_id.len() < ADDRESS_HEX_LEN {
        return Err(Error::MalformedCallerIdentity);
    }
    let ghost prefix = account_id@.subrange(0, ADDRESS_HEX_LEN as int);
    let mut out: Vec<u8> = Vec::new();
    let mut i: usize = 0;
    while i < ADDRESS_HEX_LEN
        invariant
            account_id@.len() >= ADDRESS_HEX_LEN,
            prefix == account_id@.subrange(0, ADDRESS_HEX_LEN as int),
            i % 2 == 0,
            i <= ADDRESS_HEX_LEN,
            forall|j: int| 0 <= j < i ==> is_hex_digit(#[trigger] account_id@[j]),
            out@.len() == i / 2,
            forall|j: int| 0 <= j < out@.len() ==> out@[j] == hex_decoded(prefix)[j],
        decreases ADDRESS_HEX_LEN - i,
    {
        let hi = match nibble_of(account_id[i]) {
            Some(v) => v,
            None => {
                return Err(Error::MalformedCallerIdentity);
            },
        };
        let lo = match nibble_of(account_id[i + 1]) {
            Some(v) => v,
            None => {
                return Err(Error::MalformedCallerIdentity);
            },
        };
        out.push(hi * 16 + lo);
        i = i + 2;
    }
    assert(out@ =~= hex_decoded(prefix));
    Ok(Address(out))
}

/// Law: the derivation is injective. Two 20-byte addresses that yield the
/// same account identity under the same parent are equal.
pub proof fn lemma_account_id_injective(a1: Seq<u8>, a2: Seq<u8>, parent: Seq<u8>)
    requires
        a1.len() == ADDRESS_LEN,
        a2.len() == ADDRESS_LEN,
        account_id_seq(a1, parent) == account_id_seq(a2, parent),
    ensures
        a1 == a2,
{
    lemma_address_round_trip(a1, parent);
    lemma_address_round_trip(a2, parent);
    assert(account_id_seq(a1, parent).subrange(0, ADDRESS_HEX_LEN as int)
        == account_id_seq(a2, parent).subrange(0, ADDRESS_HEX_LEN as int));
    assert(a1 =~= a2);
}

} // verus!
