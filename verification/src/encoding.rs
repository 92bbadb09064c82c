//! Fixed-layout binary encoder for the host-ledger withdrawal message.
//!
//! The message mirrors a three-argument `(address, address, uint256)` call:
//! a 4-byte function selector followed by three 32-byte words, each value
//! right-aligned in its word. It is built by hand so that the output is
//! bit-exact and deterministic.

use crate::codec::Address;
use vstd::prelude::*;

verus! {

/// Length of the encoded withdrawal message.
pub const ENCODED_WITHDRAW_LEN: usize = 100;

/// The 4-byte selector of the host-ledger function with signature
/// `withdraw(address,address,uint256)`: the first four bytes of the
/// signature's standard hash.
pub open spec fn withdraw_selector_seq() -> Seq<u8> {
    seq![0xd9u8, 0xcau8, 0xedu8, 0x12u8]
}

/// The pinned withdrawal selector as bytes.
pub fn withdraw_selector() -> (r: Vec<u8>)
    ensures
        r@ == withdraw_selector_seq(),
{
    let mut out: Vec<u8> = Vec::new();
    out.push(0xd9);
    out.push(0xca);
    out.push(0xed);
    out.push(0x12);
    assert(out@ =~= withdraw_selector_seq());
    out
}

/// Byte `i` of the 16-byte big-endian representation of `amount`.
pub open spec fn be_byte(amount: u128, i: int) -> u8
    recommends
        0 <= i < 16,
{
    ((amount >> (((15 - i) * 8) as u128)) & 0xff) as u8
}

/// The encoded withdrawal message: selector, then the token address, the
/// receiver address and the amount, each right-aligned in a 32-byte word,
/// with every other byte zero.
pub open spec fn encode_withdraw_seq(token: Seq<u8>, receiver: Seq<u8>, amount: u128) -> Seq<u8>
    recommends
        token.len() == 20,
        receiver.len() == 20,
{
    Seq::new(ENCODED_WITHDRAW_LEN as nat, |i: int|
        if 0 <= i < 4 {
            withdraw_selector_seq()[i]
        } else if 16 <= i < 36 {
            token[i - 16]
        } else if 48 <= i < 68 {
            receiver[i - 48]
        } else if 84 <= i < 100 {
            be_byte(amount, i - 84)
        } else {
            0u8
        })
}

/// Appends `count` zero bytes to `out`.
fn push_zeros(out: &mut Vec<u8>, count: usize)
    ensures
        final(out)@.len() == old(out)@.len() + count,
        forall|j: int| 0 <= j < old(out)@.len() ==> final(out)@[j] == old(out)@[j],
        forall|j: int| old(out)@.len() <= j < final(out)@.len() ==> final(out)@[j] == 0u8,
{
    let ghost base = out@;
    let mut i: usize = 0;
    while i < count
        invariant
            i <= count,
            out@.len() == base.len() + i,
            forall|j: int| 0 <= j < base.len() ==> out@[j] == base[j],
            forall|j: int| base.len() <= j < out@.len() ==> out@[j] == 0u8,
        decreases count - i,
    {
        out.push(0);
        i = i + 1;
    }
}

/// Appends the 16-byte big-endian representation of `amount` to `out`.
fn push_amount_be(out: &mut Vec<u8>, amount: u128)
    ensures
        final(out)@.len() == old(out)@.len() + 16,
        forall|j: int| 0 <= j < old(out)@.len() ==> final(out)@[j] == old(out)@[j],
        forall|j: int| 0 <= j < 16 ==> final(out)@[old(out)@.len() + j] == be_byte(amount, j),
{
    let ghost base = out@;
    let mut i: usize = 0;
    while i < 16
        invariant
            i <= 16,
            out@.len() == base.len() + i,
            forall|j: int| 0 <= j < base.len() ==> out@[j] == base[j],
            forall|j: int| 0 <= j < i ==> out@[base.len() + j] == be_byte(amount, j),
        decreases 16 - i,
    {
        let shift: u128 = ((15 - i) * 8) as u128;
        let shifted: u128 = amount >> shift;
        let masked: u128 = shifted & 0xff;
        assert(shifted & 0xff < 256) by (bit_vector);
        out.push(masked as u8);
        i = i + 1;
    }
}

/// Encodes the withdrawal message instructing the host ledger to unlock
/// `amount` of the token at `token_id` for `receiver_id`.
pub fn abi_encode_withdraw(token_id: &Address, receiver_id: &Address, amount: u128) -> (r: Vec<
    u8,
>)
    requires
        token_id.wf(),
        receiver_id.wf(),
    ensures
        r@ == encode_withdraw_seq(token_id@, receiver_id@, amount),
        r@.len() == ENCODED_WITHDRAW_LEN,
{
    let mut out: Vec<u8> = Vec::new();
    let mut selector = withdraw_selector();
    out.append(&mut selector);
    push_zeros(&mut out, 12);
    crate::codec::push_bytes(&mut out, &token_id.0);
    push_zeros(&mut out, 12);
    crate::codec::push_bytes(&mut out, &receiver_id.0);
    push_zeros(&mut out, 16);
    push_amount_be(&mut out, amount);
    assert(out@ =~= encode_withdraw_seq(token_id@, receiver_id@, amount));
    out
}

} // verus!
