//! Binary interface to MPC-20 token contracts.
//!
//! Every transfer of real tokens is an asynchronous binary call to the token
//! contract: one shortname byte, the fixed-width address arguments (one type
//! byte and twenty identifier bytes each), and the amount as a 16-byte
//! little-endian unsigned integer.  The encoders here produce exactly those
//! bytes.

use crate::events::{EventGroup, Interaction};
use crate::host::Address;
use vstd::bytes::{spec_u128_to_le_bytes, u128_to_le_bytes};
use vstd::prelude::*;

verus! {

/// Shortname of the MPC-20 `transfer` action.
pub const TRANSFER_SHORTNAME: u8 = 0x01;

/// Shortname of the MPC-20 `transfer_from` action.
pub const TRANSFER_FROM_SHORTNAME: u8 = 0x03;

/// Shortname of the MPC-20 `approve` action.
pub const APPROVE_SHORTNAME: u8 = 0x05;

/// The 21 bytes of an address as they appear in a call payload.
pub open spec fn addr_bytes(a: Address) -> Seq<u8> {
    seq![a.address_type] + a.identifier@
}

/// Payload of `transfer(to, amount)`.
pub open spec fn transfer_payload(to: Address, amount: u128) -> Seq<u8> {
    seq![TRANSFER_SHORTNAME] + addr_bytes(to) + spec_u128_to_le_bytes(amount)
}

/// Payload of `transfer_from(from, to, amount)`.
pub open spec fn transfer_from_payload(from: Address, to: Address, amount: u128) -> Seq<u8> {
    seq![TRANSFER_FROM_SHORTNAME] + addr_bytes(from) + addr_bytes(to) + spec_u128_to_le_bytes(
        amount,
    )
}

/// Payload of `approve(spender, amount)`.
pub open spec fn approve_payload(spender: Address, amount: u128) -> Seq<u8> {
    seq![APPROVE_SHORTNAME] + addr_bytes(spender) + spec_u128_to_le_bytes(amount)
}

/// Append the 21 payload bytes of `a` to `payload`.
fn push_address(payload: &mut Vec<u8>, a: &Address)
    ensures
        final(payload)@ == old(payload)@ + addr_bytes(*a),
{
    payload.push(a.address_type);
    let mut i: usize = 0;
    while i < 20
        invariant
            0 <= i <= 20,
            payload@ == old(payload)@ + seq![a.address_type] + a.identifier@.take(i as int),
        decreases 20 - i,
    {
        payload.push(a.identifier[i]);
        proof {
            assert(a.identifier@.take(i as int).push(a.identifier@[i as int]) =~= a.identifier@.take(
                i as int + 1,
            ));
            assert(payload@ =~= old(payload)@ + seq![a.address_type] + a.identifier@.take(
                i as int + 1,
            ));
        }
        i = i + 1;
    }
    proof {
        assert(a.identifier@.take(20) =~= a.identifier@);
        assert(payload@ =~= old(payload)@ + addr_bytes(*a));
    }
}

/// Append the 16 little-endian bytes of `amount` to `payload`.
fn push_amount(payload: &mut Vec<u8>, amount: u128)
    ensures
        final(payload)@ == old(payload)@ + spec_u128_to_le_bytes(amount),
{
    let mut bytes = u128_to_le_bytes(amount);
    payload.append(&mut bytes);
}

/// Interface for interacting with MPC-20 token contracts.
pub struct MPC20TokenInterface {
    /// The token contract every call is addressed to.
    pub token_address: Address,
}

impl MPC20TokenInterface {
    /// Create a new MPC-20 token interface.
    pub fn new(token_address: Address) -> (r: Self)
        ensures
            r.token_address == token_address,
    {
        MPC20TokenInterface { token_address }
    }

    /// Transfer tokens from this contract to another address: one binary
    /// call to the token contract under the MPC-20 `transfer` shortname.
    pub fn transfer(&self, to: Address, amount: u128) -> (r: EventGroup)
        ensures
            r.interactions@.len() == 1,
            r.interactions@[0].dest == self.token_address,
            r.interactions@[0].payload@ == transfer_payload(to, amount),
            r.callback is None,
            r.raw_events@.len() == 0,
    {
        let mut data: Vec<u8> = Vec::new();
        data.push(TRANSFER_SHORTNAME);
        push_address(&mut data, &to);
        push_amount(&mut data, amount);
        proof {
            assert(data@ =~= transfer_payload(to, amount));
        }
        let mut interactions: Vec<Interaction> = Vec::new();
        interactions.push(Interaction { dest: self.token_address, payload: data });
        EventGroup { interactions, callback: None, raw_events: Vec::new() }
    }

    /// Transfer tokens from one address to another (requires prior
    /// approval): one binary call under the MPC-20 `transfer_from`
    /// shortname.
    pub fn transfer_from(&self, from: Address, to: Address, amount: u128) -> (r: EventGroup)
        ensures
            r.interactions@.len() == 1,
            r.interactions@[0].dest == self.token_address,
            r.interactions@[0].payload@ == transfer_from_payload(from, to, amount),
            r.callback is None,
            r.raw_events@.len() == 0,
    {
        let mut data: Vec<u8> = Vec::new();
        data.push(TRANSFER_FROM_SHORTNAME);
        push_address(&mut data, &from);
        push_address(&mut data, &to);
        push_amount(&mut data, amount);
        proof {
            assert(data@ =~= transfer_from_payload(from, to, amount));
        }
        let mut interactions: Vec<Interaction> = Vec::new();
        interactions.push(Interaction { dest: self.token_address, payload: data });
        EventGroup { interactions, callback: None, raw_events: Vec::new() }
    }

    /// Approve tokens to be spent by another address: one binary call under
    /// the MPC-20 `approve` shortname.
    pub fn approve(&self, spender: Address, amount: u128) -> (r: EventGroup)
        ensures
            r.interactions@.len() == 1,
            r.interactions@[0].dest == self.token_address,
            r.interactions@[0].payload@ == approve_payload(spender, amount),
            r.callback is None,
            r.raw_events@.len() == 0,
    {
        let mut data: Vec<u8> = Vec::new();
        data.push(APPROVE_SHORTNAME);
        push_address(&mut data, &spender);
        push_amount(&mut data, amount);
        proof {
            assert(data@ =~= approve_payload(spender, amount));
        }
        let mut interactions: Vec<Interaction> = Vec::new();
        interactions.push(Interaction { dest: self.token_address, payload: data });
        EventGroup { interactions, callback: None, raw_events: Vec::new() }
    }
}

} // verus!
