use vstd::prelude::*;

use crate::operation::{selector_of, Family, Group, Kind, Operation};

verus! {

/// A read-only contract call: the call data sent to the precompile at a
/// one-byte address.
#[derive(Debug)]
pub struct PrecompileCall {
    /// The low byte of the contract address; the other bytes are zero.
    pub address: u8,
    /// The call data.
    pub data: Vec<u8>,
}

fn copy_bytes(data: &[u8]) -> (r: Vec<u8>)
    ensures
        r@ == data@,
{
    let mut out: Vec<u8> = Vec::new();
    let mut i: usize = 0;
    while i < data.len()
        invariant
            0 <= i <= data@.len(),
            out@ == data@.subrange(0, i as int),
        decreases data@.len() - i,
    {
        out.push(data[i]);
        i = i + 1;
        assert(out@ =~= data@.subrange(0, i as int));
    }
    assert(data@.subrange(0, i as int) =~= data@);
    out
}

impl PrecompileCall {
    /// The call of the precompile at `address` on `data`.
    pub fn new(address: u8, data: &[u8]) -> (r: PrecompileCall)
        ensures
            r.address == address,
            r.data@ == data@,
    {
        PrecompileCall { address, data: copy_bytes(data) }
    }
}

/// The call that exercises `op` on `input`.
pub fn precompile_call(op: Operation, input: &[u8]) -> (r: PrecompileCall)
    ensures
        r.address == selector_of(op),
        r.data@ == input@,
{
    PrecompileCall::new(op.selector(), input)
}

/// The calls to the BLS12-381 precompiles.
pub struct Eip2537Rpc;

impl Eip2537Rpc {
    pub fn g1_add(input: &[u8]) -> (r: PrecompileCall)
        ensures
            r.address == 10,
            r.data@ == input@,
    {
        precompile_call(Operation { family: Family::Eip2537, group: Group::G1, kind: Kind::Add }, input)
    }

    pub fn g1_mul(input: &[u8]) -> (r: PrecompileCall)
        ensures
            r.address == 11,
            r.data@ == input@,
    {
        precompile_call(Operation { family: Family::Eip2537, group: Group::G1, kind: Kind::Mul }, input)
    }

    pub fn g1_multiexp(input: &[u8]) -> (r: PrecompileCall)
        ensures
            r.address == 12,
            r.data@ == input@,
    {
        precompile_call(
            Operation { family: Family::Eip2537, group: Group::G1, kind: Kind::MultiExp },
            input,
        )
    }

    pub fn g2_add(input: &[u8]) -> (r: PrecompileCall)
        ensures
            r.address == 13,
            r.data@ == input@,
    {
        precompile_call(Operation { family: Family::Eip2537, group: Group::G2, kind: Kind::Add }, input)
    }

    pub fn g2_mul(input: &[u8]) -> (r: PrecompileCall)
        ensures
            r.address == 14,
            r.data@ == input@,
    {
        precompile_call(Operation { family: Family::Eip2537, group: Group::G2, kind: Kind::Mul }, input)
    }

    pub fn g2_multiexp(input: &[u8]) -> (r: PrecompileCall)
        ensures
            r.address == 15,
            r.data@ == input@,
    {
        precompile_call(
            Operation { family: Family::Eip2537, group: Group::G2, kind: Kind::MultiExp },
            input,
        )
    }

    /// The pairing check; not yet part of a fuzz round.
    pub fn pairing(input: &[u8]) -> (r: PrecompileCall)
        ensures
            r.address == 16,
            r.data@ == input@,
    {
        PrecompileCall::new(16, input)
    }

    /// Mapping a field element to G1; not yet part of a fuzz round.
    pub fn map_to_g1(input: &[u8]) -> (r: PrecompileCall)
        ensures
            r.address == 17,
            r.data@ == input@,
    {
        PrecompileCall::new(17, input)
    }

    /// Mapping an Fp2 element to G2; not yet part of a fuzz round.
    pub fn map_to_g2(input: &[u8]) -> (r: PrecompileCall)
        ensures
            r.address == 18,
            r.data@ == input@,
    {
        PrecompileCall::new(18, input)
    }
}

/// The calls to the BLS12-377 precompiles.
pub struct Eip2539Rpc;

impl Eip2539Rpc {
    pub fn g1_add(input: &[u8]) -> (r: PrecompileCall)
        ensures
            r.address == 19,
            r.data@ == input@,
    {
        precompile_call(Operation { family: Family::Eip2539, group: Group::G1, kind: Kind::Add }, input)
    }

    pub fn g1_mul(input: &[u8]) -> (r: PrecompileCall)
        ensures
            r.address == 20,
            r.data@ == input@,
    {
        precompile_call(Operation { family: Family::Eip2539, group: Group::G1, kind: Kind::Mul }, input)
    }

    pub fn g1_multiexp(input: &[u8]) -> (r: PrecompileCall)
        ensures
            r.address == 21,
            r.data@ == input@,
    {
        precompile_call(
            Operation { family: Family::Eip2539, group: Group::G1, kind: Kind::MultiExp },
            input,
        )
    }

    pub fn g2_add(input: &[u8]) -> (r: PrecompileCall)
        ensures
            r.address == 22,
            r.data@ == input@,
    {
        precompile_call(Operation { family: Family::Eip2539, group: Group::G2, kind: Kind::Add }, input)
    }

    pub fn g2_mul(input: &[u8]) -> (r: PrecompileCall)
        ensures
            r.address == 23,
            r.data@ == input@,
    {
        precompile_call(Operation { family: Family::Eip2539, group: Group::G2, kind: Kind::Mul }, input)
    }

    pub fn g2_multiexp(input: &[u8]) -> (r: PrecompileCall)
        ensures
            r.address == 24,
            r.data@ == input@,
    {
        precompile_call(
            Operation { family: Family::Eip2539, group: Group::G2, kind: Kind::MultiExp },
            input,
        )
    }

    /// The pairing check; not yet part of a fuzz round.
    pub fn pairing(input: &[u8]) -> (r: PrecompileCall)
        ensures
            r.address == 25,
            r.data@ == input@,
    {
        PrecompileCall::new(25, input)
    }
}

} // verus!
