use vstd::prelude::*;

use crate::error::TransportError;
use crate::register::Register;
use crate::serialize::{IDENTITY_BLOCK_LEN, TELEMETRY_BLOCK_LEN};

verus! {

/// The most holding registers that one read request may ask for.
pub const MAX_READ_COUNT: usize = 125;

/// The most holding registers that one write request may carry.
pub const MAX_WRITE_COUNT: usize = 123;

/// A run of `count` consecutive registers starting at `address`.
#[derive(Clone, Copy, Debug, PartialEq, Eq, Structural)]
pub struct Request {
    pub address: u16,
    pub count: u16,
}

/// The outcome of asking for `count` registers at `address` where one request
/// may carry at most `limit`.
pub open spec fn request_outcome(address: u16, count: usize, limit: usize) -> Result<Request, TransportError> {
    if count == 0 || count > limit {
        Err(TransportError::Quantity { count })
    } else if address + count > 0x1_0000 {
        Err(TransportError::Range { address, count })
    } else {
        Ok(Request { address, count: count as u16 })
    }
}

/// Checks a run of registers against a per-request limit.
fn check_request(address: u16, count: usize, limit: usize) -> (r: Result<Request, TransportError>)
    requires
        limit <= MAX_READ_COUNT,
    ensures
        r == request_outcome(address, count, limit),
{
    if count == 0 || count > limit {
        Err(TransportError::Quantity { count })
    } else if address as usize + count > 0x1_0000 {
        Err(TransportError::Range { address, count })
    } else {
        Ok(Request { address, count: count as u16 })
    }
}

/// A read of `count` registers at `address`: refused where `count` is zero, above
/// `MAX_READ_COUNT`, or runs past the last address.
pub fn read_request(address: u16, count: usize) -> (r: Result<Request, TransportError>)
    ensures
        r == request_outcome(address, count, MAX_READ_COUNT),
{
    check_request(address, count, MAX_READ_COUNT)
}

/// A write of `count` registers at `address`: refused where `count` is zero, above
/// `MAX_WRITE_COUNT`, or runs past the last address.
pub fn write_request(address: u16, count: usize) -> (r: Result<Request, TransportError>)
    ensures
        r == request_outcome(address, count, MAX_WRITE_COUNT),
{
    check_request(address, count, MAX_WRITE_COUNT)
}

/// The run of registers from `first` through `last`.
pub open spec fn span(first: Register, last: Register) -> Request {
    Request {
        address: first.spec_address(),
        count: (last.spec_address() - first.spec_address() + 1) as u16,
    }
}

/// The identity block: `ID` through `FW`, `IDENTITY_BLOCK_LEN` words.
pub fn identity_window() -> (r: Request)
    ensures
        r == span(Register::ID, Register::FW),
        r.count == IDENTITY_BLOCK_LEN,
{
    let first = Register::ID;
    Request { address: first.address(), count: Register::FW.address() - first.address() + 1 }
}

/// The telemetry block: `INT_C_S` through `EXT_F`, `TELEMETRY_BLOCK_LEN` words.
pub fn telemetry_window() -> (r: Request)
    ensures
        r == span(Register::INT_C_S, Register::EXT_F),
        r.count == TELEMETRY_BLOCK_LEN,
{
    let first = Register::INT_C_S;
    Request { address: first.address(), count: Register::EXT_F.address() - first.address() + 1 }
}

/// A single register.
pub fn one_window(register: Register) -> (r: Request)
    ensures
        r == (Request { address: register.spec_address(), count: 1 }),
{
    Request { address: register.address(), count: 1 }
}

/// A register and the one after it, read as a pair with `register` as the high word.
pub fn pair_window(register: Register) -> (r: Request)
    ensures
        r == (Request { address: register.spec_address(), count: 2 }),
{
    Request { address: register.address(), count: 2 }
}

/// Every fixed window of the register map is a read request that the protocol accepts.
pub proof fn lemma_windows_accepted(register: Register)
    ensures
        request_outcome(Register::ID.spec_address(), IDENTITY_BLOCK_LEN, MAX_READ_COUNT) == Ok::<Request, TransportError>(
            span(Register::ID, Register::FW),
        ),
        request_outcome(Register::INT_C_S.spec_address(), TELEMETRY_BLOCK_LEN, MAX_READ_COUNT) == Ok::<Request, TransportError>(
            span(Register::INT_C_S, Register::EXT_F),
        ),
        request_outcome(register.spec_address(), 2, MAX_READ_COUNT) is Ok,
{
}

} // verus!
