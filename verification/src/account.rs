use vstd::prelude::*;

verus! {

/// A Move account address: 32 bytes, held as two big-endian 128-bit halves
/// (`high` holds bytes 0..16, `low` bytes 16..32), so that comparing the pair
/// compares the bytes in order.
#[derive(Clone, Copy, Debug, PartialEq, Eq, Structural)]
pub struct AccountAddress {
    pub high: u128,
    pub low: u128,
}

/// The address whose last byte is `n` and whose other bytes are zero.
pub open spec fn short_address(n: u128) -> AccountAddress {
    AccountAddress { high: 0, low: n }
}

impl AccountAddress {
    /// The address `0x0`.
    pub fn zero() -> (a: AccountAddress)
        ensures
            a == short_address(0),
    {
        AccountAddress { high: 0, low: 0 }
    }
}

/// The address `0x1`, where the Move standard library lives.
pub fn core_code_address() -> (a: AccountAddress)
    ensures
        a == short_address(1),
{
    AccountAddress { high: 0, low: 1 }
}

/// The address `0x2`, where the MoveOS standard library lives.
pub fn moveos_std_address() -> (a: AccountAddress)
    ensures
        a == short_address(2),
{
    AccountAddress { high: 0, low: 2 }
}

/// The identifier of an object in the MoveOS state store.
#[derive(Clone, Copy, Debug, PartialEq, Eq, Structural)]
pub struct ObjectID(pub AccountAddress);

} // verus!
