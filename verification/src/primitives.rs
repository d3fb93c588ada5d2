//! Fixed-width byte values and the 256-bit integer of the Ethereum data
//! model, carried as plain bytes and limbs.

use vstd::prelude::*;

verus! {

broadcast use vstd::array::group_array_axioms;

/// A 32-byte value: a block or transaction hash, or a header root.
#[derive(Clone, Copy, PartialEq, Eq, Debug)]
pub struct H256 {
    pub bytes: [u8; 32],
}

impl View for H256 {
    type V = Seq<u8>;

    open spec fn view(&self) -> Seq<u8> {
        self.bytes@
    }
}

impl H256 {
    /// Every byte is zero.
    pub open spec fn is_zero(self) -> bool {
        forall|i: int| 0 <= i < 32 ==> self@[i] == 0
    }

    pub fn zero() -> (r: H256)
        ensures
            r.is_zero(),
    {
        H256 { bytes: [0u8; 32] }
    }
}

/// An 8-byte value: the header nonce.
#[derive(Clone, Copy, PartialEq, Eq, Debug)]
pub struct H64 {
    pub bytes: [u8; 8],
}

impl View for H64 {
    type V = Seq<u8>;

    open spec fn view(&self) -> Seq<u8> {
        self.bytes@
    }
}

impl H64 {
    /// Every byte is zero.
    pub open spec fn is_zero(self) -> bool {
        forall|i: int| 0 <= i < 8 ==> self@[i] == 0
    }

    pub fn zero() -> (r: H64)
        ensures
            r.is_zero(),
    {
        H64 { bytes: [0u8; 8] }
    }
}

/// A 20-byte Ethereum address.
#[derive(Clone, Copy, PartialEq, Eq, Debug)]
pub struct Address {
    pub bytes: [u8; 20],
}

impl View for Address {
    type V = Seq<u8>;

    open spec fn view(&self) -> Seq<u8> {
        self.bytes@
    }
}

/// The 256-byte logs-bloom filter of a header.
#[derive(Clone, Copy, PartialEq, Eq, Debug)]
pub struct Bloom {
    pub bytes: [u8; 256],
}

impl View for Bloom {
    type V = Seq<u8>;

    open spec fn view(&self) -> Seq<u8> {
        self.bytes@
    }
}

impl Bloom {
    /// Every byte is zero.
    pub open spec fn is_zero(self) -> bool {
        forall|i: int| 0 <= i < 256 ==> self@[i] == 0
    }

    pub fn zero() -> (r: Bloom)
        ensures
            r.is_zero(),
    {
        Bloom { bytes: [0u8; 256] }
    }
}

/// A 256-bit unsigned integer, as a high and a low 128-bit limb.
#[derive(Clone, Copy, PartialEq, Eq, Structural, Debug)]
pub struct U256 {
    pub hi: u128,
    pub lo: u128,
}

/// The 256-bit value whose high limb is zero.
pub open spec fn u256_of(v: u128) -> U256 {
    U256 { hi: 0, lo: v }
}

impl U256 {
    /// The number a value denotes.
    pub open spec fn as_nat(self) -> nat {
        (self.hi * 0x100000000000000000000000000000000 + self.lo) as nat
    }

    pub fn zero() -> (r: U256)
        ensures
            r == u256_of(0),
            r.as_nat() == 0,
    {
        U256 { hi: 0, lo: 0 }
    }

    /// Widen a 64-bit number.
    pub fn from_u64(v: u64) -> (r: U256)
        ensures
            r == u256_of(v as u128),
            r.as_nat() == v,
    {
        U256 { hi: 0, lo: v as u128 }
    }

}

} // verus!
