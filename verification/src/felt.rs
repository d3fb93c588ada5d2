//! The Starknet field element, carried by its 32-byte big-endian encoding:
//! the canonical-range check used when an Ethereum hash is read as a field
//! element, and the deterministic truncation to an Ethereum address.

use vstd::prelude::*;

use crate::primitives::Address;
use crate::primitives::H256;

verus! {

broadcast use vstd::array::group_array_axioms;

/// The number a big-endian byte string denotes, most significant byte first.
pub open spec fn be_val(s: Seq<u8>) -> nat
    decreases s.len(),
{
    if s.len() == 0 {
        0
    } else {
        (be_val(s.drop_last()) * 256 + s.last()) as nat
    }
}

/// Byte `i` of the 32-byte big-endian encoding of the Starknet field
/// modulus 2^251 + 17 * 2^192 + 1.
pub open spec fn field_modulus_byte(i: int) -> u8 {
    if i == 0 {
        0x08
    } else if i == 7 {
        0x11
    } else if i == 31 {
        0x01
    } else {
        0x00
    }
}

/// The 32-byte big-endian encoding of the field modulus.
pub open spec fn field_modulus_bytes() -> Seq<u8> {
    Seq::new(32, |i: int| field_modulus_byte(i))
}

/// The field modulus as a number.
pub open spec fn field_modulus() -> nat {
    be_val(field_modulus_bytes())
}

/// On equal-length big-endian strings, the first differing byte decides
/// the numeric order.
pub proof fn lemma_be_val_lt(s: Seq<u8>, t: Seq<u8>, k: int)
    requires
        s.len() == t.len(),
        0 <= k < s.len(),
        forall|j: int| 0 <= j < k ==> s[j] == t[j],
        s[k] < t[k],
    ensures
        be_val(s) < be_val(t),
    decreases s.len(),
{
    if k == s.len() - 1 {
        assert(s.drop_last() =~= t.drop_last());
    } else {
        assert forall|j: int| 0 <= j < k implies s.drop_last()[j] == t.drop_last()[j] by {
            assert(s.drop_last()[j] == s[j]);
        }
        lemma_be_val_lt(s.drop_last(), t.drop_last(), k);
        assert(be_val(s.drop_last()) * 256 + 256 <= be_val(t.drop_last()) * 256);
        assert(s.last() < 256);
    }
}

/// A Starknet field element, carried by its 32-byte big-endian encoding.
/// Values taken from fetched chain data are canonical already; the range
/// check is made where an Ethereum hash is converted into a field element.
#[derive(Clone, Copy, PartialEq, Eq, Debug)]
pub struct Felt {
    pub bytes: [u8; 32],
}

impl View for Felt {
    type V = Seq<u8>;

    open spec fn view(&self) -> Seq<u8> {
        self.bytes@
    }
}

/// The 32-byte big-endian encoding of the field modulus, as a value.
fn field_modulus_be() -> (r: [u8; 32])
    ensures
        r@ == field_modulus_bytes(),
{
    let mut m: [u8; 32] = [0u8; 32];
    m[0] = 0x08;
    m[7] = 0x11;
    m[31] = 0x01;
    proof {
        assert(m@ =~= field_modulus_bytes());
    }
    m
}

impl Felt {
    /// The encoding denotes a canonical element of the scalar field.
    pub open spec fn in_field(self) -> bool {
        be_val(self@) < field_modulus()
    }

    /// Read a 32-byte big-endian encoding as a field element; `None` when
    /// the value does not fit the field's canonical range.
    pub fn from_be_bytes(bytes: [u8; 32]) -> (r: Option<Felt>)
        ensures
            be_val(bytes@) < field_modulus() ==> (r matches Some(f) && f@ == bytes@),
            be_val(bytes@) >= field_modulus() ==> r is None,
    {
        let m = field_modulus_be();
        let mut i: usize = 0;
        while i < 32
            invariant
                0 <= i <= 32,
                m@ == field_modulus_bytes(),
                forall|j: int| 0 <= j < i ==> bytes@[j] == m@[j],
            decreases 32 - i,
        {
            if bytes[i] < m[i] {
                proof {
                    lemma_be_val_lt(bytes@, m@, i as int);
                }
                return Some(Felt { bytes });
            }
            if bytes[i] > m[i] {
                proof {
                    lemma_be_val_lt(m@, bytes@, i as int);
                }
                return None;
            }
            i = i + 1;
        }
        proof {
            assert(bytes@ =~= m@);
        }
        None
    }

    /// The 32-byte hash value with the same big-endian encoding.
    pub fn to_h256(&self) -> (r: H256)
        ensures
            r@ == self@,
    {
        H256 { bytes: self.bytes }
    }
}

/// The low-order 20 bytes of the 32-byte big-endian encoding.
pub open spec fn spec_truncate(f: Felt) -> Seq<u8> {
    f@.subrange(12, 32)
}

/// Deterministic narrowing of a field element to an Ethereum address:
/// keep the low-order 20 bytes of the 32-byte big-endian encoding and
/// discard the high-order 12.
pub struct AddressTruncator;

impl AddressTruncator {
    pub fn truncate(value: &Felt) -> (r: Address)
        ensures
            r@ == spec_truncate(*value),
            r@.len() == 20,
    {
        let mut out: [u8; 20] = [0u8; 20];
        let mut i: usize = 0;
        while i < 20
            invariant
                0 <= i <= 20,
                forall|j: int| 0 <= j < i ==> out@[j] == value@[j + 12],
            decreases 20 - i,
        {
            out[i] = value.bytes[12 + i];
            i = i + 1;
        }
        proof {
            assert(out@ =~= value@.subrange(12, 32));
        }
        Address { bytes: out }
    }
}

/// Truncation is deterministic and idempotent across calls: the address
/// depends on the element's encoding alone, so any two truncations of
/// equally encoded elements agree.
pub proof fn lemma_truncate_deterministic(a: Felt, b: Felt)
    requires
        a@ == b@,
    ensures
        spec_truncate(a) == spec_truncate(b),
{
}

} // verus!
