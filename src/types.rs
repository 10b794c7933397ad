use vstd::prelude::*;

verus! {

/// A 160-bit account address, stored as its twenty big-endian bytes.
#[derive(Clone, Copy, Debug, PartialEq, Eq, Hash)]
pub struct Address {
    pub bytes: [u8; 20],
}

/// A 256-bit hash or word, stored as its thirty-two big-endian bytes.
#[derive(Clone, Copy, Debug, PartialEq, Eq, Hash)]
pub struct B256 {
    pub bytes: [u8; 32],
}

/// A log entry emitted during execution.
#[derive(Clone, Debug)]
pub struct Log {
    pub address: Address,
    pub topics: Vec<B256>,
    pub data: Vec<u8>,
}

impl Address {
    /// The all-zero address.
    pub fn zero() -> (r: Address)
        ensures
            forall|i: int| 0 <= i < 20 ==> r.bytes[i] == 0u8,
    {
        Address { bytes: [0u8; 20] }
    }

    /// The bytes of the address whose first nineteen bytes are zero and whose last is `b`.
    pub open spec fn with_last_byte_spec(b: u8) -> Seq<u8> {
        Seq::new(19, |i: int| 0u8).push(b)
    }

    /// The address whose first nineteen bytes are zero and whose last byte is `b`.
    pub fn with_last_byte(b: u8) -> (r: Address)
        ensures
            r.bytes@ == Address::with_last_byte_spec(b),
    {
        let mut bytes = [0u8; 20];
        bytes[19] = b;
        assert(bytes@ =~= Address::with_last_byte_spec(b));
        Address { bytes }
    }
}

impl B256 {
    /// The all-zero word.
    pub fn zero() -> (r: B256)
        ensures
            forall|i: int| 0 <= i < 32 ==> r.bytes[i] == 0u8,
    {
        B256 { bytes: [0u8; 32] }
    }
}

/// Value of a big-endian byte sequence.
pub open spec fn be_value(s: Seq<u8>) -> nat
    decreases s.len(),
{
    if s.len() == 0 {
        0
    } else {
        be_value(s.drop_last()) * 256 + s.last() as nat
    }
}

} // verus!
