use vstd::prelude::*;

verus! {

/// A fixed 32-byte value: a private key, or a bytecode hash from either
/// compiler backend.
#[derive(Clone, Debug)]
pub struct Bytes32 {
    pub bytes: Vec<u8>,
}

impl Bytes32 {
    /// Well-formed: exactly 32 bytes.
    pub open spec fn wf(&self) -> bool {
        self.bytes@.len() == 32
    }

    /// Wraps a 32-byte vector.
    pub fn from_vec(bytes: Vec<u8>) -> (r: Bytes32)
        requires
            bytes@.len() == 32,
        ensures
            r.bytes@ == bytes@,
            r.wf(),
    {
        Bytes32 { bytes }
    }

    /// The all-zero value.
    pub fn zero() -> (r: Bytes32)
        ensures
            r.wf(),
            forall|i: int| 0 <= i < 32 ==> r.bytes@[i] == 0u8,
    {
        let mut bytes: Vec<u8> = Vec::new();
        let mut i: usize = 0;
        while i < 32
            invariant
                i <= 32,
                bytes@.len() == i,
                forall|j: int| 0 <= j < i ==> bytes@[j] == 0u8,
            decreases 32 - i,
        {
            bytes.push(0);
            i += 1;
        }
        Bytes32 { bytes }
    }
}

impl Default for Bytes32 {
    /// The default value is the all-zero value.
    fn default() -> (r: Bytes32)
        ensures
            r.wf(),
            forall|i: int| 0 <= i < 32 ==> r.bytes@[i] == 0u8,
    {
        Bytes32::zero()
    }
}

} // verus!
