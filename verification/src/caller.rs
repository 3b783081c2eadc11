use vstd::prelude::*;

verus! {

/// An opaque caller identity, carried as raw bytes.
///
/// The record store uses it only for equality comparison against a
/// proposal's owner; it never inspects the bytes themselves.
#[derive(Debug)]
pub struct CallerId(pub Vec<u8>);

impl View for CallerId {
    type V = Seq<u8>;

    open spec fn view(&self) -> Seq<u8> {
        self.0@
    }
}

impl Clone for CallerId {
    fn clone(&self) -> (r: Self)
        ensures
            r@ == self@,
    {
        let bytes = self.0.clone();
        proof {
            assert(bytes@ =~= self.0@);
        }
        CallerId(bytes)
    }
}

impl CallerId {
    /// Byte-for-byte equality of two caller identities.
    pub fn equals(&self, other: &CallerId) -> (r: bool)
        ensures
            r == (self@ == other@),
    {
        if self.0.len() != other.0.len() {
            return false;
        }
        let mut i: usize = 0;
        while i < self.0.len()
            invariant
                i <= self.0.len(),
                self.0.len() == other.0.len(),
                forall|j: int| 0 <= j < i ==> self.0@[j] == other.0@[j],
            decreases self.0.len() - i,
        {
            if self.0[i] != other.0[i] {
                return false;
            }
            i = i + 1;
        }
        proof {
            assert(self.0@ =~= other.0@);
        }
        true
    }
}

} // verus!
