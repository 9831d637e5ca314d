//! Shader source text in the form the driver reads: bytes up to a terminating
//! zero, so none of the bytes themselves is zero.

use vstd::prelude::*;

verus! {

/// Whether no byte of `bytes` is zero.
pub open spec fn zero_free(bytes: Seq<u8>) -> bool {
    forall|i: int| 0 <= i < bytes.len() ==> bytes[i] != 0
}

/// Source text for one shader. It holds no zero byte.
#[derive(Debug)]
pub struct Source {
    bytes: Vec<u8>,
}

impl View for Source {
    type V = Seq<u8>;

    closed spec fn view(&self) -> Seq<u8> {
        self.bytes@
    }
}

impl Source {
    #[verifier::type_invariant]
    spec fn holds_no_zero(&self) -> bool {
        zero_free(self.bytes@)
    }

    /// Takes `bytes` as source text, unless one of them is zero.
    pub fn new(bytes: Vec<u8>) -> (made: Option<Source>)
        ensures
            made is Some <==> zero_free(bytes@),
            made matches Some(source) ==> source@ == bytes@,
    {
        let mut at: usize = 0;
        while at < bytes.len()
            invariant
                at <= bytes.len(),
                zero_free(bytes@.take(at as int)),
            decreases bytes.len() - at,
        {
            if bytes[at] == 0 {
                return None;
            }
            at = at + 1;
        }
        assert(bytes@.take(at as int) =~= bytes@);
        Some(Source { bytes })
    }

    /// The source text, byte by byte.
    pub fn as_bytes(&self) -> (bytes: &Vec<u8>)
        ensures
            bytes@ == self@,
            zero_free(bytes@),
    {
        proof {
            use_type_invariant(self);
        }
        &self.bytes
    }

    /// A copy of the source text.
    pub(crate) fn duplicate(&self) -> (copy: Source)
        ensures
            copy@ == self@,
    {
        proof {
            use_type_invariant(self);
        }
        Source { bytes: self.bytes.clone() }
    }
}

} // verus!
