//! A byte string whose length never exceeds `MAX_LEN`.
use vstd::prelude::*;

verus! {

/// The largest number of bytes a `LimitedVec` may hold.
pub const MAX_LEN: usize = 15;

/// A byte vector bounded by `MAX_LEN`, used for names and handles.
#[derive(Debug, PartialEq, Eq)]
pub struct LimitedVec {
    bytes: Vec<u8>,
}

impl View for LimitedVec {
    type V = Seq<u8>;

    closed spec fn view(&self) -> Seq<u8> {
        self.bytes@
    }
}

impl LimitedVec {
    #[verifier::type_invariant]
    spec fn within_bound(self) -> bool {
        self.bytes@.len() <= MAX_LEN
    }

    /// Accepts `bytes` when it holds at most `MAX_LEN` bytes and hands it
    /// back unchanged as the error otherwise.
    pub fn try_from(bytes: Vec<u8>) -> (r: Result<LimitedVec, Vec<u8>>)
        ensures
            bytes@.len() <= MAX_LEN <==> r is Ok,
            r matches Ok(v) ==> v@ == bytes@,
            r matches Err(b) ==> b@ == bytes@,
    {
        if bytes.len() <= MAX_LEN {
            Ok(LimitedVec { bytes })
        } else {
            Err(bytes)
        }
    }

    /// The empty byte string.
    pub fn new() -> (v: LimitedVec)
        ensures
            v@ == Seq::<u8>::empty(),
    {
        LimitedVec { bytes: Vec::new() }
    }

    /// Number of bytes held.
    pub fn len(&self) -> (n: usize)
        ensures
            n == self@.len(),
            n <= MAX_LEN,
    {
        proof {
            use_type_invariant(self);
        }
        self.bytes.len()
    }

    /// The bytes held.
    pub fn as_slice(&self) -> (s: &[u8])
        ensures
            s@ == self@,
    {
        self.bytes.as_slice()
    }

    /// A copy of the bytes held.
    pub fn to_vec(&self) -> (v: Vec<u8>)
        ensures
            v@ == self@,
    {
        let v = self.bytes.clone();
        assert(v@ =~= self.bytes@);
        v
    }
}

impl Clone for LimitedVec {
    fn clone(&self) -> (c: Self)
        ensures
            c@ == self@,
    {
        proof {
            use_type_invariant(self);
        }
        let bytes = self.bytes.clone();
        assert(bytes@ =~= self.bytes@);
        LimitedVec { bytes }
    }
}

} // verus!
