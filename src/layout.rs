//! The interface of every part of a voice that has a data layout.

use vstd::prelude::*;

verus! {

/// Parts of a patch with an unpacked and a packed data layout.
pub trait SystemExclusiveData: Sized {
    /// The fields are in their ranges, so that the layouts hold them.
    spec fn data_wf(&self) -> bool;

    /// The unpacked data bytes.
    spec fn data_bytes(&self) -> Seq<u8>;

    /// The packed data bytes.
    spec fn packed_data_bytes(&self) -> Seq<u8>;

    /// Gets the unpacked data bytes.
    fn to_bytes(&self) -> (r: Vec<u8>)
        requires
            self.data_wf(),
        ensures
            r@ == self.data_bytes(),
    ;

    /// Gets the packed data bytes.
    fn to_packed_bytes(&self) -> (r: Vec<u8>)
        requires
            self.data_wf(),
        ensures
            r@ == self.packed_data_bytes(),
    ;

    /// Gets the size of the unpacked data.
    fn data_size(&self) -> (r: usize)
        ensures
            r == self.data_bytes().len(),
    ;
}

} // verus!
