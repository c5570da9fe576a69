//! Character devices: the resources that back the standard streams.

use vstd::prelude::*;
use crate::types::{Size, WasiResult};

verus! {

/// Whether two lists of buffers have the same number of buffers, of the same
/// lengths.
pub open spec fn same_shape(before: Seq<Vec<u8>>, after: Seq<Vec<u8>>) -> bool {
    &&& before.len() == after.len()
    &&& forall|i: int| 0 <= i < before.len() ==> #[trigger] before[i]@.len() == after[i]@.len()
}

/// Describes a character device.
pub trait CharacterDevice: Send + Sync {
    /// Reads data from the character device into `iovs`, and returns how many
    /// bytes were read. The buffers keep their lengths.
    fn read(&self, iovs: &mut Vec<Vec<u8>>) -> (result: WasiResult<Size>)
        ensures
            same_shape(old(iovs)@, final(iovs)@),
    ;

    /// Writes data from `bufs` to the character device, and returns how many
    /// bytes were written.
    fn write(&self, bufs: &Vec<Vec<u8>>) -> (result: WasiResult<Size>);
}

} // verus!
