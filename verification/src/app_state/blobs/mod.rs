pub mod file;
pub mod memory;

use vstd::prelude::*;

verus! {

/// Where blobs are kept: in memory, or as files in a directory.
pub enum Blobs {
    Memory(memory::Blobs),
    File(file::Blobs),
}

} // verus!
