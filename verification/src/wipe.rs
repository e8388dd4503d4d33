//! Resources that can be wiped and the methods a wipe may use, as the
//! command-line surface offers them.

use vstd::prelude::*;

verus! {

/// A resource a wipe can target.
#[derive(Clone, Copy, Debug, PartialEq, Eq, Structural)]
pub enum Resource {
    Replica,
}

impl Resource {
    /// Names of the wipeable resources, as the command line takes them.
    pub fn resources() -> (r: Vec<&'static str>)
        ensures
            r@.len() == 1,
            r@[0]@ == "replica"@,
    {
        let mut v: Vec<&'static str> = Vec::new();
        v.push("replica");
        v
    }
}

/// Method used to wipe a replica.
#[derive(Clone, Copy, Debug, PartialEq, Eq, Structural)]
pub enum WipeMethod {
    /// Do not touch the data.
    NoWipe,
    /// Overwrite with zeroes.
    WriteZeroes,
    /// Unmap the blocks.
    Unmap,
    /// Overwrite with a fixed pattern.
    WritePattern,
    /// Read back and checksum instead of wiping.
    CheckSum,
}

impl WipeMethod {
    /// Names of the wipe methods, as the command line takes them.
    pub fn methods() -> (r: Vec<&'static str>)
        ensures
            r@.len() == 5,
            r@[0]@ == "None"@,
            r@[1]@ == "WriteZeroes"@,
            r@[2]@ == "Unmap"@,
            r@[3]@ == "WritePattern"@,
            r@[4]@ == "CheckSum"@,
    {
        let mut v: Vec<&'static str> = Vec::new();
        v.push("None");
        v.push("WriteZeroes");
        v.push("Unmap");
        v.push("WritePattern");
        v.push("CheckSum");
        v
    }
}

} // verus!
