//! What every network device has.

use vstd::prelude::*;
use crate::network::LinkInfo;

verus! {

/// A device that the kernel knows by a name and an index.
pub trait NetworkDevice: Send + Sync {
    /// The name of the device.
    fn name(&self) -> &str;

    /// The index of the device.
    fn index(&self) -> u32;
}

impl NetworkDevice for LinkInfo {
    fn name(&self) -> (name: &str)
        ensures
            name@ == self@.name,
    {
        self.name.as_str()
    }

    fn index(&self) -> (index: u32)
        ensures
            index == self@.index,
    {
        self.index
    }
}

} // verus!
