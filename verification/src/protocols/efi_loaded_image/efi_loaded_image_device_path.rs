//! The loaded-image device-path protocol. It has the interface of the device
//! path protocol and differs from it by its tag alone.

use crate::guid::{loaded_image_device_path_guid, loaded_image_device_path_tag, Guid};
use vstd::prelude::*;

verus! {

/// The loaded-image device-path protocol, known by its tag.
#[derive(Clone, Copy, Debug, PartialEq, Eq)]
pub struct LoadedImageDevicePath {
    protocol_guid: Guid,
}

impl LoadedImageDevicePath {
    /// The tag this value carries.
    pub closed spec fn tag(&self) -> Guid {
        self.protocol_guid
    }

    pub fn new() -> (path: LoadedImageDevicePath)
        ensures
            path.tag()@ == loaded_image_device_path_tag(),
    {
        LoadedImageDevicePath { protocol_guid: loaded_image_device_path_guid() }
    }

    /// The tag under which firmware is asked for this protocol.
    pub fn guid(&self) -> (guid: Guid)
        ensures
            guid == self.tag(),
    {
        self.protocol_guid
    }
}

} // verus!
