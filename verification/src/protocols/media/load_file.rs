//! The load-file protocol, by which a driver loads a file from its device.

use crate::guid::{load_file_guid, load_file_tag, Guid};
use crate::status::Status;
use vstd::prelude::*;

verus! {

/// A located load-file protocol.
#[derive(Clone, Copy, Debug, PartialEq, Eq)]
pub struct LoadFile {
    protocol: usize,
}

impl LoadFile {
    /// The address of the firmware structure.
    pub closed spec fn address(&self) -> usize {
        self.protocol
    }

    /// The tag under which firmware is asked for this protocol.
    pub fn guid() -> (guid: Guid)
        ensures
            guid@ == load_file_tag(),
    {
        load_file_guid()
    }

    /// The result of locating the protocol: a wrapper of the structure at
    /// `protocol` if firmware reported success; its status, and no wrapper,
    /// otherwise.
    pub fn new(status: Status, protocol: usize) -> (result: Result<LoadFile, Status>)
        ensures
            status.spec_is_success() ==> (result matches Ok(loader) && loader.address()
                == protocol),
            !status.spec_is_success() ==> result == Err::<LoadFile, Status>(status),
    {
        if status.is_success() {
            Ok(LoadFile { protocol })
        } else {
            Err(status)
        }
    }

    pub fn protocol(&self) -> (address: usize)
        ensures
            address == self.address(),
    {
        self.protocol
    }

    /// The status of a load, as the driver reported it.
    pub fn load_file(&self, status: Status) -> (reported: Status)
        ensures
            reported == status,
    {
        status
    }
}

} // verus!
