//! The simple-file-system protocol, which opens a volume.

use crate::guid::{simple_file_system_guid, simple_file_system_tag, Guid};
use crate::protocols::media::file::File;
use crate::status::Status;
use vstd::prelude::*;

verus! {

/// A located simple-file-system protocol.
#[derive(Clone, Copy, Debug, PartialEq, Eq)]
pub struct FileSystem {
    protocol: usize,
    revision: u64,
}

impl FileSystem {
    /// The address of the firmware structure.
    pub closed spec fn address(&self) -> usize {
        self.protocol
    }

    /// The revision that the firmware structure declares.
    pub closed spec fn declared_revision(&self) -> u64 {
        self.revision
    }

    /// The tag under which firmware is asked for this protocol.
    pub fn guid() -> (guid: Guid)
        ensures
            guid@ == simple_file_system_tag(),
    {
        simple_file_system_guid()
    }

    /// The result of locating the protocol: a wrapper of the structure at
    /// `protocol`, which declares `revision`, if firmware reported success;
    /// its status, and no wrapper, otherwise. `revision` is not looked at
    /// unless the lookup succeeded.
    pub fn new(status: Status, protocol: usize, revision: u64) -> (result: Result<
        FileSystem,
        Status,
    >)
        ensures
            status.spec_is_success() ==> (result matches Ok(volume) && volume.address()
                == protocol && volume.declared_revision() == revision),
            !status.spec_is_success() ==> result == Err::<FileSystem, Status>(status),
    {
        if status.is_success() {
            Ok(FileSystem { protocol, revision })
        } else {
            Err(status)
        }
    }

    /// The revision of the file protocol that the volume speaks.
    pub fn revision(&self) -> (value: u64)
        ensures
            value == self.declared_revision(),
    {
        self.revision
    }

    pub fn protocol(&self) -> (address: usize)
        ensures
            address == self.address(),
    {
        self.protocol
    }

    /// The result of opening the volume: a usable handle on its root
    /// directory at `root`, which declares `revision`, if firmware reported
    /// success; its status, and no handle, otherwise.
    pub fn open_volume(&self, status: Status, root: usize, revision: u64) -> (result: Result<
        File,
        Status,
    >)
        ensures
            status.spec_is_success() ==> (result matches Ok(file) && file.address() == root
                && file.declared_revision() == revision && file.is_open()),
            !status.spec_is_success() ==> result == Err::<File, Status>(status),
    {
        if status.is_success() {
            Ok(File::new(root, revision))
        } else {
            Err(status)
        }
    }
}

} // verus!
