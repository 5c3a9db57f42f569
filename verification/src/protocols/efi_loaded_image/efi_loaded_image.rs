//! The loaded-image protocol: what firmware knows about an image it loaded.

use crate::guid::{loaded_image_guid, loaded_image_tag, Guid};
use crate::status::Status;
use vstd::prelude::*;

verus! {

/// The contents of the firmware structure that describes a loaded image.
/// Handles and pointers are kept as addresses.
#[derive(Clone, Copy, Debug, PartialEq, Eq)]
pub struct LoadedImageTable {
    pub revision: u32,
    pub parent_handle: usize,
    pub system_table: usize,
    pub device_handle: usize,
    pub file_path: usize,
    pub reserved: usize,
    pub load_options_size: u32,
    pub load_options: usize,
    pub image_base: usize,
    pub image_size: u64,
    pub image_code_type: u32,
    pub image_data_type: u32,
    /// Whether the image registered a routine to unload it.
    pub has_unload: bool,
}

/// What unloading an image comes to.
#[derive(Clone, Copy, Debug, PartialEq, Eq)]
pub enum Unload {
    /// Call the routine that the image registered, with this handle; its
    /// status is the outcome.
    Call { image_handle: usize },
    /// Nothing to call; this status is the outcome.
    Done(Status),
}

/// A located loaded-image protocol.
#[derive(Clone, Copy, Debug, PartialEq, Eq)]
pub struct LoadedImage {
    protocol: usize,
    table: LoadedImageTable,
}

impl LoadedImage {
    /// The address of the firmware structure.
    pub closed spec fn address(&self) -> usize {
        self.protocol
    }

    /// The contents of the firmware structure.
    pub closed spec fn contents(&self) -> LoadedImageTable {
        self.table
    }

    /// The tag under which firmware is asked for this protocol.
    pub fn guid() -> (guid: Guid)
        ensures
            guid@ == loaded_image_tag(),
    {
        loaded_image_guid()
    }

    /// The result of locating the protocol: a wrapper of the structure at
    /// `protocol`, whose contents are `table`, if firmware reported success;
    /// its status, and no wrapper, otherwise. `table` is not looked at
    /// unless the lookup succeeded.
    pub fn new(status: Status, protocol: usize, table: LoadedImageTable) -> (result: Result<
        LoadedImage,
        Status,
    >)
        ensures
            status.spec_is_success() ==> (result matches Ok(image) && image.address() == protocol
                && image.contents() == table),
            !status.spec_is_success() ==> result == Err::<LoadedImage, Status>(status),
    {
        if status.is_success() {
            Ok(LoadedImage { protocol, table })
        } else {
            Err(status)
        }
    }

    pub fn protocol(&self) -> (address: usize)
        ensures
            address == self.address(),
    {
        self.protocol
    }

    /// The revision of the protocol structure.
    pub fn revision(&self) -> (value: u32)
        ensures
            value == self.contents().revision,
    {
        self.table.revision
    }

    /// The handle of the parent image, zero if the boot manager loaded the
    /// image directly.
    pub fn parent_handle(&self) -> (value: usize)
        ensures
            value == self.contents().parent_handle,
    {
        self.table.parent_handle
    }

    /// The address of the image's system table.
    pub fn system_table(&self) -> (value: usize)
        ensures
            value == self.contents().system_table,
    {
        self.table.system_table
    }

    /// The handle of the device the image was loaded from.
    pub fn device_handle(&self) -> (value: usize)
        ensures
            value == self.contents().device_handle,
    {
        self.table.device_handle
    }

    /// The address of the device path of the image's file.
    pub fn file_path(&self) -> (value: usize)
        ensures
            value == self.contents().file_path,
    {
        self.table.file_path
    }

    /// Reserved by firmware.
    pub fn reserved(&self) -> (value: usize)
        ensures
            value == self.contents().reserved,
    {
        self.table.reserved
    }

    /// The size of the load options in bytes.
    pub fn load_options_size(&self) -> (value: u32)
        ensures
            value == self.contents().load_options_size,
    {
        self.table.load_options_size
    }

    /// The address of the image's binary load options.
    pub fn load_options(&self) -> (value: usize)
        ensures
            value == self.contents().load_options,
    {
        self.table.load_options
    }

    /// The address at which the image was loaded.
    pub fn image_base(&self) -> (value: usize)
        ensures
            value == self.contents().image_base,
    {
        self.table.image_base
    }

    /// The size of the loaded image in bytes.
    pub fn image_size(&self) -> (value: u64)
        ensures
            value == self.contents().image_size,
    {
        self.table.image_size
    }

    /// The memory type of the image's code sections.
    pub fn image_code_type(&self) -> (value: u32)
        ensures
            value == self.contents().image_code_type,
    {
        self.table.image_code_type
    }

    /// The memory type of the image's data sections.
    pub fn image_data_type(&self) -> (value: u32)
        ensures
            value == self.contents().image_data_type,
    {
        self.table.image_data_type
    }

    /// Decides how the image is unloaded: through the routine it registered,
    /// called with `image_handle`, or, if it registered none, not at all,
    /// with "not found".
    pub fn unload(&self, image_handle: usize) -> (decision: Unload)
        ensures
            self.contents().has_unload ==> decision == (Unload::Call { image_handle }),
            !self.contents().has_unload ==> decision == Unload::Done(Status::spec_not_found()),
    {
        if self.table.has_unload {
            Unload::Call { image_handle }
        } else {
            Unload::Done(Status::not_found())
        }
    }
}

} // verus!
