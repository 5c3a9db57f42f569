//! Protocol and record tags: 128-bit identifiers in the field layout of the
//! UEFI specification.

use vstd::prelude::*;

verus! {

/// A tag, by its fields in native byte order.
#[derive(Clone, Copy, Debug, PartialEq, Eq)]
pub struct Guid {
    pub time_low: u32,
    pub time_mid: u16,
    pub time_hi_and_version: u16,
    pub clk_seq_hi_res: u8,
    pub clk_seq_low: u8,
    pub node: [u8; 6],
}

/// The mathematical value of a tag.
pub struct GuidFields {
    pub time_low: u32,
    pub time_mid: u16,
    pub time_hi_and_version: u16,
    pub clk_seq_hi_res: u8,
    pub clk_seq_low: u8,
    pub node: Seq<u8>,
}

impl View for Guid {
    type V = GuidFields;

    open spec fn view(&self) -> GuidFields {
        GuidFields {
            time_low: self.time_low,
            time_mid: self.time_mid,
            time_hi_and_version: self.time_hi_and_version,
            clk_seq_hi_res: self.clk_seq_hi_res,
            clk_seq_low: self.clk_seq_low,
            node: self.node@,
        }
    }
}

/// The node shared by the tags that date from the first EFI specification.
pub open spec fn efi_node() -> Seq<u8> {
    seq![0x00u8, 0xa0u8, 0xc9u8, 0x69u8, 0x72u8, 0x3bu8]
}

/// Tag of the file information record: `09576e92-6d3f-11d2-8e39-00a0c969723b`.
pub open spec fn file_info_tag() -> GuidFields {
    GuidFields {
        time_low: 0x09576e92,
        time_mid: 0x6d3f,
        time_hi_and_version: 0x11d2,
        clk_seq_hi_res: 0x8e,
        clk_seq_low: 0x39,
        node: efi_node(),
    }
}

/// Tag of the volume information record: `09576e93-6d3f-11d2-8e39-00a0c969723b`.
pub open spec fn system_info_tag() -> GuidFields {
    GuidFields {
        time_low: 0x09576e93,
        time_mid: 0x6d3f,
        time_hi_and_version: 0x11d2,
        clk_seq_hi_res: 0x8e,
        clk_seq_low: 0x39,
        node: efi_node(),
    }
}

/// Tag of the volume label record: `db47d7d3-fe81-11d3-9a35-0090273fc14d`.
pub open spec fn system_volume_label_tag() -> GuidFields {
    GuidFields {
        time_low: 0xdb47d7d3,
        time_mid: 0xfe81,
        time_hi_and_version: 0x11d3,
        clk_seq_hi_res: 0x9a,
        clk_seq_low: 0x35,
        node: seq![0x00u8, 0x90u8, 0x27u8, 0x3fu8, 0xc1u8, 0x4du8],
    }
}

/// Tag of the loaded-image protocol: `5b1b31a1-9562-11d2-8e3f-00a0c969723b`.
pub open spec fn loaded_image_tag() -> GuidFields {
    GuidFields {
        time_low: 0x5b1b31a1,
        time_mid: 0x9562,
        time_hi_and_version: 0x11d2,
        clk_seq_hi_res: 0x8e,
        clk_seq_low: 0x3f,
        node: efi_node(),
    }
}

/// Tag of the loaded-image device-path protocol:
/// `bc62157e-3e33-4fec-9920-2d3b36d750df`.
pub open spec fn loaded_image_device_path_tag() -> GuidFields {
    GuidFields {
        time_low: 0xbc62157e,
        time_mid: 0x3e33,
        time_hi_and_version: 0x4fec,
        clk_seq_hi_res: 0x99,
        clk_seq_low: 0x20,
        node: seq![0x2du8, 0x3bu8, 0x36u8, 0xd7u8, 0x50u8, 0xdfu8],
    }
}

/// Tag of the load-file protocol: `56ec3091-954c-11d2-8e3f-00a0c969723b`.
pub open spec fn load_file_tag() -> GuidFields {
    GuidFields {
        time_low: 0x56ec3091,
        time_mid: 0x954c,
        time_hi_and_version: 0x11d2,
        clk_seq_hi_res: 0x8e,
        clk_seq_low: 0x3f,
        node: efi_node(),
    }
}

/// Tag of the simple-file-system protocol:
/// `964e5b22-6459-11d2-8e39-00a0c969723b`.
pub open spec fn simple_file_system_tag() -> GuidFields {
    GuidFields {
        time_low: 0x964e5b22,
        time_mid: 0x6459,
        time_hi_and_version: 0x11d2,
        clk_seq_hi_res: 0x8e,
        clk_seq_low: 0x39,
        node: efi_node(),
    }
}

/// `protocols::file::INFO_ID` of `r_efi`, taken apart by `Guid::as_fields`:
/// the fields are those the constant was made from.
#[verifier::external_body]
pub(crate) fn file_info_id() -> (guid: Guid)
    ensures
        guid@ == file_info_tag(),
{
    let (time_low, time_mid, time_hi_and_version, clk_seq_hi_res, clk_seq_low, node) =
        r_efi::protocols::file::INFO_ID.as_fields();
    Guid { time_low, time_mid, time_hi_and_version, clk_seq_hi_res, clk_seq_low, node: *node }
}

/// `protocols::file::SYSTEM_INFO_ID` of `r_efi`, taken apart by
/// `Guid::as_fields`: the fields are those the constant was made from.
#[verifier::external_body]
pub(crate) fn system_info_id() -> (guid: Guid)
    ensures
        guid@ == system_info_tag(),
{
    let (time_low, time_mid, time_hi_and_version, clk_seq_hi_res, clk_seq_low, node) =
        r_efi::protocols::file::SYSTEM_INFO_ID.as_fields();
    Guid { time_low, time_mid, time_hi_and_version, clk_seq_hi_res, clk_seq_low, node: *node }
}

/// `protocols::file::SYSTEM_VOLUME_LABEL_ID` of `r_efi`, taken apart by
/// `Guid::as_fields`: the fields are those the constant was made from.
#[verifier::external_body]
pub(crate) fn system_volume_label_id() -> (guid: Guid)
    ensures
        guid@ == system_volume_label_tag(),
{
    let (time_low, time_mid, time_hi_and_version, clk_seq_hi_res, clk_seq_low, node) =
        r_efi::protocols::file::SYSTEM_VOLUME_LABEL_ID.as_fields();
    Guid { time_low, time_mid, time_hi_and_version, clk_seq_hi_res, clk_seq_low, node: *node }
}

/// `protocols::loaded_image::PROTOCOL_GUID` of `r_efi`, taken apart by
/// `Guid::as_fields`: the fields are those the constant was made from.
#[verifier::external_body]
pub(crate) fn loaded_image_guid() -> (guid: Guid)
    ensures
        guid@ == loaded_image_tag(),
{
    let (time_low, time_mid, time_hi_and_version, clk_seq_hi_res, clk_seq_low, node) =
        r_efi::protocols::loaded_image::PROTOCOL_GUID.as_fields();
    Guid { time_low, time_mid, time_hi_and_version, clk_seq_hi_res, clk_seq_low, node: *node }
}

/// `protocols::loaded_image_device_path::PROTOCOL_GUID` of `r_efi`, taken
/// apart by `Guid::as_fields`: the fields are those the constant was made from.
#[verifier::external_body]
pub(crate) fn loaded_image_device_path_guid() -> (guid: Guid)
    ensures
        guid@ == loaded_image_device_path_tag(),
{
    let (time_low, time_mid, time_hi_and_version, clk_seq_hi_res, clk_seq_low, node) =
        r_efi::protocols::loaded_image_device_path::PROTOCOL_GUID.as_fields();
    Guid { time_low, time_mid, time_hi_and_version, clk_seq_hi_res, clk_seq_low, node: *node }
}

/// `protocols::load_file::PROTOCOL_GUID` of `r_efi`, taken apart by
/// `Guid::as_fields`: the fields are those the constant was made from.
#[verifier::external_body]
pub(crate) fn load_file_guid() -> (guid: Guid)
    ensures
        guid@ == load_file_tag(),
{
    let (time_low, time_mid, time_hi_and_version, clk_seq_hi_res, clk_seq_low, node) =
        r_efi::protocols::load_file::PROTOCOL_GUID.as_fields();
    Guid { time_low, time_mid, time_hi_and_version, clk_seq_hi_res, clk_seq_low, node: *node }
}

/// `protocols::simple_file_system::PROTOCOL_GUID` of `r_efi`, taken apart by
/// `Guid::as_fields`: the fields are those the constant was made from.
#[verifier::external_body]
pub(crate) fn simple_file_system_guid() -> (guid: Guid)
    ensures
        guid@ == simple_file_system_tag(),
{
    let (time_low, time_mid, time_hi_and_version, clk_seq_hi_res, clk_seq_low, node) =
        r_efi::protocols::simple_file_system::PROTOCOL_GUID.as_fields();
    Guid { time_low, time_mid, time_hi_and_version, clk_seq_hi_res, clk_seq_low, node: *node }
}

} // verus!
