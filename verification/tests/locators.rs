use efi_protocols::guid::Guid;
use efi_protocols::protocols::efi_loaded_image::efi_loaded_image::{
    LoadedImage, LoadedImageTable, Unload,
};
use efi_protocols::protocols::efi_loaded_image::efi_loaded_image_device_path::LoadedImageDevicePath;
use efi_protocols::protocols::media::file::File;
use efi_protocols::protocols::media::load_file::LoadFile;
use efi_protocols::protocols::media::simple_file_system::FileSystem;
use efi_protocols::status::Status;

fn same(ours: Guid, theirs: r_efi::efi::Guid) -> bool {
    let rebuilt = r_efi::efi::Guid::from_fields(
        ours.time_low,
        ours.time_mid,
        ours.time_hi_and_version,
        ours.clk_seq_hi_res,
        ours.clk_seq_low,
        &ours.node,
    );
    rebuilt.as_bytes() == theirs.as_bytes()
}

fn table(has_unload: bool) -> LoadedImageTable {
    LoadedImageTable {
        revision: 0x1000,
        parent_handle: 0,
        system_table: 0xa000,
        device_handle: 0xb000,
        file_path: 0xc000,
        reserved: 0,
        load_options_size: 12,
        load_options: 0xd000,
        image_base: 0x40_0000,
        image_size: 0x2_0000,
        image_code_type: 1,
        image_data_type: 2,
        has_unload,
    }
}

#[test]
fn protocol_tags_are_those_firmware_knows() {
    assert!(same(LoadedImage::guid(), r_efi::protocols::loaded_image::PROTOCOL_GUID));
    assert!(same(LoadFile::guid(), r_efi::protocols::load_file::PROTOCOL_GUID));
    assert!(same(FileSystem::guid(), r_efi::protocols::simple_file_system::PROTOCOL_GUID));
    assert!(same(
        LoadedImageDevicePath::new().guid(),
        r_efi::protocols::loaded_image_device_path::PROTOCOL_GUID
    ));
    assert_eq!(
        LoadedImage::guid(),
        Guid {
            time_low: 0x5b1b31a1,
            time_mid: 0x9562,
            time_hi_and_version: 0x11d2,
            clk_seq_hi_res: 0x8e,
            clk_seq_low: 0x3f,
            node: [0x00, 0xa0, 0xc9, 0x69, 0x72, 0x3b],
        }
    );
    assert_eq!(
        LoadedImageDevicePath::new().guid(),
        Guid {
            time_low: 0xbc62157e,
            time_mid: 0x3e33,
            time_hi_and_version: 0x4fec,
            clk_seq_hi_res: 0x99,
            clk_seq_low: 0x20,
            node: [0x2d, 0x3b, 0x36, 0xd7, 0x50, 0xdf],
        }
    );
    assert_eq!(LoadFile::guid().time_low, 0x56ec3091);
    assert_eq!(LoadFile::guid().time_mid, 0x954c);
    assert_eq!(FileSystem::guid().time_low, 0x964e5b22);
    assert_eq!(FileSystem::guid().time_mid, 0x6459);
    assert_eq!(FileSystem::guid().clk_seq_low, 0x39);
}

#[test]
fn a_failed_lookup_yields_no_wrapper() {
    assert_eq!(LoadedImage::new(Status::not_found(), 0, table(false)), Err(Status::not_found()));
    assert_eq!(LoadFile::new(Status::not_found(), 0), Err(Status::not_found()));
    assert_eq!(FileSystem::new(Status::not_found(), 0, 0), Err(Status::not_found()));
    assert_eq!(LoadFile::new(Status::not_found(), 0x500), Err(Status::not_found()));
}

#[test]
fn a_successful_lookup_wraps_the_address() {
    let image = LoadedImage::new(Status::success(), 0x100, table(true)).unwrap();
    assert_eq!(image.protocol(), 0x100);
    let loader = LoadFile::new(Status::success(), 0x200).unwrap();
    assert_eq!(loader.protocol(), 0x200);
    let volume = FileSystem::new(Status::success(), 0x300, 0x0001_0000).unwrap();
    assert_eq!(volume.protocol(), 0x300);
    assert_eq!(volume.revision(), 0x0001_0000);
    assert_eq!(volume.revision(), r_efi::protocols::simple_file_system::REVISION);
}

#[test]
fn loaded_image_exposes_its_fields() {
    let image = LoadedImage::new(Status::success(), 0x100, table(true)).unwrap();
    assert_eq!(image.revision(), 0x1000);
    assert_eq!(image.parent_handle(), 0);
    assert_eq!(image.system_table(), 0xa000);
    assert_eq!(image.device_handle(), 0xb000);
    assert_eq!(image.file_path(), 0xc000);
    assert_eq!(image.reserved(), 0);
    assert_eq!(image.load_options_size(), 12);
    assert_eq!(image.load_options(), 0xd000);
    assert_eq!(image.image_base(), 0x40_0000);
    assert_eq!(image.image_size(), 0x2_0000);
    assert_eq!(image.image_code_type(), 1);
    assert_eq!(image.image_data_type(), 2);
}

#[test]
fn unload_without_a_routine_is_not_found() {
    let image = LoadedImage::new(Status::success(), 0x100, table(false)).unwrap();
    assert_eq!(image.unload(0x9000), Unload::Done(Status::not_found()));
}

#[test]
fn unload_with_a_routine_calls_it_with_the_handle() {
    let image = LoadedImage::new(Status::success(), 0x100, table(true)).unwrap();
    assert_eq!(image.unload(0x9000), Unload::Call { image_handle: 0x9000 });
}

#[test]
fn open_volume_hands_out_the_root_or_the_status() {
    let volume = FileSystem::new(Status::success(), 0x300, 0x0001_0000).unwrap();
    assert_eq!(volume.open_volume(Status::success(), 0x2000, 0x0002_0000), Ok(File::new(0x2000, 0x0002_0000)));
    let unsupported = Status::from_usize(r_efi::efi::Status::UNSUPPORTED.as_usize());
    assert_eq!(volume.open_volume(unsupported, 0x2000, 0x0002_0000), Err(unsupported));
    let changed = Status::from_usize(r_efi::efi::Status::MEDIA_CHANGED.as_usize());
    assert_eq!(volume.open_volume(changed, 0, 0x0002_0000), Err(changed));
}

#[test]
fn load_file_reports_the_driver_status() {
    let loader = LoadFile::new(Status::success(), 0x200).unwrap();
    assert_eq!(loader.load_file(Status::success()), Status::success());
    assert_eq!(loader.load_file(Status::buffer_too_small()), Status::buffer_too_small());
}
