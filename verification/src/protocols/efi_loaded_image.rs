//! The loaded-image protocol and its device-path sibling.

pub mod efi_loaded_image;
pub mod efi_loaded_image_device_path;
