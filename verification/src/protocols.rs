//! The protocols this library knows, grouped as the UEFI specification does.

pub mod efi_loaded_image;
pub mod logger;
pub mod media;
