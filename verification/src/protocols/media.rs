//! Media access: files, volumes and the load-file driver interface.

pub mod file;
pub mod load_file;
pub mod simple_file_system;
