//! A WASI snapshot-preview-1 host core: wire codec, guest memory access,
//! rich-type conversion, syscall dispatch and the descriptor table.

pub mod adapter;
pub mod buffers;
pub mod character_device;
pub mod clock;
pub mod dirents;
pub mod entry;
pub mod fd_table;
pub mod host;
pub mod imports;
pub mod native;
pub mod primitives;
pub mod ptr;
pub mod records;
pub mod string_representation;
pub mod types;
pub mod value;
pub mod wasi_fd;
pub mod wire;
