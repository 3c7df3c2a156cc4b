//! The file-system front: flags for opening and seeking, and `open`, which
//! in this kernel knows devices only.

use crate::console::str_eq;
use crate::resource::{Device, Resource};
use vstd::prelude::*;

verus! {

/// Open for reading.
pub const READ: u8 = 1;

/// Open for writing.
pub const WRITE: u8 = 2;

/// Open for reading and writing.
pub const READWRITE: u8 = 3;

/// Write at the end.
pub const APPEND: u8 = 4;

/// Create what does not exist.
pub const CREATE: u8 = 8;

/// Empty the file on opening.
pub const TRUNCATE: u8 = 16;

/// The path names a directory.
pub const DIR: u8 = 32;

/// The path names a device.
pub const DEVICE: u8 = 64;

/// Seek from the start.
pub const SEEK_START: u8 = 1;

/// Seek from the current position.
pub const SEEK_CURRENT: u8 = 2;

/// Seek from the end.
pub const SEEK_END: u8 = 4;

/// How a path is to be opened: a set of flags in one byte.
#[derive(Debug, Clone, Copy, PartialEq, Eq, Structural)]
pub struct OpenFlag {
    pub bits: u8,
}

impl OpenFlag {
    /// The flags in `bits`, unless a bit is set that stands for no flag.
    pub fn from_bits(bits: u8) -> (flags: Option<OpenFlag>)
        ensures
            flags == if bits & 0x80 == 0 {
                Some(OpenFlag { bits })
            } else {
                None
            },
    {
        if bits & 0x80 == 0 {
            Some(OpenFlag { bits })
        } else {
            None
        }
    }

    /// Whether every flag of `mask` is set.
    pub open spec fn has(self, mask: u8) -> bool {
        self.bits & mask == mask
    }

    /// Whether every flag of `mask` is set.
    pub fn contains(self, mask: u8) -> (r: bool)
        ensures
            r == self.has(mask),
    {
        self.bits & mask == mask
    }
}

/// Where a seek counts from: a set of flags in one byte.
#[derive(Debug, Clone, Copy, PartialEq, Eq, Structural)]
pub struct SeekFlag {
    pub bits: u8,
}

impl SeekFlag {
    /// The flags in `bits`, unless a bit is set that stands for no flag.
    pub fn from_bits(bits: u8) -> (flags: Option<SeekFlag>)
        ensures
            flags == if bits & 0xF8 == 0 {
                Some(SeekFlag { bits })
            } else {
                None
            },
    {
        if bits & 0xF8 == 0 {
            Some(SeekFlag { bits })
        } else {
            None
        }
    }
}

/// Whether a file is a directory or a plain file.
#[derive(Debug, Clone, Copy, PartialEq, Eq, Structural)]
pub enum FileKind {
    Dir,
    File,
}

/// The device that a path names, if it names one.
pub open spec fn device_at(path: Seq<char>) -> Option<Device> {
    if path == "/dev/null"@ {
        Some(Device::Null)
    } else if path == "/dev/console"@ {
        Some(Device::Console)
    } else {
        None
    }
}

/// What opening `path` with the flags in the low byte of `flags` gives.
///
/// Nothing is opened when a bit is set that stands for no flag, when
/// neither reading nor writing is asked for, or when a directory is asked
/// for. With the device flag the path must name a device. Without it the
/// path would name a file, and there is no file system to find it in.
pub open spec fn opened(path: Seq<char>, flags: usize) -> Option<Resource> {
    let bits = (flags & 0xFF) as u8;
    if bits & 0x80 != 0 {
        None
    } else if bits & 1 != 1 && bits & 2 != 2 {
        None
    } else if bits & 32 == 32 {
        None
    } else if bits & 64 == 64 {
        match device_at(path) {
            Some(dev) => Some(Resource::Device(dev)),
            None => None,
        }
    } else {
        None
    }
}

/// Opens `path` with the flags in the low byte of `flags`.
pub fn open(path: &str, flags: usize) -> (r: Option<Resource>)
    ensures
        r == opened(path@, flags),
{
    let bits: u8 = (flags & 0xFF) as u8;
    let open_flag = match OpenFlag::from_bits(bits) {
        Some(f) => f,
        None => {
            return None;
        },
    };
    if !(open_flag.contains(READ) || open_flag.contains(WRITE)) {
        return None;
    }
    if open_flag.contains(DIR) {
        None
    } else if open_flag.contains(DEVICE) {
        if str_eq(path, "/dev/null") {
            Some(Resource::Device(Device::Null))
        } else if str_eq(path, "/dev/console") {
            Some(Resource::Device(Device::Console))
        } else {
            None
        }
    } else {
        None
    }
}

impl crate::resource::File {
    /// Opens the file at `path`. There is no file system to find it in, so
    /// no file is ever opened.
    pub fn open(path: &str) -> (f: Option<crate::resource::File>)
        ensures
            f is None,
    {
        None
    }
}

impl crate::resource::Directory {
    /// Opens the directory at `path`. There is no file system to find it
    /// in, so no directory is ever opened.
    pub fn open(path: &str) -> (d: Option<crate::resource::Directory>)
        ensures
            d is None,
    {
        None
    }
}

} // verus!
