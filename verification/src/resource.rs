//! What a handle stands for: a device, a file or a directory, with one
//! read and write contract for all of them.

use crate::console::Console;
use crate::console::utf8_fit;
use vstd::prelude::*;

verus! {

/// A directory on disk.
#[derive(Debug, Clone, Copy, PartialEq, Eq)]
pub struct Directory {
    /// Address of the parent directory; the root has none.
    pub parent: Option<u32>,
    pub addr: u32,
    pub size: u32,
}

impl Directory {
    /// Whether this is the root directory.
    pub fn is_root(&self) -> (r: bool)
        ensures
            r == (self.parent is None),
    {
        self.parent.is_none()
    }
}

/// An open file: where it lies, and the position of the next access.
#[derive(Debug, Clone, Copy, PartialEq, Eq)]
pub struct File {
    pub dir: Directory,
    pub addr: u32,
    pub size: u32,
    pub offset: u32,
}

/// A device.
#[derive(Debug, Clone, Copy, PartialEq, Eq, Structural)]
pub enum Device {
    /// Reads nothing and swallows what is written.
    Null,
    /// The console.
    Console,
}

/// What a handle stands for.
#[derive(Debug, Clone, Copy, PartialEq, Eq)]
pub enum Resource {
    Device(Device),
    File(File),
    Directory(Directory),
}

/// How a read ended.
#[derive(Debug, PartialEq, Eq)]
pub enum ReadResult {
    /// The bytes that were read; none at the end of the stream.
    Data(Vec<u8>),
    /// The input is not there yet: wait for an interrupt and read again.
    Blocked,
    /// The resource cannot be read.
    Failed,
}

/// A read that found the end of the stream: it succeeded with no bytes.
pub open spec fn at_end(r: ReadResult) -> bool {
    r matches ReadResult::Data(bytes) && bytes@.len() == 0
}

/// What one attempt at reading `len` bytes from the console does. A buffer
/// of four bytes takes the oldest character, and switches echo on and raw
/// mode off; any other takes the whole input once it ends in a line feed.
/// The bytes are the UTF-8 encoding of what was taken, cut to what fits.
/// Screen and serial line stay as they are. While the input is not there
/// the read blocks and nothing changes. A console read never fails.
pub open spec fn console_read(before: Console, after: Console, len: usize, r: ReadResult) -> bool {
    match r {
        ReadResult::Data(bytes) => {
            &&& after.vga == before.vga
            &&& after.vga_parser == before.vga_parser
            &&& after.serial == before.serial
            &&& after.to_vga == before.to_vga
            &&& after.to_serial == before.to_serial
            &&& bytes@.len() <= len
            &&& if len == 4 {
                &&& before.input@.len() > 0
                &&& bytes@ == utf8_fit(seq![before.input@[0]], 4)
                &&& after.input@ == before.input@.drop_first()
                &&& after.echo
                &&& !after.raw
            } else {
                &&& before.input@.len() > 0
                &&& before.input@.last() == '\n'
                &&& bytes@ == utf8_fit(before.input@, len as int)
                &&& after.input@ == Seq::<char>::empty()
                &&& after.echo == before.echo
                &&& after.raw == before.raw
            }
        },
        ReadResult::Blocked => {
            &&& after == before
            &&& if len == 4 {
                before.input@.len() == 0
            } else {
                !(before.input@.len() > 0 && before.input@.last() == '\n')
            }
        },
        ReadResult::Failed => false,
    }
}

impl Device {
    /// One attempt at reading up to `len` bytes. The null device is always
    /// at its end; the console reads as [`Console::read`] does.
    pub fn read(&mut self, console: &mut Console, len: usize) -> (r: ReadResult)
        ensures
            *final(self) == *old(self),
            *old(self) is Null ==> at_end(r) && *final(console) == *old(console),
            *old(self) is Console ==> console_read(*old(console), *final(console), len, r),
            final(console).vga == old(console).vga,
            final(console).vga_parser == old(console).vga_parser,
            final(console).serial == old(console).serial,
            final(console).to_vga == old(console).to_vga,
            final(console).to_serial == old(console).to_serial,
    {
        match self {
            Device::Null => ReadResult::Data(Vec::new()),
            Device::Console => match console.read(len) {
                Some(bytes) => ReadResult::Data(bytes),
                None => ReadResult::Blocked,
            },
        }
    }

    /// Writes a buffer. The null device takes all of it and keeps nothing;
    /// the console prints it. Either way the whole length is returned.
    pub fn write(&mut self, console: &mut Console, buf: &[u8]) -> (r: Result<usize, ()>)
        requires
            old(console).wf(),
        ensures
            *final(self) == *old(self),
            r == Ok::<usize, ()>(buf@.len() as usize),
            final(console).wf(),
            *old(self) is Null ==> *final(console) == *old(console),
            *old(self) is Console ==> final(console)@ == old(console)@.print(buf@),
            final(console).input == old(console).input,
            !old(console).to_vga ==> final(console).vga == old(console).vga,
            !old(console).to_serial ==> final(console).serial == old(console).serial,
    {
        match self {
            Device::Null => Ok(buf.len()),
            Device::Console => Ok(console.write(buf)),
        }
    }
}

impl Resource {
    /// One attempt at reading up to `len` bytes. A device reads as
    /// [`Device::read`] does; files and directories have no backing store
    /// and fail.
    pub fn read(&mut self, console: &mut Console, len: usize) -> (r: ReadResult)
        ensures
            *final(self) == *old(self),
            !(*old(self) is Device) ==> r is Failed && *final(console) == *old(console),
            *old(self) == Resource::Device(Device::Null) ==> at_end(r)
                && *final(console) == *old(console),
            *old(self) == Resource::Device(Device::Console) ==> console_read(
                *old(console),
                *final(console),
                len,
                r,
            ),
            final(console).vga == old(console).vga,
            final(console).vga_parser == old(console).vga_parser,
            final(console).serial == old(console).serial,
            final(console).to_vga == old(console).to_vga,
            final(console).to_serial == old(console).to_serial,
    {
        match self {
            Resource::Device(dev) => dev.read(console, len),
            Resource::File(_) => ReadResult::Failed,
            Resource::Directory(_) => ReadResult::Failed,
        }
    }

    /// Writes a buffer. A device takes all of it, as [`Device::write`]
    /// says; files and directories have no backing store and fail.
    pub fn write(&mut self, console: &mut Console, buf: &[u8]) -> (r: Result<usize, ()>)
        requires
            old(console).wf(),
        ensures
            *final(self) == *old(self),
            r == if *old(self) is Device {
                Ok::<usize, ()>(buf@.len() as usize)
            } else {
                Err::<usize, ()>(())
            },
            final(console).wf(),
            *old(self) != Resource::Device(Device::Console) ==> *final(console) == *old(console),
            *old(self) == Resource::Device(Device::Console) ==> final(console)@ == old(console)@.print(buf@),
            final(console).input == old(console).input,
            !old(console).to_vga ==> final(console).vga == old(console).vga,
            !old(console).to_serial ==> final(console).serial == old(console).serial,
    {
        match self {
            Resource::Device(dev) => dev.write(console, buf),
            Resource::File(_) => Err(()),
            Resource::Directory(_) => Err(()),
        }
    }
}

} // verus!
