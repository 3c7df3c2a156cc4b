//! The services behind the system calls, as the kernel carries them out for
//! the running process.

use crate::console::Console;
use crate::fs::opened;
use crate::kernel::Kernel;
use crate::process::{first_free, ExitCode, ProcessId};
use crate::resource::{console_read, Device, ReadResult, Resource};
use vstd::prelude::*;

verus! {

/// A number of bytes as a call's result: the number itself, as long as a
/// result can hold it.
pub open spec fn count(n: nat) -> isize {
    if n <= isize::MAX {
        n as isize
    } else {
        isize::MAX
    }
}

/// A number of bytes as a call's result.
pub fn as_count(n: usize) -> (r: isize)
    ensures
        r == count(n as nat),
        r >= 0,
{
    if n <= isize::MAX as usize {
        n as isize
    } else {
        isize::MAX
    }
}

/// How a read service ended.
#[derive(Debug, PartialEq, Eq)]
pub enum ReadOutcome {
    /// The call is over: its result, and the bytes for the caller's buffer.
    Done(isize, Vec<u8>),
    /// The input is not there yet: wait for an interrupt and serve the call
    /// again.
    Blocked,
}

/// A read that failed: the result is -1 and no bytes come back.
pub open spec fn read_failed(r: ReadOutcome) -> bool {
    r matches ReadOutcome::Done(n, data) && n == -1 && data@.len() == 0
}

/// What serving a read of `len` bytes from `resource` does to the console
/// and how it ends. Without a resource, and on a file or a directory, the
/// read fails. The null device is at its end at once. The console reads as
/// [`console_read`] says, and the result is the number of bytes read.
pub open spec fn read_served(
    before: Console,
    after: Console,
    resource: Option<Resource>,
    len: usize,
    r: ReadOutcome,
) -> bool {
    match resource {
        Some(Resource::Device(Device::Null)) => after == before && (r matches ReadOutcome::Done(
            n,
            data,
        ) && n == 0 && data@.len() == 0),
        Some(Resource::Device(Device::Console)) => match r {
            ReadOutcome::Done(n, data) => n == count(data@.len()) && console_read(
                before,
                after,
                len,
                ReadResult::Data(data),
            ),
            ReadOutcome::Blocked => console_read(before, after, len, ReadResult::Blocked),
        },
        _ => after == before && read_failed(r),
    }
}

/// What [`read`] does: how it ends, and what it leaves of the kernel.
pub open spec fn read_effect(before: Kernel, after: Kernel, handle: usize, len: usize, r: ReadOutcome) -> bool {
    &&& read_served(
        before.console,
        after.console,
        before.processes.resource(handle),
        len,
        r,
    )
    &&& after.mapper == before.mapper
    &&& after.frame_alloc == before.frame_alloc
    &&& before.processes.resource(handle) is None || r is Blocked ==> after.processes
        == before.processes
    &&& after.processes.current == before.processes.current
    &&& forall|h: usize| after.processes.resource(h) == before.processes.resource(h)
}

/// Reads up to `len` bytes from `handle` of the running process.
pub fn read(kernel: &mut Kernel, handle: usize, len: usize) -> (r: ReadOutcome)
    requires
        old(kernel).wf(),
    ensures
        final(kernel).wf(),
        read_effect(*old(kernel), *final(kernel), handle, len, r),
{
    let mut res = match kernel.processes.handle(handle) {
        Some(res) => res,
        None => {
            return ReadOutcome::Done(-1, Vec::new());
        },
    };
    match res.read(&mut kernel.console, len) {
        ReadResult::Data(bytes) => {
            kernel.processes.set_handle(handle, Some(res));
            proof {
                let p = old(kernel).processes.running()->0;
                assert(p.resource_handles@.update(handle as int, Some(res))
                    =~= p.resource_handles@);
            }
            let n: isize = as_count(bytes.len());
            ReadOutcome::Done(n, bytes)
        },
        ReadResult::Blocked => ReadOutcome::Blocked,
        ReadResult::Failed => ReadOutcome::Done(-1, Vec::new()),
    }
}

/// What [`write`] does: its result, what the console prints, and what it
/// leaves of the kernel. On the console the buffer is printed; the null
/// device swallows it.
pub open spec fn write_effect(
    before: Kernel,
    after: Kernel,
    handle: usize,
    buf: Seq<u8>,
    r: isize,
) -> bool {
    &&& r == if before.processes.resource(handle) is Some && before.processes.resource(
        handle,
    )->0 is Device {
        count(buf.len())
    } else {
        -1isize
    }
    &&& if before.processes.resource(handle) == Some(Resource::Device(Device::Console)) {
        after.console@ == before.console@.print(buf)
    } else {
        after.console == before.console
    }
    &&& after.console.input == before.console.input
    &&& !before.console.to_vga ==> after.console.vga == before.console.vga
    &&& !before.console.to_serial ==> after.console.serial == before.console.serial
    &&& after.mapper == before.mapper
    &&& after.frame_alloc == before.frame_alloc
    &&& after.processes.current == before.processes.current
    &&& forall|h: usize| after.processes.resource(h) == before.processes.resource(h)
}

/// Writes `buf` to `handle` of the running process. Returns the number of
/// bytes written, which on a device is all of them, or -1 without a
/// resource and on a file or a directory.
pub fn write(kernel: &mut Kernel, handle: usize, buf: &[u8]) -> (r: isize)
    requires
        old(kernel).wf(),
    ensures
        final(kernel).wf(),
        write_effect(*old(kernel), *final(kernel), handle, buf@, r),
{
    let mut res = match kernel.processes.handle(handle) {
        Some(res) => res,
        None => {
            return -1;
        },
    };
    let len: usize = buf.len();
    match res.write(&mut kernel.console, buf) {
        Ok(bytes) => {
            assert(bytes == len);
            kernel.processes.set_handle(handle, Some(res));
            proof {
                let p = old(kernel).processes.running()->0;
                assert(p.resource_handles@.update(handle as int, Some(res))
                    =~= p.resource_handles@);
            }
            as_count(bytes)
        },
        Err(_) => -1,
    }
}

/// What [`open`] does: its result, and what it leaves of the kernel.
pub open spec fn open_effect(before: Kernel, after: Kernel, path: Seq<char>, flags: usize, r: isize) -> bool {
    &&& after.console == before.console
    &&& after.mapper == before.mapper
    &&& after.frame_alloc == before.frame_alloc
    &&& match (opened(path, flags), before.processes.running()) {
        (Some(res), Some(p)) => match first_free(p.resource_handles@, 4) {
            Some(h) => r == h && 4 <= h < 64 && before.processes.with_handles(
                after.processes,
                p.resource_handles@.update(h, Some(res)),
            ),
            None => r == -1 && after.processes == before.processes,
        },
        _ => r == -1 && after.processes == before.processes,
    }
}

/// Opens `path` for the running process and returns the new handle, or -1
/// when nothing can be opened or no handle is free.
pub fn open(kernel: &mut Kernel, path: &str, flags: usize) -> (r: isize)
    requires
        old(kernel).wf(),
    ensures
        final(kernel).wf(),
        open_effect(*old(kernel), *final(kernel), path@, flags, r),
{
    let res = match crate::fs::open(path, flags) {
        Some(res) => res,
        None => {
            return -1;
        },
    };
    match kernel.processes.create_handle(res) {
        Ok(h) => h as isize,
        Err(_) => -1,
    }
}

/// What [`close`] leaves of the kernel.
pub open spec fn close_effect(before: Kernel, after: Kernel, handle: usize) -> bool {
    &&& after.console == before.console
    &&& after.mapper == before.mapper
    &&& after.frame_alloc == before.frame_alloc
    &&& match before.processes.running() {
        Some(p) => if handle < 64 {
            before.processes.with_handles(
                after.processes,
                p.resource_handles@.update(handle as int, None),
            )
        } else {
            after.processes == before.processes
        },
        None => after.processes == before.processes,
    }
    &&& after.processes.resource(handle) is None
}

/// Frees `handle` of the running process. A number that is no handle is
/// passed over.
pub fn close(kernel: &mut Kernel, handle: usize)
    requires
        old(kernel).wf(),
    ensures
        final(kernel).wf(),
        close_effect(*old(kernel), *final(kernel), handle),
{
    if handle < 64 {
        kernel.processes.set_handle(handle, None);
    }
}

/// What [`dup`] does: its result, and what it leaves of the kernel.
pub open spec fn dup_effect(before: Kernel, after: Kernel, old_handle: usize, new_handle: usize, r: isize) -> bool {
    &&& after.console == before.console
    &&& after.mapper == before.mapper
    &&& after.frame_alloc == before.frame_alloc
    &&& match before.processes.resource(old_handle) {
        Some(res) => if new_handle < 64 {
            &&& r == new_handle
            &&& before.processes.with_handles(
                after.processes,
                before.processes.running()->0.resource_handles@.update(
                    new_handle as int,
                    Some(res),
                ),
            )
            &&& after.processes.resource(new_handle) == before.processes.resource(old_handle)
        } else {
            r == -1 && after.processes == before.processes
        },
        None => r == -1 && after.processes == before.processes,
    }
}

/// Puts what `old_handle` of the running process stands for under
/// `new_handle` as well, whatever was there, and returns `new_handle`.
/// Returns -1, and changes nothing, when `old_handle` stands for nothing or
/// `new_handle` is no handle.
pub fn dup(kernel: &mut Kernel, old_handle: usize, new_handle: usize) -> (r: isize)
    requires
        old(kernel).wf(),
    ensures
        final(kernel).wf(),
        dup_effect(*old(kernel), *final(kernel), old_handle, new_handle, r),
{
    let res = match kernel.processes.handle(old_handle) {
        Some(res) => res,
        None => {
            return -1;
        },
    };
    if new_handle >= 64 {
        return -1;
    }
    kernel.processes.set_handle(new_handle, Some(res));
    new_handle as isize
}

/// What [`pfork`] does: its result, and what it leaves of the kernel.
pub open spec fn pfork_effect(before: Kernel, after: Kernel, r: isize) -> bool {
    &&& after.console == before.console
    &&& after.mapper == before.mapper
    &&& after.frame_alloc == before.frame_alloc
    &&& after.processes.current == before.processes.current
    &&& if before.processes.running() is Some && before.processes.ids.next_process < 50 {
        r == before.processes.ids.next_process && before.processes.forked(
            after.processes,
        )
    } else {
        r == -1 && after.processes == before.processes
    }
}

/// Forks the running process and returns the child's identifier, or -1
/// when the running process is not alive or the table has no slot left.
pub fn pfork(kernel: &mut Kernel) -> (r: isize)
    requires
        old(kernel).wf(),
    ensures
        final(kernel).wf(),
        pfork_effect(*old(kernel), *final(kernel), r),
{
    match kernel.processes.fork() {
        Some(child) => child.inner() as isize,
        None => -1,
    }
}

/// What [`exit`] does: its result, and what it leaves of the kernel.
pub open spec fn exit_effect(before: Kernel, after: Kernel, code: ExitCode, e: ExitCode) -> bool {
    &&& e == code
    &&& after.console == before.console
    &&& after.frame_alloc == before.frame_alloc
    &&& after.processes.current == before.processes.current
    &&& after.processes.ids == before.processes.ids
    &&& after.processes.code_addr == before.processes.code_addr
    &&& after.processes.slots@ == before.processes.slots@.update(
        before.processes.current as int,
        None,
    )
    &&& match before.processes.running() {
        Some(p) => after.mapper@ == crate::paging::without_range(
            before.mapper@,
            crate::allocator::first_page(p.code_addr),
            crate::allocator::last_page(p.code_addr, crate::process::MAX_PROC_SIZE),
        ),
        None => after.mapper@ == before.mapper@,
    }
}

/// Ends the running process with `code`: it leaves the table, and its
/// address range is unmapped. Returns the code.
pub fn exit(kernel: &mut Kernel, code: ExitCode) -> (e: ExitCode)
    requires
        old(kernel).wf(),
    ensures
        final(kernel).wf(),
        exit_effect(*old(kernel), *final(kernel), code, e),
{
    kernel.processes.exit(code.code(), &mut kernel.mapper);
    code
}

/// Moves the position of `handle`. No resource of this kernel has a
/// position, so this fails with -1.
pub fn seek(kernel: &mut Kernel, handle: usize, offset: usize, flags: usize) -> (r: isize)
    ensures
        r == -1,
        *final(kernel) == *old(kernel),
{
    -1
}

/// Starts a program as a new process. Not offered; fails with -1.
pub fn pspawn(kernel: &mut Kernel) -> (r: isize)
    ensures
        r == -1,
        *final(kernel) == *old(kernel),
{
    -1
}

/// Starts a thread. Not offered; fails with -1.
pub fn tspawn(kernel: &mut Kernel) -> (r: isize)
    ensures
        r == -1,
        *final(kernel) == *old(kernel),
{
    -1
}

/// Clones the running thread. Not offered; fails with -1.
pub fn tclone(kernel: &mut Kernel) -> (r: isize)
    ensures
        r == -1,
        *final(kernel) == *old(kernel),
{
    -1
}

/// Sends a signal to a process. Not offered; fails with -1.
pub fn pkill(kernel: &mut Kernel, pid: usize, signal: usize) -> (r: isize)
    ensures
        r == -1,
        *final(kernel) == *old(kernel),
{
    -1
}

/// Sends a signal to a thread. Not offered; fails with -1.
pub fn tkill(kernel: &mut Kernel, tid: usize, signal: usize) -> (r: isize)
    ensures
        r == -1,
        *final(kernel) == *old(kernel),
{
    -1
}

/// Ends all threads of the running process. Not offered; fails with -1.
pub fn exit_group(kernel: &mut Kernel, code: ExitCode) -> (r: isize)
    ensures
        r == -1,
        *final(kernel) == *old(kernel),
{
    -1
}

/// Tells about a path. Not offered; fails with -1.
pub fn info(kernel: &mut Kernel, path: &str) -> (r: isize)
    ensures
        r == -1,
        *final(kernel) == *old(kernel),
{
    -1
}

} // verus!
