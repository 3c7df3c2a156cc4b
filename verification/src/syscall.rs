//! The system-call interface: the numbers of the calls, what a caller
//! loads into the registers, how the kernel reads a call back from them,
//! and the dispatcher that serves it.

use crate::kernel::Kernel;
use crate::process::{rebased, ExitCode, Process, Registers};
use crate::syscall::service::{
    close_effect, dup_effect, exit_effect, open_effect, pfork_effect, read_effect, write_effect,
    ReadOutcome,
};
use vstd::prelude::*;
use vstd::string::StringSliceAdditionalSpecFns;
use vstd::utf8::{decode_utf8, valid_utf8};

pub mod service;

verus! {

/// Read from a handle.
pub const READ: usize = 0x0;

/// Write to a handle.
pub const WRITE: usize = 0x1;

/// Open a path.
pub const OPEN: usize = 0x2;

/// Close a handle.
pub const CLOSE: usize = 0x3;

/// Duplicate a handle.
pub const DUP: usize = 0x4;

/// Move the position of a handle.
pub const SEEK: usize = 0x5;

/// Start a program as a new process.
pub const PROC_SPAWN: usize = 0x6;

/// Start a thread.
pub const THREAD_SPAWN: usize = 0x7;

/// Fork the calling process.
pub const PROC_FORK: usize = 0x8;

/// Clone the calling thread.
pub const THREAD_CLONE: usize = 0x9;

/// Send a signal to a process.
pub const PROC_KILL: usize = 0xA;

/// Send a signal to a thread.
pub const THREAD_KILL: usize = 0xB;

/// End the calling process.
pub const EXIT: usize = 0xC;

/// End all threads of the calling process.
pub const EXIT_GROUP: usize = 0xD;

/// Reboot the machine.
pub const REBOOT: usize = 0xE;

/// Tell about a path.
pub const INFO: usize = 0xF;

/// A system call as the kernel understands it, with every user pointer
/// already turned into the address it stands for.
#[derive(Debug, Clone, Copy, PartialEq, Eq, Structural)]
pub enum Syscall {
    /// Read up to `len` bytes from `handle` into the buffer at `addr`.
    Read { handle: usize, addr: u64, len: usize },
    /// Write the `len` bytes at `addr` to `handle`.
    Write { handle: usize, addr: u64, len: usize },
    /// Open the path of `len` bytes at `addr`.
    Open { addr: u64, len: usize, flags: usize },
    Close { handle: usize },
    Dup { old_handle: usize, new_handle: usize },
    Fork,
    Exit { code: ExitCode },
    Reboot,
    /// A call that the kernel does not offer, or a number that names none.
    Unsupported,
}

/// The call that the number `id` and the arguments stand for, in a process
/// whose code lies at `code_addr`.
pub open spec fn decoded(code_addr: u64, id: usize, arg0: usize, arg1: usize, arg2: usize) -> Syscall {
    if id == READ {
        Syscall::Read { handle: arg0, addr: rebased(code_addr, arg1 as u64) as u64, len: arg2 }
    } else if id == WRITE {
        Syscall::Write { handle: arg0, addr: rebased(code_addr, arg1 as u64) as u64, len: arg2 }
    } else if id == OPEN {
        Syscall::Open { addr: rebased(code_addr, arg0 as u64) as u64, len: arg1, flags: arg2 }
    } else if id == CLOSE {
        Syscall::Close { handle: arg0 }
    } else if id == DUP {
        Syscall::Dup { old_handle: arg0, new_handle: arg1 }
    } else if id == PROC_FORK {
        Syscall::Fork
    } else if id == EXIT {
        Syscall::Exit { code: ExitCode::of(arg0 as int) }
    } else if id == REBOOT {
        Syscall::Reboot
    } else {
        Syscall::Unsupported
    }
}

/// Reads a call from its number and arguments. Every user pointer goes
/// through [`Process::ptr_from_addr`] of the calling process.
pub fn decode(
    proc: &Process,
    id: usize,
    arg0: usize,
    arg1: usize,
    arg2: usize,
    arg3: usize,
) -> (call: Syscall)
    requires
        proc.wf(),
    ensures
        call == decoded(proc.code_addr, id, arg0, arg1, arg2),
{
    if id == READ {
        Syscall::Read { handle: arg0, addr: proc.ptr_from_addr(arg1 as u64), len: arg2 }
    } else if id == WRITE {
        Syscall::Write { handle: arg0, addr: proc.ptr_from_addr(arg1 as u64), len: arg2 }
    } else if id == OPEN {
        Syscall::Open { addr: proc.ptr_from_addr(arg0 as u64), len: arg1, flags: arg2 }
    } else if id == CLOSE {
        Syscall::Close { handle: arg0 }
    } else if id == DUP {
        Syscall::Dup { old_handle: arg0, new_handle: arg1 }
    } else if id == PROC_FORK {
        Syscall::Fork
    } else if id == EXIT {
        Syscall::Exit { code: ExitCode::from(arg0) }
    } else if id == REBOOT {
        Syscall::Reboot
    } else {
        Syscall::Unsupported
    }
}

/// Reads a call from the registers that the entry code saved: the number
/// from `rax`, the arguments from `rdi`, `rsi`, `rdx` and `r8`.
pub fn syscall_handler(proc: &Process, registers: &Registers) -> (call: Syscall)
    requires
        proc.wf(),
    ensures
        call == decoded(
            proc.code_addr,
            registers.rax,
            registers.rdi,
            registers.rsi,
            registers.rdx,
        ),
{
    decode(proc, registers.rax, registers.rdi, registers.rsi, registers.rdx, registers.r8)
}

/// Number of registers that the entry code saves below the interrupt
/// frame.
pub const SAVED_REGISTERS: usize = 9;

/// Distance in bytes from the saved registers up to the interrupt frame.
pub const FRAME_OFFSET: usize = 72;

/// Puts a call's result where the caller finds it: into the saved `rax`.
pub fn set_result(registers: &mut Registers, value: usize)
    ensures
        *final(registers) == (Registers { rax: value, ..*old(registers) }),
{
    registers.rax = value;
}

/// A result as it goes back in `rax`: a result that is not negative as it
/// is, and a negative one in two's complement.
pub open spec fn encoded(n: isize) -> usize {
    if n >= 0 {
        n as usize
    } else {
        (usize::MAX + 1 + n) as usize
    }
}

/// A result as it goes back in `rax`.
pub fn encode_result(n: isize) -> (r: usize)
    ensures
        r == encoded(n),
{
    if n >= 0 {
        n as usize
    } else {
        usize::MAX - ((-(n + 1)) as usize)
    }
}

/// What the caller makes of the value that came back in `rax`: a result
/// that is not negative as a signed number, and nothing for an error.
pub open spec fn result_of(res: usize) -> Option<usize> {
    if res <= isize::MAX {
        Some(res)
    } else {
        None
    }
}

/// What the caller makes of the value that came back in `rax`.
pub fn result(res: usize) -> (r: Option<usize>)
    ensures
        r == result_of(res),
{
    if res <= isize::MAX as usize {
        Some(res)
    } else {
        None
    }
}

/// An error comes back to the caller as nothing, and a result that is not
/// negative as itself.
pub proof fn lemma_result_of_encoded(n: isize)
    ensures
        result_of(encoded(n)) == if n >= 0 {
            Some(n as usize)
        } else {
            None
        },
{
}

/// What the entry code has to do after the dispatcher.
#[derive(Debug, PartialEq, Eq)]
pub enum Outcome {
    /// Put the value into the saved `rax` and return to the caller.
    Return(usize),
    /// Copy the bytes to the address, put the value into the saved `rax`
    /// and return to the caller.
    Data(usize, u64, Vec<u8>),
    /// The call waits for input: wait for an interrupt and dispatch the
    /// call again.
    Blocked,
    /// The calling process has ended with this code.
    Exit(ExitCode),
    /// Reboot the machine.
    Reboot,
}

/// `core::str::from_utf8`: the bytes as a string, if they are valid UTF-8.
/// The string has exactly these bytes.
#[verifier::external_body]
fn str_from_utf8(bytes: &[u8]) -> (s: Option<&str>)
    ensures
        s is Some <==> valid_utf8(bytes@),
        s is Some ==> s->0.spec_bytes() == bytes@,
{
    core::str::from_utf8(bytes).ok()
}

/// What dispatching `call` does, where `data` holds the bytes that the
/// call points to (what to write, or the path to open).
///
/// A read hands back the bytes for the caller's buffer, or blocks. A write
/// writes `data`. An open takes `data` as the path and fails with -1 when
/// it is not valid UTF-8. A close returns 0. A call that is not offered
/// returns -1 and changes nothing. Each service does what its own effect
/// says.
pub open spec fn dispatched(
    before: Kernel,
    after: Kernel,
    call: Syscall,
    data: Seq<u8>,
    r: Outcome,
) -> bool {
    match call {
        Syscall::Read { handle, addr, len } => match r {
            Outcome::Data(res, to, bytes) => to == addr && exists|n: isize|
                res == encoded(n) && read_effect(
                    before,
                    after,
                    handle,
                    len,
                    ReadOutcome::Done(n, bytes),
                ),
            Outcome::Blocked => read_effect(before, after, handle, len, ReadOutcome::Blocked),
            _ => false,
        },
        Syscall::Write { handle, addr, len } => exists|n: isize|
            r == Outcome::Return(encoded(n)) && write_effect(before, after, handle, data, n),
        Syscall::Open { addr, len, flags } => if valid_utf8(data) {
            exists|n: isize|
                r == Outcome::Return(encoded(n)) && open_effect(
                    before,
                    after,
                    decode_utf8(data),
                    flags,
                    n,
                )
        } else {
            r == Outcome::Return(encoded(-1isize)) && after == before
        },
        Syscall::Close { handle } => r == Outcome::Return(0) && close_effect(
            before,
            after,
            handle,
        ),
        Syscall::Dup { old_handle, new_handle } => exists|n: isize|
            r == Outcome::Return(encoded(n)) && dup_effect(
                before,
                after,
                old_handle,
                new_handle,
                n,
            ),
        Syscall::Fork => exists|n: isize|
            r == Outcome::Return(encoded(n)) && pfork_effect(before, after, n),
        Syscall::Exit { code } => r == Outcome::Exit(code) && exit_effect(
            before,
            after,
            code,
            code,
        ),
        Syscall::Reboot => r == Outcome::Reboot && after == before,
        Syscall::Unsupported => r == Outcome::Return(encoded(-1isize)) && after == before,
    }
}

/// Serves `call` for the running process. `data` holds the bytes that the
/// call points to: what to write for a write, the path for an open, and
/// nothing that matters for any other call.
pub fn dispatch(kernel: &mut Kernel, call: &Syscall, data: &[u8]) -> (r: Outcome)
    requires
        old(kernel).wf(),
    ensures
        final(kernel).wf(),
        dispatched(*old(kernel), *final(kernel), *call, data@, r),
{
    match call {
        Syscall::Read { handle, addr, len } => {
            match crate::syscall::service::read(kernel, *handle, *len) {
                ReadOutcome::Done(n, bytes) => Outcome::Data(encode_result(n), *addr, bytes),
                ReadOutcome::Blocked => Outcome::Blocked,
            }
        },
        Syscall::Write { handle, addr, len } => {
            let n = crate::syscall::service::write(kernel, *handle, data);
            Outcome::Return(encode_result(n))
        },
        Syscall::Open { addr, len, flags } => {
            match str_from_utf8(data) {
                Some(path) => {
                    proof {
                        vstd::utf8::encode_utf8_decode_utf8(path@);
                    }
                    let n = crate::syscall::service::open(kernel, path, *flags);
                    Outcome::Return(encode_result(n))
                },
                None => Outcome::Return(encode_result(-1)),
            }
        },
        Syscall::Close { handle } => {
            crate::syscall::service::close(kernel, *handle);
            Outcome::Return(0)
        },
        Syscall::Dup { old_handle, new_handle } => {
            let n = crate::syscall::service::dup(kernel, *old_handle, *new_handle);
            Outcome::Return(encode_result(n))
        },
        Syscall::Fork => {
            let n = crate::syscall::service::pfork(kernel);
            Outcome::Return(encode_result(n))
        },
        Syscall::Exit { code } => {
            let e = crate::syscall::service::exit(kernel, *code);
            Outcome::Exit(e)
        },
        Syscall::Reboot => Outcome::Reboot,
        Syscall::Unsupported => Outcome::Return(encode_result(-1)),
    }
}

/// A system call as a caller issues it: the number for `rax` and the
/// arguments for `rdi`, `rsi`, `rdx` and `r8`.
#[derive(Debug, Clone, Copy, PartialEq, Eq, Structural)]
pub struct Call {
    pub id: usize,
    pub arg0: usize,
    pub arg1: usize,
    pub arg2: usize,
    pub arg3: usize,
}

impl Call {
    /// The registers as the caller loads them; those that carry nothing
    /// are zero.
    pub fn registers(&self) -> (r: Registers)
        ensures
            r == (Registers {
                r11: 0,
                r10: 0,
                r9: 0,
                r8: self.arg3,
                rdi: self.arg0,
                rsi: self.arg1,
                rdx: self.arg2,
                rcx: 0,
                rax: self.id,
            }),
    {
        Registers {
            r11: 0,
            r10: 0,
            r9: 0,
            r8: self.arg3,
            rdi: self.arg0,
            rsi: self.arg1,
            rdx: self.arg2,
            rcx: 0,
            rax: self.id,
        }
    }
}

/// The call that reads up to `len` bytes from `handle` into the buffer at
/// `buf`.
pub fn read(handle: usize, buf: usize, len: usize) -> (c: Call)
    ensures
        c == (Call { id: READ, arg0: handle, arg1: buf, arg2: len, arg3: 0 }),
        forall|code_addr: u64| #[trigger]
            decoded(code_addr, c.id, c.arg0, c.arg1, c.arg2) == (Syscall::Read {
                handle,
                addr: rebased(code_addr, buf as u64) as u64,
                len,
            }),
{
    Call { id: READ, arg0: handle, arg1: buf, arg2: len, arg3: 0 }
}

/// The call that writes the `len` bytes at `buf` to `handle`.
pub fn write(handle: usize, buf: usize, len: usize) -> (c: Call)
    ensures
        c == (Call { id: WRITE, arg0: handle, arg1: buf, arg2: len, arg3: 0 }),
        forall|code_addr: u64| #[trigger]
            decoded(code_addr, c.id, c.arg0, c.arg1, c.arg2) == (Syscall::Write {
                handle,
                addr: rebased(code_addr, buf as u64) as u64,
                len,
            }),
{
    Call { id: WRITE, arg0: handle, arg1: buf, arg2: len, arg3: 0 }
}

/// The call that opens the path of `len` bytes at `path`.
pub fn open(path: usize, len: usize, flags: usize) -> (c: Call)
    ensures
        c == (Call { id: OPEN, arg0: path, arg1: len, arg2: flags, arg3: 0 }),
        forall|code_addr: u64| #[trigger]
            decoded(code_addr, c.id, c.arg0, c.arg1, c.arg2) == (Syscall::Open {
                addr: rebased(code_addr, path as u64) as u64,
                len,
                flags,
            }),
{
    Call { id: OPEN, arg0: path, arg1: len, arg2: flags, arg3: 0 }
}

/// The call that closes `handle`.
pub fn close(handle: usize) -> (c: Call)
    ensures
        c == (Call { id: CLOSE, arg0: handle, arg1: 0, arg2: 0, arg3: 0 }),
        forall|code_addr: u64| #[trigger]
            decoded(code_addr, c.id, c.arg0, c.arg1, c.arg2) == (Syscall::Close { handle }),
{
    Call { id: CLOSE, arg0: handle, arg1: 0, arg2: 0, arg3: 0 }
}

/// The call that puts what `old_handle` stands for under `new_handle`.
pub fn dup(old_handle: usize, new_handle: usize) -> (c: Call)
    ensures
        c == (Call { id: DUP, arg0: old_handle, arg1: new_handle, arg2: 0, arg3: 0 }),
        forall|code_addr: u64| #[trigger]
            decoded(code_addr, c.id, c.arg0, c.arg1, c.arg2) == (Syscall::Dup {
                old_handle,
                new_handle,
            }),
{
    Call { id: DUP, arg0: old_handle, arg1: new_handle, arg2: 0, arg3: 0 }
}

/// The call that moves the position of `handle`.
pub fn seek(handle: usize, offset: usize, flags: usize) -> (c: Call)
    ensures
        c == (Call { id: SEEK, arg0: handle, arg1: offset, arg2: flags, arg3: 0 }),
{
    Call { id: SEEK, arg0: handle, arg1: offset, arg2: flags, arg3: 0 }
}

/// The call that starts the program of `bin_len` bytes at `bin` with the
/// arguments of `args_len` bytes at `args`.
pub fn pspawn(bin: usize, bin_len: usize, args: usize, args_len: usize) -> (c: Call)
    ensures
        c == (Call { id: PROC_SPAWN, arg0: bin, arg1: bin_len, arg2: args, arg3: args_len }),
{
    Call { id: PROC_SPAWN, arg0: bin, arg1: bin_len, arg2: args, arg3: args_len }
}

/// The call that starts a thread.
pub fn tspawn() -> (c: Call)
    ensures
        c == (Call { id: THREAD_SPAWN, arg0: 0, arg1: 0, arg2: 0, arg3: 0 }),
{
    Call { id: THREAD_SPAWN, arg0: 0, arg1: 0, arg2: 0, arg3: 0 }
}

/// The call that forks the calling process.
pub fn pfork() -> (c: Call)
    ensures
        c == (Call { id: PROC_FORK, arg0: 0, arg1: 0, arg2: 0, arg3: 0 }),
        forall|code_addr: u64| #[trigger]
            decoded(code_addr, c.id, c.arg0, c.arg1, c.arg2) == Syscall::Fork,
{
    Call { id: PROC_FORK, arg0: 0, arg1: 0, arg2: 0, arg3: 0 }
}

/// The call that clones the calling thread.
pub fn tclone() -> (c: Call)
    ensures
        c == (Call { id: THREAD_CLONE, arg0: 0, arg1: 0, arg2: 0, arg3: 0 }),
{
    Call { id: THREAD_CLONE, arg0: 0, arg1: 0, arg2: 0, arg3: 0 }
}

/// The call that sends `signal` to the process `pid`.
pub fn pkill(pid: usize, signal: usize) -> (c: Call)
    ensures
        c == (Call { id: PROC_KILL, arg0: pid, arg1: signal, arg2: 0, arg3: 0 }),
{
    Call { id: PROC_KILL, arg0: pid, arg1: signal, arg2: 0, arg3: 0 }
}

/// The call that sends `signal` to the thread `tid`.
pub fn tkill(tid: usize, signal: usize) -> (c: Call)
    ensures
        c == (Call { id: THREAD_KILL, arg0: tid, arg1: signal, arg2: 0, arg3: 0 }),
{
    Call { id: THREAD_KILL, arg0: tid, arg1: signal, arg2: 0, arg3: 0 }
}

/// The call that ends the calling process with `code`.
pub fn exit(code: ExitCode) -> (c: Call)
    ensures
        c == (Call { id: EXIT, arg0: code.number() as usize, arg1: 0, arg2: 0, arg3: 0 }),
        forall|code_addr: u64| #[trigger]
            decoded(code_addr, c.id, c.arg0, c.arg1, c.arg2) == (Syscall::Exit { code }),
{
    Call { id: EXIT, arg0: code.code() as usize, arg1: 0, arg2: 0, arg3: 0 }
}

/// The call that ends all threads of the calling process with `code`.
pub fn exit_group(code: ExitCode) -> (c: Call)
    ensures
        c == (Call { id: EXIT_GROUP, arg0: code.number() as usize, arg1: 0, arg2: 0, arg3: 0 }),
{
    Call { id: EXIT_GROUP, arg0: code.code() as usize, arg1: 0, arg2: 0, arg3: 0 }
}

/// The call that reboots the machine.
pub fn reboot() -> (c: Call)
    ensures
        c == (Call { id: REBOOT, arg0: 0, arg1: 0, arg2: 0, arg3: 0 }),
        forall|code_addr: u64| #[trigger]
            decoded(code_addr, c.id, c.arg0, c.arg1, c.arg2) == Syscall::Reboot,
{
    Call { id: REBOOT, arg0: 0, arg1: 0, arg2: 0, arg3: 0 }
}

/// The call that tells about the path at `path`.
pub fn info(path: usize) -> (c: Call)
    ensures
        c == (Call { id: INFO, arg0: path, arg1: 0, arg2: 0, arg3: 0 }),
{
    Call { id: INFO, arg0: path, arg1: 0, arg2: 0, arg3: 0 }
}

} // verus!
