//! Processes and threads: identifiers, exit codes, privileges, the
//! per-process table of resource handles, fork, and the table of all
//! processes.

use crate::allocator::{conflict_in, first_page, page_count, pages_mapped, upcoming, with_run};
use crate::allocator::USER_FLAGS;
use crate::frame_alloc::BootInfoFrameAllocator;
use crate::gdt::{USER_CODE, USER_DATA};
use crate::paging::Mapper;
use crate::resource::{Device, Resource};
use std::collections::BTreeSet;
use vstd::prelude::*;
use vstd::string::StringExecFns;

verus! {

/// Number of resource handles of a process.
pub const MAX_RESOURCE_HANDLES: usize = 64;

/// Number of thread slots of a process.
pub const MAX_THREADS: usize = 100;

/// Number of processes that the table can hold.
pub const MAX_PROCESSES: usize = 50;

/// Size of the virtual address range of one process: 4 TiB.
pub const MAX_PROC_SIZE: u64 = 0x400_0000_0000;

/// End of the address range in which processes are placed: the lower
/// canonical half of the address space.
pub const USER_SPACE_END: u64 = 0x8000_0000_0000;

/// The first handle that `create_handle` may give out; the handles below
/// are set up when the process is created.
pub const FIRST_FREE_HANDLE: usize = 4;

/// How a process ended.
#[derive(Debug, Clone, Copy, PartialEq, Eq, Structural)]
pub enum ExitCode {
    Success,
    GeneralFailure,
    UsageFault,
    DataFault,
    WriteFault,
    ReadFault,
    OpenFault,
    ExecFault,
    PageFault,
    SegFault,
    ShellExit,
}

impl ExitCode {
    /// The exit code that a number stands for; a number that stands for
    /// none is a general failure.
    pub open spec fn of(code: int) -> ExitCode {
        if code == 0 {
            ExitCode::Success
        } else if code == 60 {
            ExitCode::UsageFault
        } else if code == 61 {
            ExitCode::DataFault
        } else if code == 125 {
            ExitCode::WriteFault
        } else if code == 126 {
            ExitCode::ReadFault
        } else if code == 127 {
            ExitCode::OpenFault
        } else if code == 128 {
            ExitCode::ExecFault
        } else if code == 129 {
            ExitCode::PageFault
        } else if code == 130 {
            ExitCode::SegFault
        } else if code == 225 {
            ExitCode::ShellExit
        } else {
            ExitCode::GeneralFailure
        }
    }

    /// The number of an exit code.
    pub open spec fn number(self) -> int {
        match self {
            ExitCode::Success => 0,
            ExitCode::GeneralFailure => 1,
            ExitCode::UsageFault => 60,
            ExitCode::DataFault => 61,
            ExitCode::WriteFault => 125,
            ExitCode::ReadFault => 126,
            ExitCode::OpenFault => 127,
            ExitCode::ExecFault => 128,
            ExitCode::PageFault => 129,
            ExitCode::SegFault => 130,
            ExitCode::ShellExit => 225,
        }
    }

    /// The exit code that a number stands for.
    pub fn from(code: usize) -> (e: ExitCode)
        ensures
            e == ExitCode::of(code as int),
    {
        match code {
            0 => ExitCode::Success,
            60 => ExitCode::UsageFault,
            61 => ExitCode::DataFault,
            125 => ExitCode::WriteFault,
            126 => ExitCode::ReadFault,
            127 => ExitCode::OpenFault,
            128 => ExitCode::ExecFault,
            129 => ExitCode::PageFault,
            130 => ExitCode::SegFault,
            225 => ExitCode::ShellExit,
            _ => ExitCode::GeneralFailure,
        }
    }

    /// The number of an exit code.
    pub fn code(self) -> (n: u8)
        ensures
            n == self.number(),
            ExitCode::of(n as int) == self,
    {
        match self {
            ExitCode::Success => 0,
            ExitCode::GeneralFailure => 1,
            ExitCode::UsageFault => 60,
            ExitCode::DataFault => 61,
            ExitCode::WriteFault => 125,
            ExitCode::ReadFault => 126,
            ExitCode::OpenFault => 127,
            ExitCode::ExecFault => 128,
            ExitCode::PageFault => 129,
            ExitCode::SegFault => 130,
            ExitCode::ShellExit => 225,
        }
    }
}

/// The counters from which identifiers are issued. Each identifier is the
/// counter's value, and the counter then moves on by one.
#[derive(Debug, Clone, Copy, PartialEq, Eq, Structural)]
pub struct IdSource {
    pub next_thread: u64,
    pub next_process: u64,
    pub next_user: u64,
    pub next_group: u64,
}

/// The counter value after `n`: one more, and zero after the largest.
pub open spec fn succ(n: u64) -> u64 {
    if n == u64::MAX {
        0
    } else {
        (n + 1) as u64
    }
}

impl IdSource {
    /// Counters that all start at zero.
    pub fn new() -> (ids: IdSource)
        ensures
            ids == (IdSource { next_thread: 0, next_process: 0, next_user: 0, next_group: 0 }),
    {
        IdSource { next_thread: 0, next_process: 0, next_user: 0, next_group: 0 }
    }
}

/// Identifier of a thread.
#[derive(Debug, Clone, Copy, PartialEq, Eq, Structural)]
pub struct ThreadId(pub u64);

impl ThreadId {
    /// Issues the next thread identifier.
    pub fn new(ids: &mut IdSource) -> (id: ThreadId)
        ensures
            id.0 == old(ids).next_thread,
            *final(ids) == (IdSource { next_thread: succ(old(ids).next_thread), ..*old(ids) }),
    {
        let id = ThreadId(ids.next_thread);
        ids.next_thread = ids.next_thread.wrapping_add(1);
        id
    }
}

/// Identifier of a process.
#[derive(Debug, Clone, Copy, PartialEq, Eq, Structural)]
pub struct ProcessId(pub u64);

impl ProcessId {
    /// Issues the next process identifier.
    pub fn new(ids: &mut IdSource) -> (id: ProcessId)
        ensures
            id.0 == old(ids).next_process,
            *final(ids) == (IdSource { next_process: succ(old(ids).next_process), ..*old(ids) }),
    {
        let id = ProcessId(ids.next_process);
        ids.next_process = ids.next_process.wrapping_add(1);
        id
    }

    /// The identifier as a number.
    pub fn inner(&self) -> (n: u64)
        ensures
            n == self.0,
    {
        self.0
    }
}

/// Identifier of the user that owns a process.
#[derive(Debug, Clone, Copy, PartialEq, Eq, Structural)]
pub struct ProcessUserId(pub u64);

impl ProcessUserId {
    /// Issues the next user identifier.
    pub fn new(ids: &mut IdSource) -> (id: ProcessUserId)
        ensures
            id.0 == old(ids).next_user,
            *final(ids) == (IdSource { next_user: succ(old(ids).next_user), ..*old(ids) }),
    {
        let id = ProcessUserId(ids.next_user);
        ids.next_user = ids.next_user.wrapping_add(1);
        id
    }

    /// The identifier as a number.
    pub fn inner(&self) -> (n: u64)
        ensures
            n == self.0,
    {
        self.0
    }
}

/// Identifier of the group that a process belongs to.
#[derive(Debug, Clone, Copy, PartialEq, Eq, Structural)]
pub struct ProcessGroupId(pub u64);

impl ProcessGroupId {
    /// Issues the next group identifier.
    pub fn new(ids: &mut IdSource) -> (id: ProcessGroupId)
        ensures
            id.0 == old(ids).next_group,
            *final(ids) == (IdSource { next_group: succ(old(ids).next_group), ..*old(ids) }),
    {
        let id = ProcessGroupId(ids.next_group);
        ids.next_group = ids.next_group.wrapping_add(1);
        id
    }

    /// The identifier as a number.
    pub fn inner(&self) -> (n: u64)
        ensures
            n == self.0,
    {
        self.0
    }
}

/// A thread: its identifier and the process it belongs to.
#[derive(Debug, Clone, Copy, PartialEq, Eq, Structural)]
pub struct Thread {
    pub id: ThreadId,
    pub proc: ProcessId,
}

impl Thread {
    /// A new thread of process `proc`, with the next thread identifier.
    pub fn new(ids: &mut IdSource, proc: ProcessId) -> (t: Thread)
        ensures
            t.id.0 == old(ids).next_thread,
            t.proc == proc,
            *final(ids) == (IdSource { next_thread: succ(old(ids).next_thread), ..*old(ids) }),
    {
        Thread { id: ThreadId::new(ids), proc }
    }

    /// The thread's identifier.
    pub fn id(&self) -> (id: ThreadId)
        ensures
            id == self.id,
    {
        self.id
    }
}

/// What a process may do with files, directories, block devices, links and
/// sockets: 45 bits, fifteen each for everyone, for the process's group and
/// for its owner, and in each fifteen three (read, write, execute) for each
/// of the five kinds.
#[derive(Debug, Clone, Copy, PartialEq, Eq, Structural)]
pub struct ProcessPrivileges {
    pub bits: u64,
}

/// All 45 privilege bits.
pub const ALL_PRIVILEGES: u64 = 0x1FFF_FFFF_FFFF;

/// The fifteen bits for everyone and the fifteen for the group.
pub const EVERYONE_AND_GROUP: u64 = 0x3FFF_FFFF;

/// The fifteen bits for the owner.
pub const OWNER_PRIVILEGES: u64 = 0x1FFF_C000_0000;

impl ProcessPrivileges {
    /// The privileges in `bits`, unless a bit is set that stands for none.
    pub fn from_bits(bits: u64) -> (p: Option<ProcessPrivileges>)
        ensures
            p == if bits & !ALL_PRIVILEGES == 0 {
                Some(ProcessPrivileges { bits })
            } else {
                None
            },
    {
        if bits & !ALL_PRIVILEGES == 0 {
            Some(ProcessPrivileges { bits })
        } else {
            None
        }
    }

    /// The privileges that are not in `self`.
    pub fn complement(self) -> (p: ProcessPrivileges)
        ensures
            p.bits == !self.bits & ALL_PRIVILEGES,
    {
        ProcessPrivileges { bits: !self.bits & ALL_PRIVILEGES }
    }

    /// Whether every privilege of `other` is in `self`.
    pub fn contains(self, other: ProcessPrivileges) -> (r: bool)
        ensures
            r == (self.bits & other.bits == other.bits),
    {
        self.bits & other.bits == other.bits
    }

    /// The privilege bit for a class (0 everyone, 1 group, 2 owner), a kind
    /// (0 file, 1 directory, 2 block device, 3 link, 4 socket) and a
    /// permission (0 read, 1 write, 2 execute).
    pub fn bit(class: u64, kind: u64, permission: u64) -> (p: ProcessPrivileges)
        requires
            class < 3,
            kind < 5,
            permission < 3,
        ensures
            p.bits == 1u64 << (class * 15 + kind * 3 + permission),
    {
        ProcessPrivileges { bits: 1u64 << (class * 15 + kind * 3 + permission) }
    }
}

/// The general-purpose registers that the system-call entry saves, in the
/// order in which they lie on the stack.
#[derive(Debug, Clone, Copy, PartialEq, Eq, Structural)]
pub struct Registers {
    pub r11: usize,
    pub r10: usize,
    pub r9: usize,
    pub r8: usize,
    pub rdi: usize,
    pub rsi: usize,
    pub rdx: usize,
    pub rcx: usize,
    pub rax: usize,
}

/// The frame that the CPU pushes on an interrupt and pops on `iretq`.
#[derive(Debug, Clone, Copy, PartialEq, Eq, Structural)]
pub struct StackFrame {
    pub rip: u64,
    pub cs: u64,
    pub rflags: u64,
    pub rsp: u64,
    pub ss: u64,
}

/// A process.
pub struct Process {
    pub id: ProcessId,
    /// The process that forked this one.
    pub parent: Option<ProcessId>,
    /// The identifiers of the processes that this one forked.
    pub children: BTreeSet<u64>,
    pub privileges: ProcessPrivileges,
    /// The working directory.
    pub dir: String,
    pub user: ProcessUserId,
    pub group: ProcessGroupId,
    /// The environment, as pairs of name and value.
    pub env: Vec<(String, String)>,
    pub threads: Vec<Option<Thread>>,
    pub resource_handles: Vec<Option<Resource>>,
    /// Where the process's code lies.
    pub code_addr: u64,
    /// Where its stack starts to grow down from.
    pub stack_addr: u64,
    /// Where it starts to run, counted from `code_addr`.
    pub entry_point_addr: u64,
    /// The interrupt frame saved when the process last entered the kernel.
    pub stack_frame: StackFrame,
    /// The registers saved when the process last entered the kernel.
    pub registers: Registers,
}

/// The handles of a new process: the console as standard input, standard
/// output and standard error, the null device, and sixty free slots.
pub open spec fn initial_handles() -> Seq<Option<Resource>> {
    Seq::new(
        64,
        |i: int|
            if i < 3 {
                Some(Resource::Device(Device::Console))
            } else if i == 3 {
                Some(Resource::Device(Device::Null))
            } else {
                None
            },
    )
}

/// The first free handle from `from` on, if there is one.
pub open spec fn first_free(handles: Seq<Option<Resource>>, from: int) -> Option<int>
    decreases handles.len() - from,
{
    if from >= handles.len() {
        None
    } else if handles[from] is None {
        Some(from)
    } else {
        first_free(handles, from + 1)
    }
}

/// The address that a user pointer stands for in a process whose code lies
/// at `code_addr`: an address below `code_addr` counts from there, and any
/// other is taken as it is.
pub open spec fn rebased(code_addr: u64, addr: u64) -> int {
    if addr < code_addr {
        code_addr + addr
    } else {
        addr as int
    }
}

impl Process {
    /// The process's invariant, which every operation keeps.
    pub open spec fn wf(&self) -> bool {
        &&& self.resource_handles@.len() == 64
        &&& self.threads@.len() == 100
        &&& self.code_addr + MAX_PROC_SIZE <= USER_SPACE_END
        &&& self.entry_point_addr < MAX_PROC_SIZE
        &&& env_names_distinct(env_text(self.env@))
    }

    /// A new process with working directory `dir`: it gets the next
    /// process, thread, user and group identifiers, a main thread, the
    /// owner's privileges, the initial handles, and neither parent nor
    /// children nor code.
    pub fn new(dir: &str, ids: &mut IdSource) -> (p: Process)
        ensures
            p.wf(),
            p.id.0 == old(ids).next_process,
            p.parent is None,
            p.children@ == Set::<u64>::empty(),
            p.privileges.bits == OWNER_PRIVILEGES,
            p.dir@ == dir@,
            p.user.0 == old(ids).next_user,
            p.group.0 == old(ids).next_group,
            p.env@ == Seq::<(String, String)>::empty(),
            p.threads@ == Seq::new(
                100,
                |i: int|
                    if i == 0 {
                        Some(Thread { id: ThreadId(old(ids).next_thread), proc: p.id })
                    } else {
                        None
                    },
            ),
            p.resource_handles@ == initial_handles(),
            p.code_addr == 0 && p.stack_addr == 0 && p.entry_point_addr == 0,
            *final(ids) == (IdSource {
                next_thread: succ(old(ids).next_thread),
                next_process: succ(old(ids).next_process),
                next_user: succ(old(ids).next_user),
                next_group: succ(old(ids).next_group),
            }),
    {
        let id = ProcessId::new(ids);
        let main = Thread::new(ids, id);
        let mut threads: Vec<Option<Thread>> = Vec::new();
        let mut i: usize = 0;
        while i < MAX_THREADS
            invariant
                i <= 100,
                threads@.len() == i,
                forall|j: int|
                    0 <= j < i ==> threads@[j] == if j == 0 {
                        Some(main)
                    } else {
                        None::<Thread>
                    },
            decreases 100 - i,
        {
            if i == 0 {
                threads.push(Some(main));
            } else {
                threads.push(None);
            }
            i += 1;
        }
        let mut resource_handles: Vec<Option<Resource>> = Vec::new();
        let mut h: usize = 0;
        while h < MAX_RESOURCE_HANDLES
            invariant
                h <= 64,
                resource_handles@.len() == h,
                forall|j: int| 0 <= j < h ==> resource_handles@[j] == initial_handles()[j],
            decreases 64 - h,
        {
            if h < 3 {
                resource_handles.push(Some(Resource::Device(Device::Console)));
            } else if h == 3 {
                resource_handles.push(Some(Resource::Device(Device::Null)));
            } else {
                resource_handles.push(None);
            }
            h += 1;
        }
        let all = ProcessPrivileges { bits: EVERYONE_AND_GROUP };
        let privileges = all.complement();
        assert(!0x3FFF_FFFFu64 & 0x1FFF_FFFF_FFFFu64 == 0x1FFF_C000_0000u64) by (bit_vector);
        let user = ProcessUserId::new(ids);
        let group = ProcessGroupId::new(ids);
        let p = Process {
            id,
            parent: None,
            children: BTreeSet::new(),
            privileges,
            dir: String::from_str(dir),
            user,
            group,
            env: Vec::new(),
            threads,
            resource_handles,
            code_addr: 0,
            stack_addr: 0,
            entry_point_addr: 0,
            stack_frame: StackFrame { rip: 0, cs: 0, rflags: 0, rsp: 0, ss: 0 },
            registers: Registers {
                r11: 0,
                r10: 0,
                r9: 0,
                r8: 0,
                rdi: 0,
                rsi: 0,
                rdx: 0,
                rcx: 0,
                rax: 0,
            },
        };
        assert(p.resource_handles@ =~= initial_handles());
        assert(p.threads@ =~= Seq::new(
            100,
            |i: int|
                if i == 0 {
                    Some(Thread { id: ThreadId(old(ids).next_thread), proc: p.id })
                } else {
                    None
                },
        ));
        p
    }

    /// The process's identifier.
    pub fn id(&self) -> (id: ProcessId)
        ensures
            id == self.id,
    {
        self.id
    }

    /// The identifier of the process that forked this one.
    pub fn parent(&self) -> (p: Option<ProcessId>)
        ensures
            p == self.parent,
    {
        self.parent
    }

    /// Records `pid` as the process that forked this one.
    pub fn set_parent(&mut self, pid: ProcessId)
        ensures
            final(self).parent == Some(pid),
            final(self).id == old(self).id,
            final(self).children == old(self).children,
            final(self).privileges == old(self).privileges,
            final(self).dir == old(self).dir,
            final(self).user == old(self).user,
            final(self).group == old(self).group,
            final(self).env == old(self).env,
            final(self).threads == old(self).threads,
            final(self).resource_handles == old(self).resource_handles,
            final(self).code_addr == old(self).code_addr,
            final(self).stack_addr == old(self).stack_addr,
            final(self).entry_point_addr == old(self).entry_point_addr,
            final(self).stack_frame == old(self).stack_frame,
            final(self).registers == old(self).registers,
    {
        self.parent = Some(pid);
    }

    /// What handle `handle` stands for; nothing for a free handle and for a
    /// number that is no handle.
    pub fn handle(&self, handle: usize) -> (r: Option<Resource>)
        requires
            self.wf(),
        ensures
            r == if handle < 64 {
                self.resource_handles@[handle as int]
            } else {
                None
            },
    {
        if handle < MAX_RESOURCE_HANDLES {
            self.resource_handles[handle]
        } else {
            None
        }
    }

    /// Puts `resource` under the first free handle from 4 on and returns
    /// that handle; fails when none of them is free.
    pub fn create_handle(&mut self, resource: Resource) -> (r: Result<usize, ()>)
        requires
            old(self).wf(),
        ensures
            final(self).wf(),
            match first_free(old(self).resource_handles@, 4) {
                Some(h) => r == Ok::<usize, ()>(h as usize)
                    && 4 <= h < 64
                    && final(self).resource_handles@ == old(self).resource_handles@.update(h, Some(resource)),
                None => r is Err && final(self).resource_handles@ == old(self).resource_handles@,
            },
            same_but_handles(*final(self), *old(self)),
    {
        let mut handle: usize = FIRST_FREE_HANDLE;
        while handle < MAX_RESOURCE_HANDLES
            invariant
                4 <= handle <= 64,
                *self == *old(self),
                self.wf(),
                first_free(self.resource_handles@, 4) == first_free(
                    self.resource_handles@,
                    handle as int,
                ),
            decreases 64 - handle,
        {
            if self.resource_handles[handle].is_none() {
                self.resource_handles.set(handle, Some(resource));
                return Ok(handle);
            }
            handle += 1;
        }
        Err(())
    }

    /// Puts `updated` under `handle`, whatever was there.
    pub fn update_handle(&mut self, handle: usize, updated: Resource)
        requires
            old(self).wf(),
            handle < 64,
        ensures
            final(self).wf(),
            final(self).resource_handles@ == old(self).resource_handles@.update(
                handle as int,
                Some(updated),
            ),
            same_but_handles(*final(self), *old(self)),
    {
        self.resource_handles.set(handle, Some(updated));
    }

    /// Frees `handle`.
    pub fn delete_handle(&mut self, handle: usize)
        requires
            old(self).wf(),
            handle < 64,
        ensures
            final(self).wf(),
            final(self).resource_handles@ == old(self).resource_handles@.update(
                handle as int,
                None,
            ),
            same_but_handles(*final(self), *old(self)),
    {
        self.resource_handles.set(handle, None);
    }

    /// The working directory.
    pub fn dir(&self) -> (d: String)
        ensures
            d@ == self.dir@,
    {
        self.dir.clone()
    }

    /// Changes the working directory.
    pub fn set_dir(&mut self, dir: &str)
        ensures
            final(self).dir@ == dir@,
            final(self).id == old(self).id,
            final(self).parent == old(self).parent,
            final(self).children == old(self).children,
            final(self).privileges == old(self).privileges,
            final(self).user == old(self).user,
            final(self).group == old(self).group,
            final(self).env == old(self).env,
            final(self).threads == old(self).threads,
            final(self).resource_handles == old(self).resource_handles,
            final(self).code_addr == old(self).code_addr,
            final(self).stack_addr == old(self).stack_addr,
            final(self).entry_point_addr == old(self).entry_point_addr,
            final(self).stack_frame == old(self).stack_frame,
            final(self).registers == old(self).registers,
    {
        self.dir = String::from_str(dir);
    }

    /// Where the process's code lies.
    pub fn code_addr(&self) -> (a: u64)
        ensures
            a == self.code_addr,
    {
        self.code_addr
    }

    /// Records where the process's code lies. The process's address range
    /// has to end inside user space.
    pub fn set_code_addr(&mut self, addr: u64)
        requires
            old(self).wf(),
            addr + MAX_PROC_SIZE <= USER_SPACE_END,
        ensures
            final(self).wf(),
            final(self).code_addr == addr,
            final(self).id == old(self).id,
            final(self).parent == old(self).parent,
            final(self).children == old(self).children,
            final(self).privileges == old(self).privileges,
            final(self).dir == old(self).dir,
            final(self).user == old(self).user,
            final(self).group == old(self).group,
            final(self).env == old(self).env,
            final(self).threads == old(self).threads,
            final(self).resource_handles == old(self).resource_handles,
            final(self).stack_addr == old(self).stack_addr,
            final(self).entry_point_addr == old(self).entry_point_addr,
            final(self).stack_frame == old(self).stack_frame,
            final(self).registers == old(self).registers,
    {
        self.code_addr = addr;
    }

    /// The address that the user pointer `addr` stands for: an address
    /// below the code's counts from the code's, any other is taken as it
    /// is.
    pub fn ptr_from_addr(&self, addr: u64) -> (p: u64)
        requires
            self.wf(),
        ensures
            p == rebased(self.code_addr, addr),
            addr < self.code_addr ==> p == self.code_addr + addr,
            addr >= self.code_addr ==> p == addr,
    {
        let code_addr = self.code_addr();
        if addr < code_addr {
            code_addr + addr
        } else {
            addr
        }
    }
}

/// An environment as plain text: the pairs of name and value.
pub open spec fn env_text(env: Seq<(String, String)>) -> Seq<(Seq<char>, Seq<char>)> {
    Seq::new(env.len(), |i: int| (env[i].0@, env[i].1@))
}

/// No name occurs twice in an environment.
pub open spec fn env_names_distinct(env: Seq<(Seq<char>, Seq<char>)>) -> bool {
    forall|i: int, j: int| 0 <= i < j < env.len() ==> (#[trigger] env[i]).0 != (#[trigger] env[j]).0
}

/// The value of the first variable called `key`, if there is one.
pub open spec fn env_value(env: Seq<(Seq<char>, Seq<char>)>, key: Seq<char>) -> Option<Seq<char>>
    decreases env.len(),
{
    if env.len() == 0 {
        None
    } else if env[0].0 == key {
        Some(env[0].1)
    } else {
        env_value(env.drop_first(), key)
    }
}

/// A copy of an environment.
fn copy_env(env: &Vec<(String, String)>) -> (copy: Vec<(String, String)>)
    ensures
        env_text(copy@) == env_text(env@),
{
    let mut copy: Vec<(String, String)> = Vec::new();
    let mut i: usize = 0;
    while i < env.len()
        invariant
            i <= env@.len(),
            copy@.len() == i,
            forall|j: int|
                0 <= j < i ==> (#[trigger] copy@[j]).0@ == env@[j].0@ && copy@[j].1@ == env@[j].1@,
        decreases env@.len() - i,
    {
        let name = env[i].0.clone();
        let value = env[i].1.clone();
        copy.push((name, value));
        i += 1;
    }
    assert(env_text(copy@) =~= env_text(env@));
    copy
}

/// A copy of a thread table.
fn copy_threads(threads: &Vec<Option<Thread>>) -> (copy: Vec<Option<Thread>>)
    ensures
        copy@ == threads@,
{
    let mut copy: Vec<Option<Thread>> = Vec::new();
    let mut i: usize = 0;
    while i < threads.len()
        invariant
            i <= threads@.len(),
            copy@ == threads@.take(i as int),
        decreases threads@.len() - i,
    {
        copy.push(threads[i]);
        assert(copy@ =~= threads@.take(i + 1));
        i += 1;
    }
    assert(threads@.take(i as int) =~= threads@);
    copy
}

/// A copy of a handle table.
fn copy_handles(handles: &Vec<Option<Resource>>) -> (copy: Vec<Option<Resource>>)
    ensures
        copy@ == handles@,
{
    let mut copy: Vec<Option<Resource>> = Vec::new();
    let mut i: usize = 0;
    while i < handles.len()
        invariant
            i <= handles@.len(),
            copy@ == handles@.take(i as int),
        decreases handles@.len() - i,
    {
        copy.push(handles[i]);
        assert(copy@ =~= handles@.take(i + 1));
        i += 1;
    }
    assert(handles@.take(i as int) =~= handles@);
    copy
}

/// What a process starts with in ring 3: the page to map for its first
/// heap, the interrupt frame to return through, and its two arguments.
#[derive(Debug, Clone, Copy, PartialEq, Eq, Structural)]
pub struct Launch {
    /// Address of the heap's first page: the middle of the process's range.
    pub heap_addr: u64,
    pub frame: StackFrame,
    pub rdi: u64,
    pub rsi: u64,
}

/// The interrupt flag in `rflags`.
pub const INTERRUPT_FLAG: u64 = 0x200;

impl Process {
    /// Forks the process: the child is a copy with the next process
    /// identifier, this process as its parent, no children, and zero in the
    /// register that carries the system call's result. The child joins this
    /// process's children.
    pub fn fork(&mut self, ids: &mut IdSource) -> (child: Process)
        requires
            old(self).wf(),
        ensures
            final(self).wf(),
            child.wf(),
            child.id.0 == old(ids).next_process,
            *final(ids) == (IdSource { next_process: succ(old(ids).next_process), ..*old(ids) }),
            child.parent == Some(old(self).id),
            child.children@ == Set::<u64>::empty(),
            final(self).children@ == old(self).children@.insert(child.id.0),
            child.privileges == old(self).privileges,
            child.dir@ == old(self).dir@,
            child.user == old(self).user,
            child.group == old(self).group,
            env_text(child.env@) == env_text(old(self).env@),
            child.threads@ == old(self).threads@,
            child.resource_handles@ == old(self).resource_handles@,
            child.code_addr == old(self).code_addr,
            child.stack_addr == old(self).stack_addr,
            child.entry_point_addr == old(self).entry_point_addr,
            child.stack_frame == old(self).stack_frame,
            child.registers == (Registers { rax: 0, ..old(self).registers }),
            final(self).id == old(self).id,
            final(self).parent == old(self).parent,
            final(self).privileges == old(self).privileges,
            final(self).dir == old(self).dir,
            final(self).user == old(self).user,
            final(self).group == old(self).group,
            final(self).env == old(self).env,
            final(self).threads == old(self).threads,
            final(self).resource_handles == old(self).resource_handles,
            final(self).code_addr == old(self).code_addr,
            final(self).stack_addr == old(self).stack_addr,
            final(self).entry_point_addr == old(self).entry_point_addr,
            final(self).stack_frame == old(self).stack_frame,
            final(self).registers == old(self).registers,
    {
        broadcast use {vstd::std_specs::btree::group_btree_axioms, vstd::laws_cmp::group_laws_cmp};

        let id = ProcessId::new(ids);
        let r = self.registers;
        let child = Process {
            id,
            parent: Some(self.id),
            children: BTreeSet::new(),
            privileges: self.privileges,
            dir: self.dir.clone(),
            user: self.user,
            group: self.group,
            env: copy_env(&self.env),
            threads: copy_threads(&self.threads),
            resource_handles: copy_handles(&self.resource_handles),
            code_addr: self.code_addr,
            stack_addr: self.stack_addr,
            entry_point_addr: self.entry_point_addr,
            stack_frame: self.stack_frame,
            registers: Registers {
                r11: r.r11,
                r10: r.r10,
                r9: r.r9,
                r8: r.r8,
                rdi: r.rdi,
                rsi: r.rsi,
                rdx: r.rdx,
                rcx: r.rcx,
                rax: 0,
            },
        };
        self.children.insert(id.0);
        child
    }

    /// Ends the process: its address range is unmapped, and the numeric
    /// code becomes an exit code.
    pub fn exit(self, code: u8, mapper: &mut Mapper) -> (e: ExitCode)
        requires
            self.wf(),
            old(mapper).wf(),
        ensures
            e == ExitCode::of(code as int),
            final(mapper).wf(),
            final(mapper)@ == crate::paging::without_range(
                old(mapper)@,
                crate::allocator::first_page(self.code_addr),
                crate::allocator::last_page(self.code_addr, MAX_PROC_SIZE),
            ),
    {
        crate::allocator::free(mapper, self.code_addr, MAX_PROC_SIZE);
        ExitCode::from(code as usize)
    }
}

impl Process {
    /// The value of the environment variable `key`, if it is set.
    pub fn get_env(&self, key: &str) -> (value: Option<String>)
        ensures
            match value {
                Some(v) => env_value(env_text(self.env@), key@) == Some(v@),
                None => env_value(env_text(self.env@), key@) is None,
            },
    {
        let mut i: usize = 0;
        proof {
            assert(env_text(self.env@).skip(0) =~= env_text(self.env@));
        }
        while i < self.env.len()
            invariant
                i <= self.env@.len(),
                env_value(env_text(self.env@), key@) == env_value(
                    env_text(self.env@).skip(i as int),
                    key@,
                ),
            decreases self.env@.len() - i,
        {
            proof {
                assert(env_text(self.env@).skip(i as int)[0] == env_text(self.env@)[i as int]);
                assert(env_text(self.env@).skip(i as int).drop_first() =~= env_text(
                    self.env@,
                ).skip(i + 1));
            }
            if crate::console::str_eq(self.env[i].0.as_str(), key) {
                return Some(self.env[i].1.clone());
            }
            i += 1;
        }
        None
    }

    /// What starting the process in ring 3 takes. One page is mapped for
    /// its first heap, in the middle of the process's address range; the
    /// interrupt frame leads to the entry point with the user segments, the
    /// process's stack and interrupts enabled; the two registers carry the
    /// arguments. Fails when the heap page cannot be mapped.
    pub fn exec(
        &self,
        mapper: &mut Mapper,
        frame_alloc: &mut BootInfoFrameAllocator,
        args_ptr: u64,
        args_len: u64,
    ) -> (r: Result<Launch, ()>)
        requires
            self.wf(),
            old(mapper).wf(),
            old(frame_alloc).wf(),
        ensures
            final(mapper).wf(),
            final(frame_alloc).wf(),
            final(frame_alloc).regions() == old(frame_alloc).regions(),
            r is Ok <==> conflict_in(
                old(mapper)@,
                (self.code_addr + MAX_PROC_SIZE / 2) as u64,
                4096,
            ) == page_count((self.code_addr + MAX_PROC_SIZE / 2) as u64, 4096) && page_count(
                (self.code_addr + MAX_PROC_SIZE / 2) as u64,
                4096,
            ) <= old(frame_alloc).available(),
            r is Ok ==> r->Ok_0 == (Launch {
                heap_addr: (self.code_addr + MAX_PROC_SIZE / 2) as u64,
                frame: StackFrame {
                    rip: (self.code_addr + self.entry_point_addr) as u64,
                    cs: USER_CODE as u64,
                    rflags: INTERRUPT_FLAG,
                    rsp: self.stack_addr,
                    ss: USER_DATA as u64,
                },
                rdi: args_ptr,
                rsi: args_len,
            }),
            final(mapper)@ == with_run(
                old(mapper)@,
                first_page((self.code_addr + MAX_PROC_SIZE / 2) as u64),
                pages_mapped(
                    page_count((self.code_addr + MAX_PROC_SIZE / 2) as u64, 4096),
                    conflict_in(old(mapper)@, (self.code_addr + MAX_PROC_SIZE / 2) as u64, 4096),
                    old(frame_alloc).available(),
                ),
                upcoming(*old(frame_alloc)),
                USER_FLAGS,
            ),
    {
        let heap_addr: u64 = self.code_addr + MAX_PROC_SIZE / 2;
        match crate::allocator::allocate(mapper, frame_alloc, heap_addr, 4096) {
            Ok(()) => Ok(
                Launch {
                    heap_addr,
                    frame: StackFrame {
                        rip: self.code_addr + self.entry_point_addr,
                        cs: USER_CODE as u64,
                        rflags: INTERRUPT_FLAG,
                        rsp: self.stack_addr,
                        ss: USER_DATA as u64,
                    },
                    rdi: args_ptr,
                    rsi: args_len,
                },
            ),
            Err(_) => Err(()),
        }
    }
}

/// All processes: slot `i` holds the process with identifier `i`, if it is
/// alive.
pub struct ProcessTable {
    pub slots: Vec<Option<Process>>,
    /// Identifier of the process that is running.
    pub current: usize,
    /// The counters that identifiers come from.
    pub ids: IdSource,
    /// Where the next process's code is placed.
    pub code_addr: u64,
}

impl ProcessTable {
    /// The table's invariant, which every operation keeps.
    pub open spec fn wf(&self) -> bool {
        &&& self.slots@.len() == 50
        &&& self.current < 50
        &&& forall|i: int|
            0 <= i < 50 && (#[trigger] self.slots@[i]) is Some ==> self.slots@[i]->0.wf()
                && self.slots@[i]->0.id.0 == i
        &&& forall|i: int|
            0 <= i < 50 && i >= self.ids.next_process ==> (#[trigger] self.slots@[i]) is None
    }

    /// The process with identifier `pid`, if it is alive.
    pub open spec fn process(&self, pid: int) -> Option<Process> {
        if 0 <= pid < self.slots@.len() {
            self.slots@[pid]
        } else {
            None
        }
    }

    /// An empty table; the first process will be placed at `code_addr`.
    pub fn new(code_addr: u64) -> (t: ProcessTable)
        ensures
            t.wf(),
            forall|i: int| 0 <= i < 50 ==> (#[trigger] t.slots@[i]) is None,
            t.current == 0,
            t.ids == (IdSource { next_thread: 0, next_process: 0, next_user: 0, next_group: 0 }),
            t.code_addr == code_addr,
    {
        let mut slots: Vec<Option<Process>> = Vec::new();
        let mut i: usize = 0;
        while i < MAX_PROCESSES
            invariant
                i <= 50,
                slots@.len() == i,
                forall|j: int| 0 <= j < i ==> (#[trigger] slots@[j]) is None,
            decreases 50 - i,
        {
            slots.push(None);
            i += 1;
        }
        ProcessTable { slots, current: 0, ids: IdSource::new(), code_addr }
    }

    /// The process that is running, if it is alive.
    pub fn current_process(&self) -> (p: Option<&Process>)
        requires
            self.wf(),
        ensures
            match p {
                Some(q) => self.slots@[self.current as int] == Some(*q),
                None => self.slots@[self.current as int] is None,
            },
    {
        self.slots[self.current].as_ref()
    }

    /// Makes the process with identifier `pid` the running one, if it is
    /// alive.
    pub fn set_current(&mut self, pid: ProcessId) -> (ok: bool)
        requires
            old(self).wf(),
        ensures
            final(self).wf(),
            ok == (old(self).process(pid.0 as int) is Some),
            final(self).slots == old(self).slots,
            final(self).ids == old(self).ids,
            final(self).code_addr == old(self).code_addr,
            final(self).current == if ok {
                pid.0 as usize
            } else {
                old(self).current
            },
    {
        if pid.0 < MAX_PROCESSES as u64 && self.slots[pid.0 as usize].is_some() {
            self.current = pid.0 as usize;
            true
        } else {
            false
        }
    }
}

impl ProcessTable {
    /// The table after the running process has forked: the child has the
    /// next identifier and sits in the slot of that number; it has the
    /// running process as its parent, no children, the parent's handles and
    /// code, and zero in the result register. The parent has the child
    /// among its children and is otherwise as before, and so are all other
    /// processes.
    pub open spec fn forked(&self, after: ProcessTable) -> bool {
        let parent = self.slots@[self.current as int]->0;
        let now = after.slots@[self.current as int]->0;
        let child = after.slots@[self.ids.next_process as int]->0;
        &&& after.ids == (IdSource { next_process: succ(self.ids.next_process), ..self.ids })
        &&& after.slots@[self.current as int] is Some
        &&& after.slots@[self.ids.next_process as int] is Some
        &&& child.id == ProcessId(self.ids.next_process)
        &&& child.parent == Some(parent.id)
        &&& child.children@ == Set::<u64>::empty()
        &&& child.resource_handles@ == parent.resource_handles@
        &&& child.code_addr == parent.code_addr
        &&& child.registers == (Registers { rax: 0, ..parent.registers })
        &&& now.id == parent.id
        &&& now.parent == parent.parent
        &&& now.children@ == parent.children@.insert(child.id.0)
        &&& now.resource_handles == parent.resource_handles
        &&& now.registers == parent.registers
        &&& forall|i: int|
            0 <= i < 50 && i != self.current && i != self.ids.next_process ==> after.slots@[i]
                == self.slots@[i]
    }
}

impl ProcessTable {
    /// Forks the running process as [`Process::fork`] does, and puts the
    /// child into the table. Returns the child's identifier. Nothing
    /// happens, and `None` is returned, when the running process is not
    /// alive or the table has no slot for the next identifier.
    pub fn fork(&mut self) -> (r: Option<ProcessId>)
        requires
            old(self).wf(),
        ensures
            final(self).wf(),
            final(self).current == old(self).current,
            final(self).code_addr == old(self).code_addr,
            r is Some <==> old(self).slots@[old(self).current as int] is Some
                && old(self).ids.next_process < 50,
            r is None ==> final(self).slots == old(self).slots && final(self).ids == old(self).ids,
            r is Some ==> r == Some(ProcessId(old(self).ids.next_process)) && old(self).forked(
                *final(self),
            ),
    {
        let pid: u64 = self.ids.next_process;
        if pid >= MAX_PROCESSES as u64 {
            return None;
        }
        let cur: usize = self.current;
        if self.slots[cur].is_none() {
            return None;
        }
        let child = match &mut self.slots[cur] {
            Some(p) => p.fork(&mut self.ids),
            None => {
                return None;
            },
        };
        let id = child.id;
        self.slots.set(pid as usize, Some(child));
        Some(id)
    }
}

impl ProcessTable {
    /// Creates a process with working directory `dir` whose code starts to
    /// run `entry_point_addr` bytes into its address range. The process
    /// gets the next identifier and the next free address range of 4 TiB,
    /// with its stack at the range's end. Returns its identifier.
    ///
    /// Nothing happens, and `None` is returned, when the table has no slot
    /// for the next identifier, when user space has no room for another
    /// address range, or when the entry point lies outside the range.
    pub fn spawn(&mut self, dir: &str, entry_point_addr: u64) -> (r: Option<ProcessId>)
        requires
            old(self).wf(),
        ensures
            final(self).wf(),
            final(self).current == old(self).current,
            r is Some <==> old(self).ids.next_process < 50 && old(self).code_addr + MAX_PROC_SIZE
                <= USER_SPACE_END && entry_point_addr < MAX_PROC_SIZE,
            r is None ==> final(self).slots == old(self).slots && final(self).ids == old(self).ids
                && final(self).code_addr == old(self).code_addr,
            r is Some ==> {
                let p = final(self).slots@[old(self).ids.next_process as int]->0;
                &&& r == Some(ProcessId(old(self).ids.next_process))
                &&& final(self).slots@[old(self).ids.next_process as int] is Some
                &&& final(self).code_addr == old(self).code_addr + MAX_PROC_SIZE
                &&& final(self).ids == (IdSource {
                    next_thread: succ(old(self).ids.next_thread),
                    next_process: succ(old(self).ids.next_process),
                    next_user: succ(old(self).ids.next_user),
                    next_group: succ(old(self).ids.next_group),
                })
                &&& p.id == ProcessId(old(self).ids.next_process)
                &&& p.parent is None
                &&& p.children@ == Set::<u64>::empty()
                &&& p.privileges.bits == OWNER_PRIVILEGES
                &&& p.dir@ == dir@
                &&& p.user == ProcessUserId(old(self).ids.next_user)
                &&& p.group == ProcessGroupId(old(self).ids.next_group)
                &&& p.env@ == Seq::<(String, String)>::empty()
                &&& p.threads@[0] == Some(
                    Thread { id: ThreadId(old(self).ids.next_thread), proc: p.id },
                )
                &&& p.resource_handles@ == initial_handles()
                &&& p.code_addr == old(self).code_addr
                &&& p.stack_addr == old(self).code_addr + MAX_PROC_SIZE
                &&& p.entry_point_addr == entry_point_addr
                &&& forall|i: int|
                    0 <= i < 50 && i != old(self).ids.next_process ==> final(self).slots@[i]
                        == old(self).slots@[i]
            },
    {
        let pid: u64 = self.ids.next_process;
        if pid >= MAX_PROCESSES as u64 || self.code_addr > USER_SPACE_END - MAX_PROC_SIZE
            || entry_point_addr >= MAX_PROC_SIZE {
            return None;
        }
        let mut p = Process::new(dir, &mut self.ids);
        p.code_addr = self.code_addr;
        p.stack_addr = self.code_addr + MAX_PROC_SIZE;
        p.entry_point_addr = entry_point_addr;
        let id = p.id;
        self.code_addr = self.code_addr + MAX_PROC_SIZE;
        self.slots.set(pid as usize, Some(p));
        Some(id)
    }

    /// Ends the running process as [`Process::exit`] does and takes it out
    /// of the table. Nothing happens, and `None` is returned, when the
    /// running process is not alive.
    pub fn exit(&mut self, code: u8, mapper: &mut Mapper) -> (r: Option<ExitCode>)
        requires
            old(self).wf(),
            old(mapper).wf(),
        ensures
            final(self).wf(),
            final(mapper).wf(),
            final(self).current == old(self).current,
            final(self).ids == old(self).ids,
            final(self).code_addr == old(self).code_addr,
            final(self).slots@ == old(self).slots@.update(old(self).current as int, None),
            match old(self).slots@[old(self).current as int] {
                Some(p) => r == Some(ExitCode::of(code as int)) && final(mapper)@
                    == crate::paging::without_range(
                    old(mapper)@,
                    first_page(p.code_addr),
                    crate::allocator::last_page(p.code_addr, MAX_PROC_SIZE),
                ),
                None => r is None && final(mapper)@ == old(mapper)@,
            },
    {
        let cur: usize = self.current;
        if self.slots[cur].is_none() {
            assert(self.slots@ =~= old(self).slots@.update(cur as int, None));
            return None;
        }
        let mut taken: Option<Process> = None;
        std::mem::swap(&mut taken, &mut self.slots[cur]);
        assert(self.slots@ =~= old(self).slots@.update(cur as int, None));
        match taken {
            Some(p) => Some(p.exit(code, mapper)),
            None => None,
        }
    }
}

/// A resource that is put under a handle is what the handle then stands
/// for, and no other handle changes. In particular, after a handle has been
/// duplicated the new handle stands for what the old one stood for.
pub proof fn lemma_handle_holds_what_was_installed(
    handles: Seq<Option<Resource>>,
    handle: int,
    other: int,
    resource: Option<Resource>,
)
    requires
        0 <= handle < handles.len(),
        0 <= other < handles.len(),
    ensures
        handles.update(handle, resource)[handle] == resource,
        other != handle ==> handles.update(handle, resource)[other] == handles[other],
        handles.update(handle, handles[other])[handle] == handles[other],
{
}

/// Two processes that differ in their handle tables at most.
pub open spec fn same_but_handles(p: Process, q: Process) -> bool {
    &&& p.id == q.id
    &&& p.parent == q.parent
    &&& p.children == q.children
    &&& p.privileges == q.privileges
    &&& p.dir == q.dir
    &&& p.user == q.user
    &&& p.group == q.group
    &&& p.env == q.env
    &&& p.threads == q.threads
    &&& p.code_addr == q.code_addr
    &&& p.stack_addr == q.stack_addr
    &&& p.entry_point_addr == q.entry_point_addr
    &&& p.stack_frame == q.stack_frame
    &&& p.registers == q.registers
}

impl ProcessTable {
    /// The running process, if it is alive.
    pub open spec fn running(&self) -> Option<Process> {
        self.slots@[self.current as int]
    }

    /// What `handle` stands for in the running process; nothing when that
    /// process is not alive, the handle is free or the number is no handle.
    pub open spec fn resource(&self, handle: usize) -> Option<Resource> {
        match self.running() {
            Some(p) => if handle < 64 {
                p.resource_handles@[handle as int]
            } else {
                None
            },
            None => None,
        }
    }

    /// The table after the running process's handle table has become
    /// `handles`: that process differs in its handles at most, and nothing
    /// else differs at all.
    pub open spec fn with_handles(
        &self,
        after: ProcessTable,
        handles: Seq<Option<Resource>>,
    ) -> bool {
        &&& after.current == self.current
        &&& after.ids == self.ids
        &&& after.code_addr == self.code_addr
        &&& after.slots@.len() == self.slots@.len()
        &&& forall|i: int|
            0 <= i < 50 && i != self.current ==> after.slots@[i] == self.slots@[i]
        &&& after.running() is Some
        &&& self.running() is Some
        &&& same_but_handles(after.running()->0, self.running()->0)
        &&& after.running()->0.resource_handles@ == handles
    }

    /// What `handle` stands for in the running process.
    pub fn handle(&self, handle: usize) -> (r: Option<Resource>)
        requires
            self.wf(),
        ensures
            r == self.resource(handle),
    {
        match &self.slots[self.current] {
            Some(p) => p.handle(handle),
            None => None,
        }
    }

    /// Puts `resource` under the running process's first free handle from
    /// 4 on and returns that handle; fails when that process is not alive
    /// or none of the handles is free.
    pub fn create_handle(&mut self, resource: Resource) -> (r: Result<usize, ()>)
        requires
            old(self).wf(),
        ensures
            final(self).wf(),
            match old(self).running() {
                Some(p) => match first_free(p.resource_handles@, 4) {
                    Some(h) => r == Ok::<usize, ()>(h as usize)
                        && 4 <= h < 64
                        && old(self).with_handles(*final(self), p.resource_handles@.update(h, Some(resource))),
                    None => r is Err && *final(self) == *old(self),
                },
                None => r is Err && *final(self) == *old(self),
            },
    {
        let cur: usize = self.current;
        if self.slots[cur].is_none() {
            return Err(());
        }
        let free = match &self.slots[cur] {
            Some(p) => find_free(&p.resource_handles),
            None => None,
        };
        match free {
            Some(h) => {
                self.set_handle(h, Some(resource));
                Ok(h)
            },
            None => Err(()),
        }
    }

    /// Puts `updated` under `handle` in the running process, or frees the
    /// handle when `updated` is nothing. Nothing happens when that process
    /// is not alive.
    pub fn set_handle(&mut self, handle: usize, updated: Option<Resource>)
        requires
            old(self).wf(),
            handle < 64,
        ensures
            final(self).wf(),
            match old(self).running() {
                Some(p) => old(self).with_handles(
                    *final(self),
                    p.resource_handles@.update(handle as int, updated),
                ),
                None => *final(self) == *old(self),
            },
    {
        let cur: usize = self.current;
        if self.slots[cur].is_none() {
            return ;
        }
        match &mut self.slots[cur] {
            Some(p) => {
                match updated {
                    Some(res) => p.update_handle(handle, res),
                    None => p.delete_handle(handle),
                }
            },
            None => {},
        }
    }
}

/// The first free handle from 4 on.
fn find_free(handles: &Vec<Option<Resource>>) -> (r: Option<usize>)
    requires
        handles@.len() == 64,
    ensures
        match first_free(handles@, 4) {
            Some(h) => r == Some(h as usize) && 4 <= h < 64 && handles@[h] is None,
            None => r is None,
        },
{
    let mut handle: usize = FIRST_FREE_HANDLE;
    while handle < MAX_RESOURCE_HANDLES
        invariant
            4 <= handle <= 64,
            handles@.len() == 64,
            first_free(handles@, 4) == first_free(handles@, handle as int),
        decreases 64 - handle,
    {
        if handles[handle].is_none() {
            return Some(handle);
        }
        handle += 1;
    }
    None
}

/// Two processes that differ in their environments at most.
pub open spec fn same_but_env(p: Process, q: Process) -> bool {
    &&& p.id == q.id
    &&& p.parent == q.parent
    &&& p.children == q.children
    &&& p.privileges == q.privileges
    &&& p.dir == q.dir
    &&& p.user == q.user
    &&& p.group == q.group
    &&& p.threads == q.threads
    &&& p.resource_handles == q.resource_handles
    &&& p.code_addr == q.code_addr
    &&& p.stack_addr == q.stack_addr
    &&& p.entry_point_addr == q.entry_point_addr
    &&& p.stack_frame == q.stack_frame
    &&& p.registers == q.registers
}

/// An environment in which the first variable called `key`, if there is
/// one, has the value `value`.
pub open spec fn env_with(
    env: Seq<(Seq<char>, Seq<char>)>,
    key: Seq<char>,
    value: Seq<char>,
) -> Seq<(Seq<char>, Seq<char>)>
    decreases env.len(),
{
    if env.len() == 0 {
        env
    } else if env[0].0 == key {
        seq![(key, value)] + env.drop_first()
    } else {
        seq![env[0]] + env_with(env.drop_first(), key, value)
    }
}

impl Process {
    /// Gives the environment variable `key` the value `value` if the
    /// variable is set; a variable that is not set stays unset.
    pub fn set_env(&mut self, key: &str, value: &str)
        ensures
            env_text(final(self).env@) == env_with(env_text(old(self).env@), key@, value@),
            same_but_env(*final(self), *old(self)),
            old(self).wf() ==> final(self).wf(),
    {
        let ghost before = env_text(self.env@);
        let mut i: usize = 0;
        proof {
            assert(before.skip(0) =~= before);
            assert(before.take(0) + env_with(before.skip(0), key@, value@) =~= env_with(
                before,
                key@,
                value@,
            ));
        }
        while i < self.env.len()
            invariant
                i <= self.env@.len(),
                self.env == old(self).env,
                same_but_env(*self, *old(self)),
                before == env_text(old(self).env@),
                env_with(before, key@, value@) == before.take(i as int) + env_with(
                    before.skip(i as int),
                    key@,
                    value@,
                ),
            decreases self.env@.len() - i,
        {
            proof {
                assert(before.skip(i as int)[0] == before[i as int]);
                assert(before.skip(i as int).drop_first() =~= before.skip(i + 1));
                assert(before.take(i + 1) =~= before.take(i as int) + seq![before[i as int]]);
            }
            if crate::console::str_eq(self.env[i].0.as_str(), key) {
                let name = String::from_str(key);
                let text = String::from_str(value);
                self.env.set(i, (name, text));
                assert(env_text(self.env@) =~= before.take(i as int) + (seq![(key@, value@)]
                    + before.skip(i + 1)));
                return ;
            }
            proof {
                let rest = env_with(before.skip(i + 1), key@, value@);
                assert(before.take(i as int) + (seq![before[i as int]] + rest) =~= before.take(
                    i + 1,
                ) + rest);
            }
            i += 1;
        }
        proof {
            assert(before.skip(i as int) =~= Seq::<(Seq<char>, Seq<char>)>::empty());
            assert(before.take(i as int) =~= before);
            assert(before + Seq::<(Seq<char>, Seq<char>)>::empty() =~= before);
        }
    }
}

} // verus!
