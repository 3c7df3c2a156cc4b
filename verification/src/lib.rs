//! Core logic of a small x86-64 kernel: the text console and its escape
//! sequences, the line discipline, processes and their resource handles, the
//! system-call dispatcher, and physical and virtual memory bookkeeping.
//!
//! Everything here works on plain values; the hardware is driven by the
//! caller, which feeds events in and carries register values out.

pub mod allocator;
pub mod console;
pub mod frame_alloc;
pub mod fs;
pub mod gdt;
pub mod interrupts;
pub mod kernel;
pub mod keyboard;
pub mod paging;
pub mod process;
pub mod resource;
pub mod scheduler;
pub mod serial;
pub mod stdout;
pub mod syscall;
pub mod task;
pub mod vga;
pub mod vga_regs;
pub mod vt;
