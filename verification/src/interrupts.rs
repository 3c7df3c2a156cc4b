//! Interrupt vectors: where the interrupt controller's lines land, which
//! exceptions are fatal, and which stack each of them runs on.

use crate::gdt::{
    DOUBLE_FAULT_IST_INDEX, GENERAL_PROTECTION_FAULT_IST_INDEX, PAGE_FAULT_IST_INDEX,
};
use crate::console::{handle_key_inp, Console};
use crate::serial::{received, translate};
use vstd::prelude::*;

verus! {

/// Vector of the first line of the first interrupt controller.
pub const PIC1_OFFSET: u8 = 32;

/// Vector of the first line of the second interrupt controller.
pub const PIC2_OFFSET: u8 = 40;

/// Vector of the system call.
pub const SYSCALL_VECTOR: u8 = 0x80;

/// Line of the timer.
pub const IRQ_TIMER: u8 = 0;

/// Line of the keyboard.
pub const IRQ_KEYBOARD: u8 = 1;

/// Line of the first serial port.
pub const IRQ_COM1: u8 = 4;

/// The vector on which interrupt line `n` arrives.
pub fn irq_idx(n: u8) -> (vector: usize)
    requires
        n < 16,
    ensures
        vector == 32 + n,
{
    (PIC1_OFFSET + n) as usize
}

/// The interrupt line that arrives on `vector`, if it is one of the
/// controllers' sixteen.
pub fn irq_of(vector: usize) -> (n: Option<u8>)
    ensures
        n == if 32 <= vector < 48 {
            Some((vector - 32) as u8)
        } else {
            None
        },
{
    if 32 <= vector && vector < 48 {
        Some((vector - 32) as u8)
    } else {
        None
    }
}

/// Which controllers have to be told that the interrupt on `vector` has
/// been served: the first for every line, the second as well for its own
/// lines, and none for a vector that is no line of theirs.
pub fn end_of_interrupt(vector: u8) -> (r: (bool, bool))
    ensures
        r.0 == (32 <= vector < 48),
        r.1 == (40 <= vector < 48),
{
    (PIC1_OFFSET <= vector && vector < PIC2_OFFSET + 8, PIC2_OFFSET <= vector && vector < PIC2_OFFSET + 8)
}

/// The CPU exceptions that the kernel handles.
#[derive(Debug, Clone, Copy, PartialEq, Eq, Structural)]
pub enum Exception {
    DivideError,
    Breakpoint,
    DoubleFault,
    SegmentNotPresent,
    StackSegmentFault,
    GeneralProtectionFault,
    PageFault,
}

impl Exception {
    /// The exception's vector.
    pub fn vector(self) -> (v: u8)
        ensures
            v == match self {
                Exception::DivideError => 0u8,
                Exception::Breakpoint => 3u8,
                Exception::DoubleFault => 8u8,
                Exception::SegmentNotPresent => 11u8,
                Exception::StackSegmentFault => 12u8,
                Exception::GeneralProtectionFault => 13u8,
                Exception::PageFault => 14u8,
            },
            v < 32,
    {
        match self {
            Exception::DivideError => 0,
            Exception::Breakpoint => 3,
            Exception::DoubleFault => 8,
            Exception::SegmentNotPresent => 11,
            Exception::StackSegmentFault => 12,
            Exception::GeneralProtectionFault => 13,
            Exception::PageFault => 14,
        }
    }

    /// Whether the kernel halts on the exception: it returns from a
    /// breakpoint and from a division by zero, and halts on all others.
    pub fn is_fatal(self) -> (fatal: bool)
        ensures
            fatal == !(self == Exception::Breakpoint || self == Exception::DivideError),
    {
        match self {
            Exception::Breakpoint => false,
            Exception::DivideError => false,
            _ => true,
        }
    }

    /// The interrupt stack that the exception's handler runs on, if it has
    /// one of its own.
    pub fn stack_index(self) -> (ist: Option<u16>)
        ensures
            ist == match self {
                Exception::DoubleFault => Some(0u16),
                Exception::PageFault => Some(1u16),
                Exception::GeneralProtectionFault => Some(2u16),
                _ => None,
            },
    {
        match self {
            Exception::DoubleFault => Some(DOUBLE_FAULT_IST_INDEX),
            Exception::PageFault => Some(PAGE_FAULT_IST_INDEX),
            Exception::GeneralProtectionFault => Some(GENERAL_PROTECTION_FAULT_IST_INDEX),
            _ => None,
        }
    }
}

/// Handles one byte that arrived on the serial line: it is translated and
/// delivered to the console as a key, as [`handle_key_inp`] delivers it.
pub fn com1_serial_interrupt_handler(console: &mut Console, byte: u8)
    requires
        old(console).wf(),
    ensures
        final(console).wf(),
        final(console)@ == old(console)@.key(received(byte)),
        !old(console).to_vga ==> final(console).vga == old(console).vga,
        !old(console).to_serial ==> final(console).serial == old(console).serial,
{
    let key = translate(byte);
    handle_key_inp(console, key);
}

} // verus!
