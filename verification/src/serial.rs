//! The serial line: what is sent passes through an escape-sequence parser,
//! and what is received is translated for the line discipline.

use crate::vt::{parsed_run, stepped_run, VtEvent};
use vstd::prelude::*;
use vstd::string::StringSliceAdditionalSpecFns;

verus! {

/// I/O port base of the first serial port.
pub const COM1: u16 = 0x3F8;

/// The character that a received byte stands for: carriage return becomes
/// line feed, delete becomes backspace, and any other byte is the character
/// with its code.
pub open spec fn received(byte: u8) -> char {
    if byte == 0x0D {
        '\n'
    } else if byte == 0x7F {
        '\x08'
    } else {
        byte as char
    }
}

/// The character that a received byte stands for.
pub fn translate(byte: u8) -> (c: char)
    ensures
        c == received(byte),
{
    if byte == 0x0D {
        '\n'
    } else if byte == 0x7F {
        '\x08'
    } else {
        byte as char
    }
}

/// The echo setting that a CSI sequence asks of the serial line: `h` with a
/// parameter 12 switches echo on, `l` with a parameter 12 switches it off,
/// and every other sequence asks nothing.
pub open spec fn echo_request(params: Seq<u16>, action: char) -> Option<bool> {
    if (action == 'h' || action == 'l') && params.contains(12u16) {
        Some(action == 'h')
    } else {
        None
    }
}

/// What one parser event does on the serial line: the bytes that go out,
/// and the echo setting that it asks for.
pub open spec fn event_effect(event: VtEvent) -> (Seq<u8>, Option<bool>) {
    match event {
        VtEvent::Print(c) => (seq![c as u8], None),
        VtEvent::Execute(byte) => (seq![byte], None),
        VtEvent::Csi(params, action) => (Seq::empty(), echo_request(params@, action)),
    }
}

/// The bytes that a run of events sends.
pub open spec fn events_output(events: Seq<VtEvent>) -> Seq<u8>
    decreases events.len(),
{
    if events.len() == 0 {
        Seq::empty()
    } else {
        events_output(events.drop_last()) + event_effect(events.last()).0
    }
}

/// The last echo setting that a run of events asks for.
pub open spec fn events_echo(events: Seq<VtEvent>) -> Option<bool>
    decreases events.len(),
{
    if events.len() == 0 {
        None
    } else if event_effect(events.last()).1 is Some {
        event_effect(events.last()).1
    } else {
        events_echo(events.drop_last())
    }
}

/// The serial line's sending side: its parser, and the bytes that wait to
/// be put on the wire.
pub struct Serial {
    parser: vte::Parser,
    tx: Vec<u8>,
}

impl View for Serial {
    type V = Seq<u8>;

    /// The bytes that wait to be sent, oldest first.
    closed spec fn view(&self) -> Seq<u8> {
        self.tx@
    }
}

impl Serial {
    /// The parser that what is sent goes through.
    pub closed spec fn parser(&self) -> vte::Parser {
        self.parser
    }

    /// A serial line with nothing to send.
    pub fn new() -> (s: Serial)
        ensures
            s@ == Seq::<u8>::empty(),
    {
        Serial { parser: crate::vt::new_parser(), tx: Vec::new() }
    }

    /// Queues one byte for sending.
    pub fn write_byte(&mut self, byte: u8)
        ensures
            final(self)@ == old(self)@.push(byte),
            final(self).parser() == old(self).parser(),
    {
        self.tx.push(byte);
    }

    /// Hands over the bytes that wait to be sent, and empties the queue.
    pub fn take_output(&mut self) -> (out: Vec<u8>)
        ensures
            out@ == old(self)@,
            final(self)@ == Seq::<u8>::empty(),
            final(self).parser() == old(self).parser(),
    {
        let mut out: Vec<u8> = Vec::new();
        std::mem::swap(&mut out, &mut self.tx);
        out
    }

    /// Carries out one parser event: a character or control byte is queued,
    /// and a CSI sequence only reports the echo setting it asks for.
    pub fn apply(&mut self, event: &VtEvent) -> (echo: Option<bool>)
        ensures
            final(self)@ == old(self)@ + event_effect(*event).0,
            echo == event_effect(*event).1,
            final(self).parser() == old(self).parser(),
    {
        match event {
            VtEvent::Print(c) => {
                self.write_byte(#[verifier::truncate] (*c as u8));
                assert(self@ =~= old(self)@ + event_effect(*event).0);
                None
            },
            VtEvent::Execute(byte) => {
                self.write_byte(*byte);
                assert(self@ =~= old(self)@ + event_effect(*event).0);
                None
            },
            VtEvent::Csi(params, action) => {
                assert(self@ =~= old(self)@ + event_effect(*event).0);
                if (*action == 'h' || *action == 'l') && has_param(params, 12) {
                    Some(*action == 'h')
                } else {
                    None
                }
            },
        }
    }

    /// Carries out a run of parser events in order.
    pub fn apply_all(&mut self, events: &Vec<VtEvent>) -> (echo: Option<bool>)
        ensures
            final(self)@ == old(self)@ + events_output(events@),
            echo == events_echo(events@),
            final(self).parser() == old(self).parser(),
    {
        let mut echo: Option<bool> = None;
        let mut i: usize = 0;
        assert(self@ =~= old(self)@ + events_output(events@.take(0)));
        while i < events.len()
            invariant
                i <= events@.len(),
                self@ == old(self)@ + events_output(events@.take(i as int)),
                echo == events_echo(events@.take(i as int)),
                self.parser() == old(self).parser(),
            decreases events@.len() - i,
        {
            proof {
                assert(events@.take(i + 1).drop_last() =~= events@.take(i as int));
                assert(events@.take(i + 1).last() == events@[i as int]);
            }
            let e = self.apply(&events[i]);
            if e.is_some() {
                echo = e;
            }
            i += 1;
            assert(self@ =~= old(self)@ + events_output(events@.take(i as int)));
        }
        proof {
            assert(events@.take(i as int) =~= events@);
        }
        echo
    }

    /// Sends bytes through the escape-sequence parser: the parser takes the
    /// bytes one after the other, and every event that it reports is
    /// carried out as [`Serial::apply`] says, in order. Returns the last
    /// echo setting that the events ask for, if any.
    pub fn write_bytes(&mut self, bytes: &[u8]) -> (echo: Option<bool>)
        ensures
            final(self)@ == old(self)@ + events_output(parsed_run(old(self).parser(), bytes@)),
            echo == events_echo(parsed_run(old(self).parser(), bytes@)),
            final(self).parser() == stepped_run(old(self).parser(), bytes@),
    {
        let mut echo: Option<bool> = None;
        let mut i: usize = 0;
        proof {
            assert(bytes@.take(0) =~= Seq::<u8>::empty());
            assert(self@ + Seq::<u8>::empty() =~= self@);
        }
        while i < bytes.len()
            invariant
                i <= bytes@.len(),
                self@ == old(self)@ + events_output(
                    parsed_run(old(self).parser(), bytes@.take(i as int)),
                ),
                echo == events_echo(parsed_run(old(self).parser(), bytes@.take(i as int))),
                self.parser() == stepped_run(old(self).parser(), bytes@.take(i as int)),
            decreases bytes@.len() - i,
        {
            proof {
                assert(bytes@.take(i + 1).drop_last() =~= bytes@.take(i as int));
                assert(bytes@.take(i + 1).last() == bytes@[i as int]);
            }
            let ghost before = parsed_run(old(self).parser(), bytes@.take(i as int));
            let events = crate::vt::advance(&mut self.parser, bytes[i]);
            let e = self.apply_all(&events);
            proof {
                lemma_events_concat(before, events@);
                let start = old(self)@;
                let first = events_output(before);
                let second = events_output(events@);
                assert(start + (first + second) =~= (start + first) + second);
            }
            if e.is_some() {
                echo = e;
            }
            i += 1;
        }
        proof {
            assert(bytes@.take(i as int) =~= bytes@);
        }
        echo
    }
}

/// What two runs of events send and ask for when one follows the other:
/// the bytes of both in order, and the echo setting of the second if it
/// asks for one, else that of the first.
pub proof fn lemma_events_concat(a: Seq<VtEvent>, b: Seq<VtEvent>)
    ensures
        events_output(a + b) == events_output(a) + events_output(b),
        events_echo(a + b) == if events_echo(b) is Some {
            events_echo(b)
        } else {
            events_echo(a)
        },
    decreases b.len(),
{
    if b.len() == 0 {
        assert(a + b =~= a);
        assert(events_output(a) + events_output(b) =~= events_output(a));
    } else {
        assert((a + b).drop_last() =~= a + b.drop_last());
        assert((a + b).last() == b.last());
        lemma_events_concat(a, b.drop_last());
        assert((events_output(a) + events_output(b.drop_last())) + event_effect(b.last()).0
            =~= events_output(a) + (events_output(b.drop_last()) + event_effect(b.last()).0));
    }
}

/// Prints text on the serial line, as [`Serial::write_bytes`] sends its
/// bytes. Returns the last echo setting that the text asks for, if any.
pub fn serial_print(serial: &mut Serial, text: &str) -> (echo: Option<bool>)
    ensures
        final(serial)@ == old(serial)@ + events_output(
            parsed_run(old(serial).parser(), text.spec_bytes()),
        ),
        echo == events_echo(parsed_run(old(serial).parser(), text.spec_bytes())),
        final(serial).parser() == stepped_run(old(serial).parser(), text.spec_bytes()),
{
    serial.write_bytes(text.as_bytes())
}

/// Whether `value` is among the parameters.
fn has_param(params: &Vec<u16>, value: u16) -> (r: bool)
    ensures
        r == params@.contains(value),
{
    let mut i: usize = 0;
    while i < params.len()
        invariant
            i <= params@.len(),
            forall|j: int| 0 <= j < i ==> params@[j] != value,
        decreases params@.len() - i,
    {
        if params[i] == value {
            return true;
        }
        i += 1;
    }
    false
}

} // verus!
