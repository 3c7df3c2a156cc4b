//! Escape-sequence parsing: the byte-level state machine is the `vte`
//! crate's; this module turns what it reports into plain events.

use vstd::prelude::*;

verus! {

#[verifier::external_type_specification]
#[verifier::external_body]
pub struct ExParser<const N: usize>(vte::Parser<N>);

#[verifier::external_type_specification]
#[verifier::external_body]
pub struct ExParams(vte::Params);

/// One action that the parser asks for.
#[derive(Debug, PartialEq, Eq)]
pub enum VtEvent {
    /// Draw a character.
    Print(char),
    /// Carry out a control byte.
    Execute(u8),
    /// A CSI sequence: the first value of each parameter, and the final
    /// character.
    Csi(Vec<u16>, char),
}

/// Collects the actions that the parser asks for while it consumes a byte.
pub struct EventLog {
    pub events: Vec<VtEvent>,
}

/// The first value of each parameter that a parameter list holds, in
/// order.
pub uninterp spec fn first_of_each(params: vte::Params) -> Seq<u16>;

impl vte::Perform for EventLog {
    /// Records that a character is to be drawn.
    fn print(&mut self, c: char)
        ensures
            final(self).events@ == old(self).events@.push(VtEvent::Print(c)),
    {
        self.events.push(VtEvent::Print(c));
    }

    /// Records that a control byte is to be carried out.
    fn execute(&mut self, byte: u8)
        ensures
            final(self).events@ == old(self).events@.push(VtEvent::Execute(byte)),
    {
        self.events.push(VtEvent::Execute(byte));
    }

    /// Records a CSI sequence: the first value of each of its parameters,
    /// and its final character. Intermediate bytes are not kept.
    fn csi_dispatch(
        &mut self,
        params: &vte::Params,
        _intermediates: &[u8],
        _ignore: bool,
        action: char,
    )
        ensures
            final(self).events@.len() == old(self).events@.len() + 1,
            final(self).events@.drop_last() == old(self).events@,
            final(self).events@.last() matches VtEvent::Csi(values, a) && values@
                == first_of_each(*params) && a == action,
    {
        let values = first_values(params);
        self.events.push(VtEvent::Csi(values, action));
        assert(self.events@.drop_last() =~= old(self).events@);
    }
}

/// `vte::Params::iter`: the parameters of a list in order, each of them
/// as the slice of its values, which holds one value at least. This keeps
/// the first value of each parameter.
#[verifier::external_body]
fn first_values(params: &vte::Params) -> (values: Vec<u16>)
    ensures
        values@ == first_of_each(*params),
{
    params.iter().map(|p| p[0]).collect()
}

/// The events that a parser reports when it takes `byte`.
pub uninterp spec fn parsed(parser: vte::Parser, byte: u8) -> Seq<VtEvent>;

/// The parser after it has taken `byte`.
pub uninterp spec fn stepped(parser: vte::Parser, byte: u8) -> vte::Parser;

/// The parser after it has taken `bytes`, one after the other.
pub open spec fn stepped_run(parser: vte::Parser, bytes: Seq<u8>) -> vte::Parser
    decreases bytes.len(),
{
    if bytes.len() == 0 {
        parser
    } else {
        stepped(stepped_run(parser, bytes.drop_last()), bytes.last())
    }
}

/// The events that a parser reports while it takes `bytes`, one after the
/// other: those of each byte, in order.
pub open spec fn parsed_run(parser: vte::Parser, bytes: Seq<u8>) -> Seq<VtEvent>
    decreases bytes.len(),
{
    if bytes.len() == 0 {
        Seq::empty()
    } else {
        parsed_run(parser, bytes.drop_last()) + parsed(
            stepped_run(parser, bytes.drop_last()),
            bytes.last(),
        )
    }
}

/// `vte::Parser::new`: a parser in its ground state.
#[verifier::external_body]
pub(crate) fn new_parser() -> vte::Parser {
    vte::Parser::new()
}

/// `vte::Parser::advance`: feeds one byte to the parser and returns the
/// events that it reported to the log, in order. Events and the parser
/// afterwards depend on nothing but the parser before and the byte.
#[verifier::external_body]
pub(crate) fn advance(parser: &mut vte::Parser, byte: u8) -> (events: Vec<VtEvent>)
    ensures
        events@ == parsed(*old(parser), byte),
        *final(parser) == stepped(*old(parser), byte),
{
    let mut log = EventLog { events: Vec::new() };
    parser.advance(&mut log, byte);
    log.events
}

} // verus!
