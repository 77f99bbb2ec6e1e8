//! The processor: the `vte` byte classifier feeding the dispatcher.
use vstd::prelude::*;
use vstd::slice::slice_to_vec;

use crate::action::{views, Action};
use crate::dispatch::ProcessorState;
use crate::event::{event_in_bounds, run_events, Event};

verus! {

#[verifier::external_type_specification]
#[verifier::external_body]
pub struct ExParser(vte::Parser);

/// Every OSC payload part that the classifier hands out is at most this long:
/// the parts are slices of its fixed OSC buffer.
pub const MAX_OSC_PART: usize = 1024;

/// An event as the classifier can hand it out.
pub open spec fn classified(e: Event) -> bool {
    match e {
        Event::Osc(ps) => forall|i: int| 0 <= i < ps@.len() ==> (#[trigger] ps@[i])@.len() <= MAX_OSC_PART,
        _ => true,
    }
}

/// Collects the classifier's events in order.
struct EventQueue {
    events: Vec<Event>,
}

impl vte::Perform for EventQueue {
    fn print(&mut self, c: char) {
        self.events.push(Event::Print(c));
    }

    fn execute(&mut self, byte: u8) {
        self.events.push(Event::Execute(byte));
    }

    /// Device control strings are recognised and passed over.
    fn hook(&mut self, _params: &[i64], _intermediates: &[u8], _ignore: bool) {
    }

    fn put(&mut self, _byte: u8) {
    }

    fn unhook(&mut self) {
    }

    fn osc_dispatch(&mut self, params: &[&[u8]]) {
        let mut parts: Vec<Vec<u8>> = Vec::new();
        let mut i: usize = 0;
        while i < params.len()
            decreases params.len() - i,
        {
            parts.push(slice_to_vec(params[i]));
            i = i + 1;
        }
        self.events.push(Event::Osc(parts));
    }

    fn csi_dispatch(&mut self, params: &[i64], intermediates: &[u8], ignore: bool, action: char) {
        self.events.push(
            Event::Csi {
                params: slice_to_vec(params),
                intermediates: slice_to_vec(intermediates),
                ignore,
                action,
            },
        );
    }

    fn esc_dispatch(&mut self, _params: &[i64], intermediates: &[u8], _ignore: bool, byte: u8) {
        self.events.push(Event::Esc { intermediates: slice_to_vec(intermediates), byte });
    }
}

/// Relies on `vte::Parser::advance`: feeds it one byte and returns, in order,
/// the events that it reports for that byte. Its OSC parts are slices of a
/// buffer of `MAX_OSC_PART` bytes.
#[verifier::external_body]
fn classify(parser: &mut vte::Parser, byte: u8) -> (r: Vec<Event>)
    ensures
        forall|i: int| 0 <= i < r@.len() ==> classified(#[trigger] r@[i]),
{
    let mut queue = EventQueue { events: Vec::new() };
    parser.advance(&mut queue, byte);
    queue.events
}

/// Relies on `vte::Parser::new`: a classifier in its ground state.
#[verifier::external_body]
fn new_classifier() -> (r: vte::Parser) {
    vte::Parser::new()
}

/// The byte classifier and the dispatcher, fed one byte at a time.
pub struct Processor {
    state: ProcessorState,
    parser: vte::Parser,
}

impl Processor {
    /// The preceding printed character that the dispatcher remembers.
    pub closed spec fn preceding_char(&self) -> Option<char> {
        self.state.preceding_char
    }

    pub fn new() -> (r: Processor)
        ensures
            r.preceding_char() is None,
    {
        Processor { state: ProcessorState::new(), parser: new_classifier() }
    }

    /// Feeds one byte of terminal output and returns the actions that it
    /// completes: those of the events that the classifier reports for it,
    /// in order. `lines` is the height of the screen.
    pub fn advance(&mut self, byte: u8, lines: usize) -> (r: Vec<Action>)
        ensures
            exists|events: Seq<Event>|
                (forall|i: int| 0 <= i < events.len() ==> classified(#[trigger] events[i]))
                    && run_events(old(self).preceding_char(), events, lines) == (
                    final(self).preceding_char(),
                    views(r@),
                ),
    {
        let events = classify(&mut self.parser, byte);
        assert forall|i: int| 0 <= i < events@.len() implies event_in_bounds(#[trigger] events@[i]) by {
            assert(classified(events@[i]));
        }
        let r = self.state.dispatch_all(&events, lines);
        assert(run_events(old(self).preceding_char(), events@, lines) == (
            self.preceding_char(),
            views(r@),
        ));
        r
    }
}

} // verus!
