//! The events of the byte classifier, and the dispatch of whole streams of
//! them.
use vstd::prelude::*;

use crate::action::{views, Action, ActionView};
use crate::c0;
use crate::dispatch::{csi_actions, esc_actions, execute_actions, none, ProcessorState};
use crate::osc::{byte_strings, osc_actions};

verus! {

/// One event of the byte classifier.
#[derive(Debug, Clone, PartialEq, Eq)]
pub enum Event {
    /// A printable character.
    Print(char),
    /// A C0 or C1 control byte.
    Execute(u8),
    /// A control sequence: parameters, intermediate bytes, whether bytes of
    /// it were dropped, and the final character.
    Csi { params: Vec<i64>, intermediates: Vec<u8>, ignore: bool, action: char },
    /// An escape sequence: intermediate bytes and the final byte.
    Esc { intermediates: Vec<u8>, byte: u8 },
    /// An operating system command, its payload split at `;`.
    Osc(Vec<Vec<u8>>),
}

/// The payload parts of an event are of a size that can be decoded.
pub open spec fn event_in_bounds(e: Event) -> bool {
    match e {
        Event::Osc(ps) => forall|i: int|
            0 <= i < ps@.len() ==> (#[trigger] ps@[i])@.len() <= usize::MAX / 4,
        _ => true,
    }
}

/// The preceding character after an event, and the actions of the event.
/// `lines` is the height of the screen.
pub open spec fn event_step(preceding: Option<char>, e: Event, lines: usize) -> (
    Option<char>,
    Seq<ActionView>,
) {
    match e {
        Event::Print(c) => (Some(c), seq![ActionView::Input(c)]),
        Event::Execute(b) => (preceding, execute_actions(b)),
        Event::Csi { params, intermediates, ignore, action } => (
            preceding,
            csi_actions(preceding, params@, intermediates@, ignore, action, lines),
        ),
        Event::Esc { intermediates, byte } => (
            if byte == 0x63 {
                None
            } else {
                preceding
            },
            esc_actions(intermediates@, byte),
        ),
        Event::Osc(ps) => (preceding, osc_actions(byte_strings(ps@))),
    }
}

/// The preceding character after a stream of events, and all their actions
/// in order.
pub open spec fn run_events(preceding: Option<char>, events: Seq<Event>, lines: usize) -> (
    Option<char>,
    Seq<ActionView>,
)
    decreases events.len(),
{
    if events.len() == 0 {
        (preceding, Seq::empty())
    } else {
        let before = run_events(preceding, events.drop_last(), lines);
        let step = event_step(before.0, events.last(), lines);
        (step.0, before.1 + step.1)
    }
}

/// Dispatching a stream of events in two parts, the second from the state
/// that the first left behind, gives the same actions in the same order,
/// and the same final state, as dispatching the stream whole.
pub proof fn lemma_split_dispatch(
    preceding: Option<char>,
    first: Seq<Event>,
    second: Seq<Event>,
    lines: usize,
)
    ensures
        run_events(preceding, first + second, lines) == (
            run_events(run_events(preceding, first, lines).0, second, lines).0,
            run_events(preceding, first, lines).1 + run_events(
                run_events(preceding, first, lines).0,
                second,
                lines,
            ).1,
        ),
    decreases second.len(),
{
    if second.len() == 0 {
        assert(first + second =~= first);
        assert(run_events(preceding, first, lines).1 + Seq::<ActionView>::empty()
            =~= run_events(preceding, first, lines).1);
    } else {
        let whole = first + second;
        assert(whole.drop_last() =~= first + second.drop_last());
        assert(whole.last() == second.last());
        lemma_split_dispatch(preceding, first, second.drop_last(), lines);
        let mid = run_events(preceding, first, lines);
        let rest = run_events(mid.0, second.drop_last(), lines);
        let step = event_step(rest.0, second.last(), lines);
        assert(mid.1 + rest.1 + step.1 =~= mid.1 + (rest.1 + step.1));
    }
}

/// A CAN control byte that aborts a sequence reaches the dispatcher as an
/// execute event. Inserting one anywhere in a stream of events changes
/// neither the actions nor the final state; inserting a SUB adds exactly one
/// `substitute` at that point and changes nothing else.
pub proof fn lemma_cancel_event(
    preceding: Option<char>,
    first: Seq<Event>,
    second: Seq<Event>,
    lines: usize,
)
    ensures
        run_events(preceding, first + seq![Event::Execute(c0::CAN)] + second, lines) == run_events(
            preceding,
            first + second,
            lines,
        ),
        run_events(preceding, first + seq![Event::Execute(c0::SUB)] + second, lines) == (
            run_events(preceding, first + second, lines).0,
            run_events(preceding, first, lines).1 + seq![ActionView::Substitute] + run_events(
                run_events(preceding, first, lines).0,
                second,
                lines,
            ).1,
        ),
{
    let mid = run_events(preceding, first, lines);
    let rest = run_events(mid.0, second, lines);
    let can = seq![Event::Execute(c0::CAN)];
    let sub = seq![Event::Execute(c0::SUB)];
    assert(can.drop_last() =~= Seq::<Event>::empty());
    assert(sub.drop_last() =~= Seq::<Event>::empty());
    assert(execute_actions(c0::CAN) =~= Seq::<ActionView>::empty());
    assert(execute_actions(c0::SUB) =~= seq![ActionView::Substitute]);
    assert(run_events(mid.0, Seq::<Event>::empty(), lines) == (mid.0, Seq::<ActionView>::empty()));
    assert(run_events(mid.0, can, lines) =~= (mid.0, Seq::<ActionView>::empty()));
    assert(run_events(mid.0, sub, lines) =~= (mid.0, seq![ActionView::Substitute]));
    lemma_split_dispatch(preceding, first, second, lines);
    lemma_split_dispatch(preceding, first, can, lines);
    assert(run_events(preceding, first + can, lines) =~= mid);
    lemma_split_dispatch(preceding, first + can, second, lines);
    assert(run_events(preceding, first + can + second, lines) =~= (rest.0, mid.1 + rest.1));
    lemma_split_dispatch(preceding, first, sub, lines);
    assert(run_events(preceding, first + sub, lines) =~= (mid.0, mid.1 + seq![ActionView::Substitute]));
    lemma_split_dispatch(preceding, first + sub, second, lines);
    assert(run_events(preceding, first + sub + second, lines) =~= (
        rest.0,
        mid.1 + seq![ActionView::Substitute] + rest.1,
    ));
}

pub(crate) fn append_actions(out: &mut Vec<Action>, more: Vec<Action>)
    ensures
        views(final(out)@) == views(old(out)@) + views(more@),
{
    let mut more = more;
    let ghost m = more@;
    out.append(&mut more);
    assert(views(out@) =~= views(old(out)@) + views(m));
}

impl ProcessorState {
    /// Dispatches one event. `lines` is the height of the screen.
    pub fn dispatch(&mut self, event: &Event, lines: usize) -> (r: Vec<Action>)
        requires
            event_in_bounds(*event),
        ensures
            (final(self).preceding_char, views(r@)) == event_step(
                old(self).preceding_char,
                *event,
                lines,
            ),
    {
        match event {
            Event::Print(c) => self.print(*c),
            Event::Execute(b) => self.execute(*b),
            Event::Csi { params, intermediates, ignore, action } => self.csi_dispatch(
                params.as_slice(),
                intermediates.as_slice(),
                *ignore,
                *action,
                lines,
            ),
            Event::Esc { intermediates, byte } => self.esc_dispatch(intermediates.as_slice(), *byte),
            Event::Osc(ps) => self.osc_dispatch(ps),
        }
    }

    /// Dispatches a stream of events in order, and returns all their actions.
    pub fn dispatch_all(&mut self, events: &Vec<Event>, lines: usize) -> (r: Vec<Action>)
        requires
            forall|i: int| 0 <= i < events@.len() ==> event_in_bounds(#[trigger] events@[i]),
        ensures
            (final(self).preceding_char, views(r@)) == run_events(
                old(self).preceding_char,
                events@,
                lines,
            ),
    {
        let mut out = none();
        let mut i: usize = 0;
        assert(events@.take(0) =~= Seq::<Event>::empty());
        while i < events.len()
            invariant
                0 <= i <= events@.len(),
                forall|j: int| 0 <= j < events@.len() ==> event_in_bounds(#[trigger] events@[j]),
                (self.preceding_char, views(out@)) == run_events(
                    old(self).preceding_char,
                    events@.take(i as int),
                    lines,
                ),
            decreases events.len() - i,
        {
            assert(events@.take(i as int + 1).drop_last() =~= events@.take(i as int));
            let more = self.dispatch(&events[i], lines);
            append_actions(&mut out, more);
            i = i + 1;
        }
        assert(events@.take(events@.len() as int) =~= events@);
        out
    }
}

} // verus!
