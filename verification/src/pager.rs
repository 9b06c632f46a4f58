//! The pager loop's state machine: what one delivery from the reader does to
//! the buffer, what one domain event does, and what the surrounding loop
//! must perform in response. The loop itself — terminal control, channel
//! plumbing, sleeps — lives outside the library and only carries these
//! decisions out.

use vstd::prelude::*;

use crate::buffer::BufferView;
use crate::buffer::Direction;
use crate::buffer::PagerBuffer;
use crate::buffer::spec_new_target;
use crate::buffer::spec_sat_add;
use crate::buffer::spec_sat_sub;
use crate::buffer::spec_screen;
use crate::buffer::spec_scroll_down;
use crate::events::LeastEvent;

verus! {

/// One attempted receive from the reader channel, as the loop sees it: a
/// line arrived, nothing is waiting right now, or the sender is gone and no
/// further lines will ever arrive.
pub enum ReaderNote {
    Line(String),
    Empty,
    Disconnected,
}

/// What the loop must do after applying one domain event: leave the loop,
/// paint the given screen, or nothing at all.
pub enum EventOutcome {
    Quit,
    Repaint(Vec<String>),
    Idle,
}

/// The buffer after one reader delivery: a line is appended, an empty poll
/// changes nothing, and a disconnect sets the end-of-input flag and nothing
/// else.
pub open spec fn spec_handle_reader(b: BufferView, note: ReaderNote) -> BufferView {
    match note {
        ReaderNote::Line(s) => BufferView { lines: b.lines.push(s@), ..b },
        ReaderNote::Empty => b,
        ReaderNote::Disconnected => BufferView { reached_eof: true, ..b },
    }
}

/// One drain tick as the loop performs it: the reader channel is consulted
/// only while the end of input has not been reached; afterwards the tick
/// leaves the buffer alone.
pub open spec fn spec_drain_tick(b: BufferView, note: ReaderNote) -> BufferView {
    if b.reached_eof {
        b
    } else {
        spec_handle_reader(b, note)
    }
}

/// The buffer after one domain event. A scroll moves the origin one step;
/// a downward scroll also refreshes the read-ahead target from the terminal
/// height; exiting, a resize and a no-op leave the buffer untouched.
pub open spec fn spec_apply_state(b: BufferView, ev: LeastEvent, term_rows: int) -> BufferView {
    match ev {
        LeastEvent::ScrollUp => BufferView { row: spec_sat_sub(b.row, 1), ..b },
        LeastEvent::ScrollDown => BufferView {
            row: spec_scroll_down(b.row, 1, b.lines.len() as int),
            target: spec_new_target(b.target, b.lines.len() as int, b.reached_eof, term_rows),
            ..b
        },
        LeastEvent::ScrollLeft => BufferView { col: spec_sat_sub(b.col, 1), ..b },
        LeastEvent::ScrollRight => BufferView { col: spec_sat_add(b.col, 1), ..b },
        LeastEvent::Exit => b,
        LeastEvent::Nop => b,
        LeastEvent::Resize(_, _) => b,
    }
}

/// The size a repaint uses after each event: the current terminal size for a
/// scroll, the announced size for a resize, and none — no repaint — for an
/// exit or a no-op.
pub open spec fn spec_paint_size(ev: LeastEvent, term_size: (u16, u16)) -> Option<(u16, u16)> {
    match ev {
        LeastEvent::ScrollUp => Some(term_size),
        LeastEvent::ScrollDown => Some(term_size),
        LeastEvent::ScrollLeft => Some(term_size),
        LeastEvent::ScrollRight => Some(term_size),
        LeastEvent::Resize(w, h) => Some((w, h)),
        LeastEvent::Exit => None::<(u16, u16)>,
        LeastEvent::Nop => None::<(u16, u16)>,
    }
}

/// What a correct outcome of one applied event is: quit exactly on `Exit`,
/// nothing exactly on `Nop`, and otherwise a repaint showing the buffer `b`
/// at the size the event calls for.
pub open spec fn spec_outcome_ok(
    b: BufferView,
    ev: LeastEvent,
    term_size: (u16, u16),
    r: EventOutcome,
) -> bool {
    match r {
        EventOutcome::Quit => ev is Exit,
        EventOutcome::Idle => ev is Nop,
        EventOutcome::Repaint(screen) => match spec_paint_size(ev, term_size) {
            Some(sz) => screen.deep_view() == spec_screen(
                b.lines,
                b.row,
                b.col,
                sz.0 as int,
                sz.1 as int,
            ),
            None => false,
        },
    }
}

impl PagerBuffer {
    /// Applies one domain event to the buffer and hands back what the loop
    /// must do: quit, paint the returned screen, or nothing. A scroll moves
    /// the origin one step and repaints at the current terminal size; a
    /// downward scroll also refreshes the read-ahead target; a resize
    /// repaints at the announced size.
    pub fn apply_event(&mut self, ev: LeastEvent, term_size: (u16, u16)) -> (r: EventOutcome)
        requires
            old(self).wf(),
            ev is ScrollDown ==> old(self).lines.len() + 4 * (term_size.1 as int) <= usize::MAX,
        ensures
            final(self).wf(),
            final(self)@ == spec_apply_state(old(self)@, ev, term_size.1 as int),
            spec_outcome_ok(final(self)@, ev, term_size, r),
            (r is Quit) == (ev is Exit),
            (r is Idle) == (ev is Nop),
    {
        match ev {
            LeastEvent::Exit => EventOutcome::Quit,
            LeastEvent::Nop => EventOutcome::Idle,
            LeastEvent::ScrollUp => {
                self.scroll(1, Direction::Up);
                EventOutcome::Repaint(self.compute_screen(term_size))
            },
            LeastEvent::ScrollDown => {
                self.scroll(1, Direction::Down);
                self.update_target(term_size.1);
                EventOutcome::Repaint(self.compute_screen(term_size))
            },
            LeastEvent::ScrollLeft => {
                self.scroll(1, Direction::Left);
                EventOutcome::Repaint(self.compute_screen(term_size))
            },
            LeastEvent::ScrollRight => {
                self.scroll(1, Direction::Right);
                EventOutcome::Repaint(self.compute_screen(term_size))
            },
            LeastEvent::Resize(w, h) => EventOutcome::Repaint(self.compute_screen((w, h))),
        }
    }

    /// Applies one reader delivery to the buffer and says whether the loop
    /// should keep draining: yes after a line, no once the channel is empty
    /// or gone.
    pub fn handle_reader(&mut self, note: ReaderNote) -> (more: bool)
        requires
            old(self).wf(),
        ensures
            final(self).wf(),
            final(self)@ == spec_handle_reader(old(self)@, note),
            more == (note is Line),
    {
        match note {
            ReaderNote::Line(s) => {
                let ghost sv = s@;
                self.push_line(s);
                proof {
                    assert(self.lines.deep_view() =~= old(self).lines.deep_view().push(sv));
                }
                true
            },
            ReaderNote::Empty => false,
            ReaderNote::Disconnected => {
                self.mark_eof();
                false
            },
        }
    }
}

/// The reader worker's decision each turn: fetch the next line while the
/// count of delivered lines is below the advertised target, otherwise pause
/// and look again.
pub fn reader_should_read(delivered: usize, target: usize) -> (fetch: bool)
    ensures
        fetch == (delivered < target),
{
    delivered < target
}

/// The read-ahead target never decreases: not under any domain event and not
/// under any drain tick, and every transition the loop performs is one of
/// the two.
pub proof fn lemma_target_monotone(
    b: BufferView,
    ev: LeastEvent,
    term_rows: int,
    note: ReaderNote,
)
    ensures
        spec_apply_state(b, ev, term_rows).target >= b.target,
        spec_drain_tick(b, note).target == b.target,
{
}

/// The end-of-input flag is a latch. A reader disconnect sets it and leaves
/// the lines untouched; no transition ever clears it; and once it is set, a
/// drain tick no longer changes the buffer at all — the lines can only grow
/// while input is still flowing.
pub proof fn lemma_eof_latch(b: BufferView, ev: LeastEvent, term_rows: int, note: ReaderNote)
    ensures
        spec_handle_reader(b, ReaderNote::Disconnected).reached_eof,
        spec_handle_reader(b, ReaderNote::Disconnected).lines == b.lines,
        spec_apply_state(b, ev, term_rows).reached_eof == b.reached_eof,
        spec_apply_state(b, ev, term_rows).lines == b.lines,
        b.reached_eof ==> spec_drain_tick(b, note) == b,
{
}

} // verus!
