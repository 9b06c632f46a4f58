//! The domain-event alphabet and the total mapping from raw terminal
//! events into it.

use vstd::prelude::*;

verus! {

/// What the terminal reported, reduced to the fields the pager reads: which
/// key (with whether any modifier was held), which kind of mouse action, or
/// the new size on a resize.
#[derive(Clone, Copy, PartialEq, Eq, Structural, Debug)]
pub enum RawKeyCode {
    Char(char),
    Up,
    Down,
    Left,
    Right,
    Other,
}

/// The mouse actions the pager distinguishes: the two wheel directions, and
/// everything else.
#[derive(Clone, Copy, PartialEq, Eq, Structural, Debug)]
pub enum RawMouseKind {
    WheelUp,
    WheelDown,
    Other,
}

/// One raw terminal event. `plain` is true when no modifier key was held.
#[derive(Clone, Copy, PartialEq, Eq, Structural, Debug)]
pub enum RawEvent {
    Key { code: RawKeyCode, plain: bool },
    Mouse(RawMouseKind),
    Resize(u16, u16),
}

/// The pager's domain events: one scroll step in each direction, a resize
/// carrying the new terminal size, quitting, and the catch-all no-op.
#[derive(Clone, Copy, PartialEq, Eq, Structural, Debug)]
pub enum LeastEvent {
    ScrollUp,
    ScrollDown,
    ScrollLeft,
    ScrollRight,
    Exit,
    Nop,
    Resize(u16, u16),
}

/// The mapping table: `q` without modifiers quits, unmodified arrow keys
/// and the mouse wheel scroll, a resize passes its size through, and every
/// other event is a no-op.
pub open spec fn spec_process_event(ev: RawEvent) -> LeastEvent {
    match ev {
        RawEvent::Key { code, plain } => if !plain {
            LeastEvent::Nop
        } else {
            match code {
                RawKeyCode::Char(c) => if c == 'q' {
                    LeastEvent::Exit
                } else {
                    LeastEvent::Nop
                },
                RawKeyCode::Up => LeastEvent::ScrollUp,
                RawKeyCode::Down => LeastEvent::ScrollDown,
                RawKeyCode::Left => LeastEvent::ScrollLeft,
                RawKeyCode::Right => LeastEvent::ScrollRight,
                RawKeyCode::Other => LeastEvent::Nop,
            }
        },
        RawEvent::Mouse(m) => match m {
            RawMouseKind::WheelUp => LeastEvent::ScrollUp,
            RawMouseKind::WheelDown => LeastEvent::ScrollDown,
            RawMouseKind::Other => LeastEvent::Nop,
        },
        RawEvent::Resize(w, h) => LeastEvent::Resize(w, h),
    }
}

/// Maps a single raw terminal event to a domain event. The mapping is
/// total: events the pager does not react to become `Nop`.
pub fn process_event(ev: RawEvent) -> (r: LeastEvent)
    ensures
        r == spec_process_event(ev),
{
    match ev {
        RawEvent::Key { code, plain } => {
            if !plain {
                LeastEvent::Nop
            } else {
                match code {
                    RawKeyCode::Char(c) => {
                        if c == 'q' {
                            LeastEvent::Exit
                        } else {
                            LeastEvent::Nop
                        }
                    },
                    RawKeyCode::Up => LeastEvent::ScrollUp,
                    RawKeyCode::Down => LeastEvent::ScrollDown,
                    RawKeyCode::Left => LeastEvent::ScrollLeft,
                    RawKeyCode::Right => LeastEvent::ScrollRight,
                    RawKeyCode::Other => LeastEvent::Nop,
                }
            }
        },
        RawEvent::Mouse(m) => {
            match m {
                RawMouseKind::WheelUp => LeastEvent::ScrollUp,
                RawMouseKind::WheelDown => LeastEvent::ScrollDown,
                RawMouseKind::Other => LeastEvent::Nop,
            }
        },
        RawEvent::Resize(w, h) => LeastEvent::Resize(w, h),
    }
}

} // verus!
