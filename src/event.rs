use vstd::prelude::*;
use crate::geometry::{Point, COORD_LIMIT};

verus! {

/// The raw hardware keys; `Both` is a simultaneous press or release of the two.
#[derive(Copy, Clone, Debug, PartialEq, Eq, Structural)]
pub enum PhysicalButton {
    Left,
    Right,
    Both,
}

#[derive(Copy, Clone, Debug, PartialEq, Eq, Structural)]
pub enum ButtonEvent {
    ButtonPressed(PhysicalButton),
    ButtonReleased(PhysicalButton),
}

#[derive(Copy, Clone, Debug, PartialEq, Eq, Structural)]
pub enum TouchEvent {
    TouchStart(Point),
    TouchMove(Point),
    TouchEnd(Point),
}

/// Raw touch event kinds, as the input driver reports them in the top byte.
pub const TOUCH_START: u32 = 1;
pub const TOUCH_MOVE: u32 = 2;
pub const TOUCH_END: u32 = 4;

/// Why a raw touch sample was discarded.
#[derive(Copy, Clone, Debug, PartialEq, Eq, Structural)]
pub enum TouchError {
    UnknownKind,
    OutOfRange,
}

pub open spec fn touch_kind_known(kind: u32) -> bool {
    kind == TOUCH_START || kind == TOUCH_MOVE || kind == TOUCH_END
}

impl TouchEvent {
    /// Decodes a raw touch sample.
    pub fn new(kind: u32, x: u32, y: u32) -> (r: Result<TouchEvent, TouchError>)
        ensures
            !touch_kind_known(kind) ==> r == Err::<TouchEvent, TouchError>(TouchError::UnknownKind),
            touch_kind_known(kind) && (x > COORD_LIMIT || y > COORD_LIMIT) ==> r == Err::<
                TouchEvent,
                TouchError,
            >(TouchError::OutOfRange),
            touch_kind_known(kind) && x <= COORD_LIMIT && y <= COORD_LIMIT ==> r.is_ok() && {
                let p = Point { x: x as i32, y: y as i32 };
                r == Ok::<TouchEvent, TouchError>(
                    if kind == TOUCH_START {
                        TouchEvent::TouchStart(p)
                    } else if kind == TOUCH_MOVE {
                        TouchEvent::TouchMove(p)
                    } else {
                        TouchEvent::TouchEnd(p)
                    },
                )
            },
    {
        if kind != TOUCH_START && kind != TOUCH_MOVE && kind != TOUCH_END {
            return Err(TouchError::UnknownKind);
        }
        if x > COORD_LIMIT as u32 || y > COORD_LIMIT as u32 {
            return Err(TouchError::OutOfRange);
        }
        let p = Point { x: x as i32, y: y as i32 };
        if kind == TOUCH_START {
            Ok(TouchEvent::TouchStart(p))
        } else if kind == TOUCH_MOVE {
            Ok(TouchEvent::TouchMove(p))
        } else {
            Ok(TouchEvent::TouchEnd(p))
        }
    }
}

/// Turns a raw touch word and its unpacked coordinates into an event; zero
/// means that nothing happened, and a malformed sample is dropped.
pub fn touch_eval(raw: u32, x: u16, y: u16) -> (r: Option<TouchEvent>)
    ensures
        raw == 0 ==> r.is_none(),
        raw != 0 ==> r == match TouchEvent::new_spec(raw / 0x100_0000, x as u32, y as u32) {
            Ok(e) => Some(e),
            Err(_) => None::<TouchEvent>,
        },
{
    if raw == 0 {
        return None;
    }
    let kind: u32 = raw / 0x100_0000;
    match TouchEvent::new(kind, x as u32, y as u32) {
        Ok(e) => Some(e),
        Err(_) => None,
    }
}

impl TouchEvent {
    pub open spec fn new_spec(kind: u32, x: u32, y: u32) -> Result<TouchEvent, TouchError> {
        if !touch_kind_known(kind) {
            Err(TouchError::UnknownKind)
        } else if x > COORD_LIMIT || y > COORD_LIMIT {
            Err(TouchError::OutOfRange)
        } else {
            let p = Point { x: x as i32, y: y as i32 };
            Ok(
                if kind == TOUCH_START {
                    TouchEvent::TouchStart(p)
                } else if kind == TOUCH_MOVE {
                    TouchEvent::TouchMove(p)
                } else {
                    TouchEvent::TouchEnd(p)
                },
            )
        }
    }
}

/// A span of time in milliseconds.
#[derive(Copy, Clone, Debug, PartialEq, Eq, Structural)]
pub struct Duration {
    pub millis: u32,
}

impl Duration {
    pub fn from_millis(millis: u32) -> (d: Duration)
        ensures
            d.millis == millis,
    {
        Duration { millis }
    }

    pub fn from_secs(secs: u32) -> (d: Duration)
        requires
            secs <= u32::MAX / 1000,
        ensures
            d.millis == secs * 1000,
    {
        Duration { millis: secs * 1000 }
    }

    pub fn to_millis(self) -> (r: u32)
        ensures
            r == self.millis,
    {
        self.millis
    }
}

/// Handle that ties a timer request to the timer event it later causes;
/// compared by value.
#[derive(Copy, Clone, Debug, PartialEq, Eq, Structural)]
pub struct TimerToken {
    pub id: u32,
}

#[derive(Copy, Clone, Debug, PartialEq, Eq, Structural)]
pub enum Event {
    Button(ButtonEvent),
    Timer(TimerToken),
    Touch(TouchEvent),
}

/// The channel through which a widget asks, during one event, for a repaint
/// or for a timer.
pub struct EventCtx {
    pub paint_requested: bool,
    pub timers: Vec<(TimerToken, Duration)>,
    pub next_token: u32,
}

pub open spec fn token_after(id: u32) -> u32 {
    if id == u32::MAX {
        1
    } else {
        (id + 1) as u32
    }
}

impl EventCtx {
    /// A context whose first timer gets the token `first_token`.
    pub fn new(first_token: u32) -> (c: EventCtx)
        ensures
            !c.paint_requested,
            c.timers@.len() == 0,
            c.next_token == first_token,
    {
        EventCtx { paint_requested: false, timers: Vec::new(), next_token: first_token }
    }

    pub fn request_paint(&mut self)
        ensures
            final(self).paint_requested,
            final(self).timers@ == old(self).timers@,
            final(self).next_token == old(self).next_token,
    {
        self.paint_requested = true;
    }

    /// Records a timer request and hands back its token.
    pub fn request_timer(&mut self, duration: Duration) -> (t: TimerToken)
        ensures
            t.id == old(self).next_token,
            final(self).timers@ == old(self).timers@.push((t, duration)),
            final(self).next_token == token_after(old(self).next_token),
            final(self).paint_requested == old(self).paint_requested,
    {
        let t = TimerToken { id: self.next_token };
        self.timers.push((t, duration));
        self.next_token = if self.next_token == u32::MAX {
            1
        } else {
            self.next_token + 1
        };
        t
    }
}

} // verus!

verus! {

/// What one event did to the context: a repaint request if `paint`, and
/// the timer request `timer`, if any, under the next token.
pub open spec fn ctx_effect(c0: &EventCtx, c1: &EventCtx, paint: bool, timer: Option<Duration>) -> bool {
    &&& c1.paint_requested == (c0.paint_requested || paint)
    &&& match timer {
        None => c1.timers@ == c0.timers@ && c1.next_token == c0.next_token,
        Some(d) => c1.timers@ == c0.timers@.push((TimerToken { id: c0.next_token }, d))
            && c1.next_token == token_after(c0.next_token),
    }
}

} // verus!
