//! The window lifecycle state machine and the event translator.
//!
//! [`WindowState`] holds every mutable lifecycle flag of a window. The
//! translator maps one native event to at most one abstract event while
//! updating those flags; the host performs the native calls (polling,
//! cursor warping) and feeds their results through these functions.

use vstd::prelude::*;
use crate::event::{AbstractEvent, AxisValue, ButtonId, ButtonState, Key, TimedEvent, TouchPhase};
use crate::keymap::{spec_map_hat, spec_map_mouse, spec_normalize_axis, normalize_axis,
                    sdl2_map_hat, sdl2_map_mouse, KEY_ESCAPE};
use crate::native::NativeEvent;

verus! {

/// A buffered synthetic relative-motion event, to be delivered on the next
/// poll. At most one is pending at any time.
#[derive(Clone, Copy, PartialEq, Eq, Structural, Debug)]
pub struct PendingRelative {
    pub dx: i32,
    pub dy: i32,
    /// The timestamp of the absolute-motion event it was derived from.
    pub time: u32,
}

/// The mutable lifecycle state of one window: everything the event
/// translator reads or writes.
#[derive(Clone, PartialEq, Eq, Debug)]
pub struct WindowState {
    /// Set by a quit request (when automatic close is on), by Escape (when
    /// exit-on-escape is on), or by the host; once set, nothing on the
    /// normal event path clears it.
    pub should_close: bool,
    /// Whether a quit request sets `should_close` by itself.
    pub automatic_close: bool,
    /// Whether an Escape press closes the window instead of being emitted.
    pub exit_on_esc: bool,
    /// Whether relative-mouse capture is active.
    pub is_capturing_cursor: bool,
    /// The window title.
    pub title: String,
    /// Current logical width.
    pub width: u32,
    /// Current logical height.
    pub height: u32,
    /// Current drawable (pixel) width.
    pub draw_width: u32,
    /// Current drawable (pixel) height.
    pub draw_height: u32,
    /// The buffered synthetic relative-motion event, if any.
    pub pending_relative: Option<PendingRelative>,
    /// A single relative delta to suppress, recorded when the cursor was
    /// warped to the window center; cleared on first match.
    pub ignore_relative: Option<(i32, i32)>,
}

/// What one translation step decided.
#[derive(Clone, PartialEq, Eq, Debug)]
pub enum Translation {
    /// The native event mapped to an abstract event: deliver it.
    Emit(TimedEvent),
    /// The translator consumed the event with no emission (a
    /// warp-suppressed motion, or an Escape press that closed the window):
    /// this poll ends with no event.
    Consumed,
    /// The event has no mapping, or is a suppressed key repeat: it is
    /// dropped and polling continues with the next native event.
    Skip,
}

/// The state after translating one native event: lifecycle flags and the
/// two one-slot buffers, updated as the translation rules say.
pub open spec fn spec_next(s: WindowState, ev: NativeEvent) -> WindowState {
    match ev {
        NativeEvent::MouseMotion { timestamp, x: _, y: _, dx, dy } => {
            if s.ignore_relative == Some((dx, dy)) {
                WindowState { ignore_relative: None, ..s }
            } else if s.is_capturing_cursor {
                s
            } else {
                WindowState {
                    pending_relative: Some(PendingRelative { dx, dy, time: timestamp }),
                    ..s
                }
            }
        },
        NativeEvent::Quit { .. } => {
            if s.automatic_close {
                WindowState { should_close: true, ..s }
            } else {
                s
            }
        },
        NativeEvent::KeyDown { keycode, repeat, .. } => {
            if !repeat && keycode == Some(KEY_ESCAPE) && s.exit_on_esc {
                WindowState { should_close: true, ..s }
            } else {
                s
            }
        },
        NativeEvent::Resized { width, height, draw_width, draw_height, .. } => {
            WindowState { width, height, draw_width, draw_height, ..s }
        },
        _ => s,
    }
}

/// The outcome of translating one native event in state `s`.
pub open spec fn spec_outcome(s: WindowState, ev: NativeEvent) -> Translation {
    match ev {
        NativeEvent::Quit { timestamp } => Translation::Emit(
            TimedEvent { event: AbstractEvent::Close, time: Some(timestamp) },
        ),
        NativeEvent::TextInput { timestamp, text } => Translation::Emit(
            TimedEvent { event: AbstractEvent::Text(text), time: Some(timestamp) },
        ),
        NativeEvent::KeyDown { timestamp, keycode, scancode, repeat } => {
            match keycode {
                None => Translation::Skip,
                Some(k) => {
                    if repeat {
                        Translation::Skip
                    } else if s.exit_on_esc && k == KEY_ESCAPE {
                        Translation::Consumed
                    } else {
                        Translation::Emit(TimedEvent {
                            event: AbstractEvent::Button {
                                state: ButtonState::Press,
                                button: ButtonId::Keyboard(Key { code: k }),
                                scancode,
                            },
                            time: Some(timestamp),
                        })
                    }
                },
            }
        },
        NativeEvent::KeyUp { timestamp, keycode, scancode, repeat } => {
            match keycode {
                None => Translation::Skip,
                Some(k) => {
                    if repeat {
                        Translation::Skip
                    } else {
                        Translation::Emit(TimedEvent {
                            event: AbstractEvent::Button {
                                state: ButtonState::Release,
                                button: ButtonId::Keyboard(Key { code: k }),
                                scancode,
                            },
                            time: Some(timestamp),
                        })
                    }
                },
            }
        },
        NativeEvent::MouseButtonDown { timestamp, button } => Translation::Emit(TimedEvent {
            event: AbstractEvent::Button {
                state: ButtonState::Press,
                button: ButtonId::Mouse(spec_map_mouse(button)),
                scancode: None,
            },
            time: Some(timestamp),
        }),
        NativeEvent::MouseButtonUp { timestamp, button } => Translation::Emit(TimedEvent {
            event: AbstractEvent::Button {
                state: ButtonState::Release,
                button: ButtonId::Mouse(spec_map_mouse(button)),
                scancode: None,
            },
            time: Some(timestamp),
        }),
        NativeEvent::MouseMotion { timestamp, x, y, dx, dy } => {
            if s.ignore_relative == Some((dx, dy)) {
                Translation::Consumed
            } else if s.is_capturing_cursor {
                Translation::Emit(TimedEvent {
                    event: AbstractEvent::PointerRelativeMotion { dx, dy },
                    time: Some(timestamp),
                })
            } else {
                Translation::Emit(TimedEvent {
                    event: AbstractEvent::PointerMotion { x, y },
                    time: Some(timestamp),
                })
            }
        },
        NativeEvent::MouseWheel { timestamp, dx, dy } => Translation::Emit(TimedEvent {
            event: AbstractEvent::PointerScroll { dx, dy },
            time: Some(timestamp),
        }),
        NativeEvent::JoyAxisMotion { timestamp, which, axis, value } => Translation::Emit(
            TimedEvent {
                event: AbstractEvent::ControllerAxis {
                    device: which,
                    axis,
                    value: AxisValue { numerator: spec_normalize_axis(value) },
                },
                time: Some(timestamp),
            },
        ),
        NativeEvent::JoyButtonDown { timestamp, which, button } => Translation::Emit(TimedEvent {
            event: AbstractEvent::ControllerButton {
                state: ButtonState::Press,
                device: which,
                button,
            },
            time: Some(timestamp),
        }),
        NativeEvent::JoyButtonUp { timestamp, which, button } => Translation::Emit(TimedEvent {
            event: AbstractEvent::ControllerButton {
                state: ButtonState::Release,
                device: which,
                button,
            },
            time: Some(timestamp),
        }),
        NativeEvent::JoyHatMotion { timestamp, which, hat, state } => Translation::Emit(
            TimedEvent {
                event: AbstractEvent::ControllerHat {
                    device: which,
                    hat,
                    direction: spec_map_hat(state),
                },
                time: Some(timestamp),
            },
        ),
        NativeEvent::FingerDown { timestamp, touch_id, finger_id, x, y, pressure } => {
            Translation::Emit(TimedEvent {
                event: AbstractEvent::Touch {
                    device: touch_id,
                    finger: finger_id,
                    x,
                    y,
                    pressure,
                    phase: TouchPhase::Start,
                },
                time: Some(timestamp),
            })
        },
        NativeEvent::FingerMotion { timestamp, touch_id, finger_id, x, y, pressure } => {
            Translation::Emit(TimedEvent {
                event: AbstractEvent::Touch {
                    device: touch_id,
                    finger: finger_id,
                    x,
                    y,
                    pressure,
                    phase: TouchPhase::Move,
                },
                time: Some(timestamp),
            })
        },
        NativeEvent::FingerUp { timestamp, touch_id, finger_id, x, y, pressure } => {
            Translation::Emit(TimedEvent {
                event: AbstractEvent::Touch {
                    device: touch_id,
                    finger: finger_id,
                    x,
                    y,
                    pressure,
                    phase: TouchPhase::End,
                },
                time: Some(timestamp),
            })
        },
        NativeEvent::Resized { timestamp, width, height, draw_width, draw_height } => {
            Translation::Emit(TimedEvent {
                event: AbstractEvent::Resize { width, height, draw_width, draw_height },
                time: Some(timestamp),
            })
        },
        NativeEvent::FocusGained { timestamp } => Translation::Emit(
            TimedEvent { event: AbstractEvent::Focus(true), time: Some(timestamp) },
        ),
        NativeEvent::FocusLost { timestamp } => Translation::Emit(
            TimedEvent { event: AbstractEvent::Focus(false), time: Some(timestamp) },
        ),
        NativeEvent::Enter { timestamp } => Translation::Emit(
            TimedEvent { event: AbstractEvent::CursorEnter(true), time: Some(timestamp) },
        ),
        NativeEvent::Leave { timestamp } => Translation::Emit(
            TimedEvent { event: AbstractEvent::CursorEnter(false), time: Some(timestamp) },
        ),
        NativeEvent::Unsupported { .. } => Translation::Skip,
    }
}

impl WindowState {
    /// Translates one native event: updates the lifecycle state and says
    /// what the poll in progress should do with the event.
    pub fn handle_native(&mut self, ev: NativeEvent) -> (r: Translation)
        ensures
            *final(self) == spec_next(*old(self), ev),
            r == spec_outcome(*old(self), ev),
    {
        match ev {
            NativeEvent::Quit { timestamp } => {
                if self.automatic_close {
                    self.should_close = true;
                }
                Translation::Emit(TimedEvent { event: AbstractEvent::Close, time: Some(timestamp) })
            },
            NativeEvent::TextInput { timestamp, text } => Translation::Emit(
                TimedEvent { event: AbstractEvent::Text(text), time: Some(timestamp) },
            ),
            NativeEvent::KeyDown { timestamp, keycode, scancode, repeat } => {
                match keycode {
                    None => Translation::Skip,
                    Some(k) => {
                        if repeat {
                            Translation::Skip
                        } else if self.exit_on_esc && k == KEY_ESCAPE {
                            self.should_close = true;
                            Translation::Consumed
                        } else {
                            Translation::Emit(TimedEvent {
                                event: AbstractEvent::Button {
                                    state: ButtonState::Press,
                                    button: ButtonId::Keyboard(Key { code: k }),
                                    scancode,
                                },
                                time: Some(timestamp),
                            })
                        }
                    },
                }
            },
            NativeEvent::KeyUp { timestamp, keycode, scancode, repeat } => {
                match keycode {
                    None => Translation::Skip,
                    Some(k) => {
                        if repeat {
                            Translation::Skip
                        } else {
                            Translation::Emit(TimedEvent {
                                event: AbstractEvent::Button {
                                    state: ButtonState::Release,
                                    button: ButtonId::Keyboard(Key { code: k }),
                                    scancode,
                                },
                                time: Some(timestamp),
                            })
                        }
                    },
                }
            },
            NativeEvent::MouseButtonDown { timestamp, button } => Translation::Emit(TimedEvent {
                event: AbstractEvent::Button {
                    state: ButtonState::Press,
                    button: ButtonId::Mouse(sdl2_map_mouse(button)),
                    scancode: None,
                },
                time: Some(timestamp),
            }),
            NativeEvent::MouseButtonUp { timestamp, button } => Translation::Emit(TimedEvent {
                event: AbstractEvent::Button {
                    state: ButtonState::Release,
                    button: ButtonId::Mouse(sdl2_map_mouse(button)),
                    scancode: None,
                },
                time: Some(timestamp),
            }),
            NativeEvent::MouseMotion { timestamp, x, y, dx, dy } => {
                let suppress = match self.ignore_relative {
                    Some((ix, iy)) => ix == dx && iy == dy,
                    None => false,
                };
                if suppress {
                    self.ignore_relative = None;
                    Translation::Consumed
                } else if self.is_capturing_cursor {
                    Translation::Emit(TimedEvent {
                        event: AbstractEvent::PointerRelativeMotion { dx, dy },
                        time: Some(timestamp),
                    })
                } else {
                    self.pending_relative = Some(PendingRelative { dx, dy, time: timestamp });
                    Translation::Emit(TimedEvent {
                        event: AbstractEvent::PointerMotion { x, y },
                        time: Some(timestamp),
                    })
                }
            },
            NativeEvent::MouseWheel { timestamp, dx, dy } => Translation::Emit(TimedEvent {
                event: AbstractEvent::PointerScroll { dx, dy },
                time: Some(timestamp),
            }),
            NativeEvent::JoyAxisMotion { timestamp, which, axis, value } => Translation::Emit(
                TimedEvent {
                    event: AbstractEvent::ControllerAxis {
                        device: which,
                        axis,
                        value: AxisValue { numerator: normalize_axis(value) },
                    },
                    time: Some(timestamp),
                },
            ),
            NativeEvent::JoyButtonDown { timestamp, which, button } => Translation::Emit(
                TimedEvent {
                    event: AbstractEvent::ControllerButton {
                        state: ButtonState::Press,
                        device: which,
                        button,
                    },
                    time: Some(timestamp),
                },
            ),
            NativeEvent::JoyButtonUp { timestamp, which, button } => Translation::Emit(
                TimedEvent {
                    event: AbstractEvent::ControllerButton {
                        state: ButtonState::Release,
                        device: which,
                        button,
                    },
                    time: Some(timestamp),
                },
            ),
            NativeEvent::JoyHatMotion { timestamp, which, hat, state } => Translation::Emit(
                TimedEvent {
                    event: AbstractEvent::ControllerHat {
                        device: which,
                        hat,
                        direction: sdl2_map_hat(state),
                    },
                    time: Some(timestamp),
                },
            ),
            NativeEvent::FingerDown { timestamp, touch_id, finger_id, x, y, pressure } => {
                Translation::Emit(TimedEvent {
                    event: AbstractEvent::Touch {
                        device: touch_id,
                        finger: finger_id,
                        x,
                        y,
                        pressure,
                        phase: TouchPhase::Start,
                    },
                    time: Some(timestamp),
                })
            },
            NativeEvent::FingerMotion { timestamp, touch_id, finger_id, x, y, pressure } => {
                Translation::Emit(TimedEvent {
                    event: AbstractEvent::Touch {
                        device: touch_id,
                        finger: finger_id,
                        x,
                        y,
                        pressure,
                        phase: TouchPhase::Move,
                    },
                    time: Some(timestamp),
                })
            },
            NativeEvent::FingerUp { timestamp, touch_id, finger_id, x, y, pressure } => {
                Translation::Emit(TimedEvent {
                    event: AbstractEvent::Touch {
                        device: touch_id,
                        finger: finger_id,
                        x,
                        y,
                        pressure,
                        phase: TouchPhase::End,
                    },
                    time: Some(timestamp),
                })
            },
            NativeEvent::Resized { timestamp, width, height, draw_width, draw_height } => {
                self.width = width;
                self.height = height;
                self.draw_width = draw_width;
                self.draw_height = draw_height;
                Translation::Emit(TimedEvent {
                    event: AbstractEvent::Resize { width, height, draw_width, draw_height },
                    time: Some(timestamp),
                })
            },
            NativeEvent::FocusGained { timestamp } => Translation::Emit(
                TimedEvent { event: AbstractEvent::Focus(true), time: Some(timestamp) },
            ),
            NativeEvent::FocusLost { timestamp } => Translation::Emit(
                TimedEvent { event: AbstractEvent::Focus(false), time: Some(timestamp) },
            ),
            NativeEvent::Enter { timestamp } => Translation::Emit(
                TimedEvent { event: AbstractEvent::CursorEnter(true), time: Some(timestamp) },
            ),
            NativeEvent::Leave { timestamp } => Translation::Emit(
                TimedEvent { event: AbstractEvent::CursorEnter(false), time: Some(timestamp) },
            ),
            NativeEvent::Unsupported { .. } => Translation::Skip,
        }
    }
}

/// The state and result of draining the pending-relative-motion slot: if a
/// synthetic relative-motion event is buffered, it leaves the slot and is
/// delivered; otherwise nothing changes.
pub open spec fn spec_drain(s: WindowState) -> (WindowState, Option<TimedEvent>) {
    match s.pending_relative {
        Some(p) => (
            WindowState { pending_relative: None, ..s },
            Some(TimedEvent {
                event: AbstractEvent::PointerRelativeMotion { dx: p.dx, dy: p.dy },
                time: Some(p.time),
            }),
        ),
        None => (s, None),
    }
}

/// One whole poll over a queue of native events: first the pending slot is
/// drained; otherwise events are taken from the front of the queue until
/// one translates to an emission or a consumption, or the queue is empty.
/// Yields the final state, what is left of the queue, and the delivered
/// event, if any.
pub open spec fn spec_poll(s: WindowState, q: Seq<NativeEvent>) -> (
    WindowState,
    Seq<NativeEvent>,
    Option<TimedEvent>,
)
    decreases q.len(),
{
    if s.pending_relative is Some {
        (spec_drain(s).0, q, spec_drain(s).1)
    } else if q.len() == 0 {
        (s, q, None)
    } else {
        let ev = q[0];
        let rest = q.remove(0);
        match spec_outcome(s, ev) {
            Translation::Emit(e) => (spec_next(s, ev), rest, Some(e)),
            Translation::Consumed => (spec_next(s, ev), rest, None),
            Translation::Skip => spec_poll(spec_next(s, ev), rest),
        }
    }
}

/// What toggling capture asks of the host: show or hide the native cursor,
/// and whether to run one capture correction now.
#[derive(Clone, Copy, PartialEq, Eq, Structural, Debug)]
pub struct CaptureActions {
    /// Show the native cursor (false: hide it).
    pub show_cursor: bool,
    /// Query the cursor position and run one capture correction
    /// ([`WindowState::fake_capture_step`]) so the first relative sample
    /// is accurate.
    pub run_correction: bool,
}

impl WindowState {
    /// Drains the pending-relative-motion slot. A buffered synthetic event
    /// is delivered before any new native event is looked at, so it is
    /// never lost and keeps its place right after the absolute motion
    /// that produced it.
    pub fn check_pending_event(&mut self) -> (r: Option<TimedEvent>)
        ensures
            *final(self) == spec_drain(*old(self)).0,
            r == spec_drain(*old(self)).1,
    {
        match self.pending_relative {
            Some(p) => {
                self.pending_relative = None;
                Some(TimedEvent {
                    event: AbstractEvent::PointerRelativeMotion { dx: p.dx, dy: p.dy },
                    time: Some(p.time),
                })
            },
            None => None,
        }
    }

    /// Polls from a queue of already-delivered native events: drains the
    /// pending slot first, then translates events from the front of the
    /// queue, dropping unmapped ones, until something is delivered or
    /// consumed or the queue runs out. The loop is bounded by the queue,
    /// never recursive.
    pub fn poll_events(&mut self, queue: &mut Vec<NativeEvent>) -> (r: Option<TimedEvent>)
        ensures
            ({
                let (s2, q2, r2) = spec_poll(*old(self), old(queue)@);
                &&& *final(self) == s2
                &&& final(queue)@ == q2
                &&& r == r2
            }),
    {
        loop
            invariant
                spec_poll(*self, queue@) == spec_poll(*old(self), old(queue)@),
            decreases queue.len(),
        {
            let pending = self.check_pending_event();
            if let Some(e) = pending {
                return Some(e);
            }
            if queue.len() == 0 {
                return None;
            }
            let ev = queue.remove(0);
            match self.handle_native(ev) {
                Translation::Emit(e) => {
                    return Some(e);
                },
                Translation::Consumed => {
                    return None;
                },
                Translation::Skip => {},
            }
        }
    }

    /// Runs one fake-capture correction: given the current cursor position
    /// (in window coordinates, hence non-negative), computes the delta to
    /// the window center. If it is nonzero, records that delta in the
    /// ignore-next-relative-delta slot and returns the center, asking the
    /// host to warp the cursor there; the single native motion event the
    /// warp produces is then suppressed on sight. If the cursor already
    /// sits at the center, nothing changes.
    pub fn fake_capture_step(&mut self, cursor_x: i32, cursor_y: i32) -> (warp: Option<
        (i32, i32),
    >)
        requires
            cursor_x >= 0,
            cursor_y >= 0,
        ensures
            ({
                let cx = old(self).width as int / 2;
                let cy = old(self).height as int / 2;
                let dx = cx - cursor_x;
                let dy = cy - cursor_y;
                if dx == 0 && dy == 0 {
                    &&& warp is None
                    &&& *final(self) == *old(self)
                } else {
                    &&& warp == Some((cx as i32, cy as i32))
                    &&& *final(self) == WindowState {
                        ignore_relative: Some((dx as i32, dy as i32)),
                        ..*old(self)
                    }
                }
            }),
    {
        let cx = (self.width / 2) as i32;
        let cy = (self.height / 2) as i32;
        let dx = cx - cursor_x;
        let dy = cy - cursor_y;
        if dx != 0 || dy != 0 {
            self.ignore_relative = Some((dx, dy));
            Some((cx, cy))
        } else {
            None
        }
    }

    /// Sets the capture flag and says what the host must do natively: the
    /// cursor is hidden exactly while capture is on, and enabling capture
    /// runs one correction immediately so the first relative sample is
    /// accurate.
    pub fn set_capture(&mut self, value: bool) -> (r: CaptureActions)
        ensures
            *final(self) == (WindowState { is_capturing_cursor: value, ..*old(self) }),
            r.show_cursor == !value,
            r.run_correction == value,
    {
        self.is_capturing_cursor = value;
        CaptureActions { show_cursor: !value, run_correction: value }
    }

    /// Whether the window has been asked to close.
    pub fn should_close(&self) -> (r: bool)
        ensures
            r == self.should_close,
    {
        self.should_close
    }

    /// Sets or clears the should-close flag. This is the only way the
    /// flag is ever cleared; the event path never unsets it.
    pub fn set_should_close(&mut self, value: bool)
        ensures
            *final(self) == (WindowState { should_close: value, ..*old(self) }),
    {
        self.should_close = value;
    }

    /// The current logical size.
    pub fn size(&self) -> (r: (u32, u32))
        ensures
            r == (self.width, self.height),
    {
        (self.width, self.height)
    }

    /// The current drawable (pixel) size.
    pub fn draw_size(&self) -> (r: (u32, u32))
        ensures
            r == (self.draw_width, self.draw_height),
    {
        (self.draw_width, self.draw_height)
    }

    /// The current title.
    pub fn get_title(&self) -> (r: String)
        ensures
            r == self.title,
    {
        self.title.clone()
    }

    /// Stores a new title; the host applies it to the native window.
    pub fn set_title(&mut self, value: String)
        ensures
            *final(self) == (WindowState { title: value, ..*old(self) }),
    {
        self.title = value;
    }

    /// Whether a quit request sets the should-close flag by itself.
    pub fn get_automatic_close(&self) -> (r: bool)
        ensures
            r == self.automatic_close,
    {
        self.automatic_close
    }

    /// Turns automatic close on or off.
    pub fn set_automatic_close(&mut self, value: bool)
        ensures
            *final(self) == (WindowState { automatic_close: value, ..*old(self) }),
    {
        self.automatic_close = value;
    }

    /// Whether an Escape press closes the window instead of being emitted.
    pub fn get_exit_on_esc(&self) -> (r: bool)
        ensures
            r == self.exit_on_esc,
    {
        self.exit_on_esc
    }

    /// Turns exit-on-escape on or off.
    pub fn set_exit_on_esc(&mut self, value: bool)
        ensures
            *final(self) == (WindowState { exit_on_esc: value, ..*old(self) }),
    {
        self.exit_on_esc = value;
    }
}

} // verus!
