//! Laws of the translation and creation protocols: properties that hold
//! for every input, proved from the same spec functions the executable
//! contracts are stated over.

use vstd::prelude::*;
use crate::config::WindowConfig;
use crate::create::{spec_create_advance, CreateState, StepOutcome};
use crate::error::Error;
use crate::event::{AbstractEvent, ButtonId, ButtonState, Key, TimedEvent};
use crate::keymap::KEY_ESCAPE;
use crate::native::NativeEvent;
use crate::state::{spec_next, spec_outcome, spec_poll, Translation, WindowState};

verus! {

/// The creation machine driven from `state` with every step succeeding,
/// for at most `fuel` steps.
pub open spec fn spec_create_all_ok(cfg: WindowConfig, state: CreateState, fuel: nat) -> CreateState
    decreases fuel,
{
    if fuel == 0 {
        state
    } else {
        match state {
            CreateState::Finish => CreateState::Finish,
            CreateState::Failed(e) => CreateState::Failed(e),
            _ => spec_create_all_ok(
                cfg,
                spec_create_advance(cfg, state, StepOutcome::Success),
                (fuel - 1) as nat,
            ),
        }
    }
}

/// Law: for a config that asks for multisampling, creation reaches the
/// multisampled window build; when that build fails, the machine retries
/// exactly once with multisampling disabled; and when every other native
/// step succeeds, the run ends at `Finish` rather than failing.
pub proof fn lemma_multisample_fallback(cfg: WindowConfig, e: Error)
    requires
        cfg.samples > 0,
    ensures
        spec_create_all_ok(cfg, CreateState::InitVideo, 3) == (CreateState::BuildWindow {
            multisampled: true,
        }),
        spec_create_advance(
            cfg,
            CreateState::BuildWindow { multisampled: true },
            StepOutcome::Failure(e),
        ) == (CreateState::ApplyAttributes { multisampling: false }),
        spec_create_all_ok(cfg, CreateState::ApplyAttributes { multisampling: false }, 8)
            == CreateState::Finish,
{
    reveal_with_fuel(spec_create_all_ok, 10);
}

/// Law: while capture is inactive, an absolute motion event is emitted as
/// absolute pointer motion, and the paired relative motion is delivered by
/// the immediately following poll, before that poll looks at any new
/// native event — one poll call later, never sooner, never lost.
pub proof fn lemma_relative_follows_absolute(
    s: WindowState,
    q: Seq<NativeEvent>,
    ts: u32,
    x: i32,
    y: i32,
    dx: i32,
    dy: i32,
)
    requires
        !s.is_capturing_cursor,
        s.pending_relative is None,
        s.ignore_relative != Some((dx, dy)),
    ensures
        ({
            let ev = NativeEvent::MouseMotion { timestamp: ts, x, y, dx, dy };
            let (s1, q1, r1) = spec_poll(s, seq![ev]);
            let (s2, q2, r2) = spec_poll(s1, q);
            &&& r1 == Some(
                TimedEvent { event: AbstractEvent::PointerMotion { x, y }, time: Some(ts) },
            )
            &&& r2 == Some(
                TimedEvent {
                    event: AbstractEvent::PointerRelativeMotion { dx, dy },
                    time: Some(ts),
                },
            )
            &&& q2 == q
            &&& s2.pending_relative is None
        }),
{
}

/// Law: for a run of absolute motion events while capture is inactive,
/// the polls interleave them with their synthetic relative motions in
/// order: absolute motion of the first, its relative motion, absolute
/// motion of the second, its relative motion — each relative delayed by
/// exactly one poll call, none lost, none reordered.
pub proof fn lemma_motion_run_interleaves(
    s: WindowState,
    ts1: u32,
    x1: i32,
    y1: i32,
    dx1: i32,
    dy1: i32,
    ts2: u32,
    x2: i32,
    y2: i32,
    dx2: i32,
    dy2: i32,
)
    requires
        !s.is_capturing_cursor,
        s.pending_relative is None,
        s.ignore_relative is None,
    ensures
        ({
            let m1 = NativeEvent::MouseMotion { timestamp: ts1, x: x1, y: y1, dx: dx1, dy: dy1 };
            let m2 = NativeEvent::MouseMotion { timestamp: ts2, x: x2, y: y2, dx: dx2, dy: dy2 };
            let (s1, q1, r1) = spec_poll(s, seq![m1, m2]);
            let (s2, q2, r2) = spec_poll(s1, q1);
            let (s3, q3, r3) = spec_poll(s2, q2);
            let (s4, q4, r4) = spec_poll(s3, q3);
            &&& r1 == Some(
                TimedEvent { event: AbstractEvent::PointerMotion { x: x1, y: y1 }, time: Some(ts1) },
            )
            &&& r2 == Some(
                TimedEvent {
                    event: AbstractEvent::PointerRelativeMotion { dx: dx1, dy: dy1 },
                    time: Some(ts1),
                },
            )
            &&& r3 == Some(
                TimedEvent { event: AbstractEvent::PointerMotion { x: x2, y: y2 }, time: Some(ts2) },
            )
            &&& r4 == Some(
                TimedEvent {
                    event: AbstractEvent::PointerRelativeMotion { dx: dx2, dy: dy2 },
                    time: Some(ts2),
                },
            )
            &&& q4.len() == 0
            &&& s4.pending_relative is None
        }),
{
}

/// Law: while capture is active and a warp delta is recorded, the one
/// native motion event the warp causes — the event whose delta equals the
/// recorded one — is consumed whole: polling it emits nothing and clears
/// the recorded delta.
pub proof fn lemma_warp_motion_suppressed(s: WindowState, ts: u32, x: i32, y: i32, dx: i32, dy: i32)
    requires
        s.pending_relative is None,
        s.ignore_relative == Some((dx, dy)),
    ensures
        spec_outcome(s, NativeEvent::MouseMotion { timestamp: ts, x, y, dx, dy })
            == Translation::Consumed,
        spec_next(s, NativeEvent::MouseMotion { timestamp: ts, x, y, dx, dy })
            == (WindowState { ignore_relative: None, ..s }),
        ({
            let (s2, q2, r2) = spec_poll(
                s,
                seq![NativeEvent::MouseMotion { timestamp: ts, x, y, dx, dy }],
            );
            &&& r2 is None
            &&& s2.ignore_relative is None
        }),
{
}

/// Law: while capture is active, an absolute motion event (other than a
/// suppressed warp echo) is emitted as relative motion built from the
/// native delta alone — no absolute motion is emitted and nothing is
/// buffered.
pub proof fn lemma_capture_emits_relative_only(
    s: WindowState,
    ts: u32,
    x: i32,
    y: i32,
    dx: i32,
    dy: i32,
)
    requires
        s.is_capturing_cursor,
        s.ignore_relative != Some((dx, dy)),
    ensures
        spec_outcome(s, NativeEvent::MouseMotion { timestamp: ts, x, y, dx, dy })
            == Translation::Emit(
            TimedEvent {
                event: AbstractEvent::PointerRelativeMotion { dx, dy },
                time: Some(ts),
            },
        ),
        spec_next(s, NativeEvent::MouseMotion { timestamp: ts, x, y, dx, dy }) == s,
{
}

/// Law: a repeated key-down is dropped and never becomes a button event,
/// while a first key-down always yields the press, for any key other than
/// Escape while exit-on-escape is on.
pub proof fn lemma_key_repeat_suppressed(s: WindowState, ts: u32, k: u32, sc: Option<i32>)
    ensures
        spec_outcome(
            s,
            NativeEvent::KeyDown { timestamp: ts, keycode: Some(k), scancode: sc, repeat: true },
        ) == Translation::Skip,
        !(s.exit_on_esc && k == KEY_ESCAPE) ==> spec_outcome(
            s,
            NativeEvent::KeyDown { timestamp: ts, keycode: Some(k), scancode: sc, repeat: false },
        ) == Translation::Emit(
            TimedEvent {
                event: AbstractEvent::Button {
                    state: ButtonState::Press,
                    button: ButtonId::Keyboard(Key { code: k }),
                    scancode: sc,
                },
                time: Some(ts),
            },
        ),
{
}

/// Law: pressing Escape with exit-on-escape on sets should-close and
/// emits no press; with it off, the press is emitted and the state is
/// untouched.
pub proof fn lemma_escape_to_close(s: WindowState, ts: u32, sc: Option<i32>)
    ensures
        ({
            let esc = NativeEvent::KeyDown {
                timestamp: ts,
                keycode: Some(KEY_ESCAPE),
                scancode: sc,
                repeat: false,
            };
            &&& s.exit_on_esc ==> spec_outcome(s, esc) == Translation::Consumed && spec_next(
                s,
                esc,
            ) == (WindowState { should_close: true, ..s })
            &&& !s.exit_on_esc ==> spec_outcome(s, esc) == Translation::Emit(
                TimedEvent {
                    event: AbstractEvent::Button {
                        state: ButtonState::Press,
                        button: ButtonId::Keyboard(Key { code: KEY_ESCAPE }),
                        scancode: sc,
                    },
                    time: Some(ts),
                },
            ) && spec_next(s, esc) == s
        }),
{
}

/// Law: a quit request sets should-close exactly when automatic close is
/// on, and the close event is emitted either way.
pub proof fn lemma_quit(s: WindowState, ts: u32)
    requires
        !s.should_close,
    ensures
        spec_next(s, NativeEvent::Quit { timestamp: ts }).should_close <==> s.automatic_close,
        spec_outcome(s, NativeEvent::Quit { timestamp: ts }) == Translation::Emit(
            TimedEvent { event: AbstractEvent::Close, time: Some(ts) },
        ),
{
}

/// Law: nothing on the event path clears the should-close flag; once set,
/// it stays set through any translation.
pub proof fn lemma_should_close_monotone(s: WindowState, ev: NativeEvent)
    ensures
        s.should_close ==> spec_next(s, ev).should_close,
{
}

} // verus!
