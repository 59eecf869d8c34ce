//! Pointer-drag handling: the state machine that turns raw pointer
//! samples into incremental camera orientation changes.
//!
//! The controller is either idle or dragging.  A button press anchors
//! the drag at the current position; every processed move while
//! dragging applies one increment derived from the delta between the
//! anchor and the new position, then re-seeds the anchor to that
//! position.  The anchor therefore always holds the last sampled
//! position, never the original press point, which makes updates
//! incremental per sample: releasing and re-pressing at the same spot
//! cannot produce a jump.
//!
//! Each increment normalizes the pixel delta by the viewport dimension
//! and maps it through the arctangent, so even an enormous drag turns
//! the camera by at most a quarter turn per processed sample.

use vstd::prelude::*;
use crate::angle::atan_micro;
use crate::angle::atan_micro_i64;
use crate::angle::lemma_atan_micro_zero;
use crate::angle::wrap_angle;
use crate::angle::HALF_PI_MICRO;
use crate::camera::World;
use crate::error::PlotError;
use crate::numeric::div_trunc;
use crate::numeric::div_trunc_i64;
use crate::numeric::lemma_div_trunc_bounds;
use crate::numeric::lemma_div_trunc_zero;
use crate::numeric::SCALE;

verus! {

/// One raw pointer sample, as the host's input source reports it.
#[derive(Clone, Copy, Debug, PartialEq, Eq, Structural)]
pub enum PointerEvent {
    /// The button went down at this position.
    Down { x: i32, y: i32 },
    /// The button was released; position is irrelevant.
    Up,
    /// The pointer left the canvas, which ends a drag like a release.
    Leave,
    /// The pointer moved to this position.
    Move { x: i32, y: i32 },
}

/// The controller's record of the pointer.
#[derive(Clone, Copy, Debug, PartialEq, Eq, Structural)]
pub struct PointerState {
    /// Latest sampled x position.
    pub x: i32,
    /// Latest sampled y position.
    pub y: i32,
    /// Whether a drag is in progress.
    pub down: bool,
    /// Baseline x of the next increment; meaningful only while `down`.
    pub anchor_x: i32,
    /// Baseline y of the next increment; meaningful only while `down`.
    pub anchor_y: i32,
}

/// How one event moves the pointer record: presses and processed drag
/// steps re-seed the anchor to the current position, a release or a
/// leave only ends the drag, and an idle move only tracks the position.
pub open spec fn step_pointer(p: PointerState, e: PointerEvent) -> PointerState {
    match e {
        PointerEvent::Down { x, y } => PointerState { x, y, down: true, anchor_x: x, anchor_y: y },
        PointerEvent::Up => PointerState {
            x: p.x,
            y: p.y,
            down: false,
            anchor_x: p.anchor_x,
            anchor_y: p.anchor_y,
        },
        PointerEvent::Leave => PointerState {
            x: p.x,
            y: p.y,
            down: false,
            anchor_x: p.anchor_x,
            anchor_y: p.anchor_y,
        },
        PointerEvent::Move { x, y } => if p.down {
            PointerState { x, y, down: true, anchor_x: x, anchor_y: y }
        } else {
            PointerState { x, y, down: false, anchor_x: p.anchor_x, anchor_y: p.anchor_y }
        },
    }
}

/// The viewport-normalized micro-unit delta from `current` back to
/// `anchor` over a span of `span` pixels.
pub open spec fn norm_delta(anchor: int, current: int, span: int) -> int {
    div_trunc((anchor - current) * SCALE, span)
}

/// The micro-radian orientation increment for one axis of a drag step.
pub open spec fn drag_angle(anchor: int, current: int, span: int) -> int {
    atan_micro(norm_delta(anchor, current, span))
}

/// How one event moves the camera: only a move processed while
/// dragging changes it, subtracting the arctangent-mapped deltas from
/// pitch (horizontal motion) and roll (vertical motion).
pub open spec fn step_world(p: PointerState, w: World, e: PointerEvent, cw: int, ch: int) -> World {
    match e {
        PointerEvent::Move { x, y } => if p.down {
            World {
                roll: wrap_angle(w.roll - drag_angle(p.anchor_y as int, y as int, ch)) as i64,
                pitch: wrap_angle(w.pitch - drag_angle(p.anchor_x as int, x as int, cw)) as i64,
                yaw: w.yaw,
                zoom: w.zoom,
                xtrans: w.xtrans,
                ytrans: w.ytrans,
                ztrans: w.ztrans,
            }
        } else {
            w
        },
        _ => w,
    }
}

/// Maps pointer samples to camera orientation changes.  Owns the
/// pointer record; the camera is borrowed per event.
#[derive(Clone, Copy, Debug, PartialEq, Eq, Structural)]
pub struct InteractionController {
    /// The pointer record the state machine runs on.
    pub pointer: PointerState,
}

/// One axis of a drag increment, executable: normalize the pixel delta
/// by the span, map through the arctangent.
fn drag_angle_i64(anchor: i32, current: i32, span: u32) -> (d: i64)
    requires
        span >= 1,
    ensures
        d == drag_angle(anchor as int, current as int, span as int),
        -HALF_PI_MICRO <= d <= HALF_PI_MICRO,
{
    let diff: i64 = anchor as i64 - current as i64;
    let scaled: i64 = diff * SCALE;
    proof {
        lemma_div_trunc_bounds(scaled as int, span as int);
    }
    let z: i64 = div_trunc_i64(scaled, span as i64);
    atan_micro_i64(z)
}

impl InteractionController {
    /// A fresh controller: idle, with the pointer at the origin.
    pub fn new() -> (c: InteractionController)
        ensures
            c.pointer == (PointerState { x: 0, y: 0, down: false, anchor_x: 0, anchor_y: 0 }),
    {
        InteractionController {
            pointer: PointerState { x: 0, y: 0, down: false, anchor_x: 0, anchor_y: 0 },
        }
    }

    /// Process one pointer event against the camera, exactly as
    /// [`step_pointer`] and [`step_world`] describe.  The viewport
    /// dimensions are needed only to normalize a drag step; an event
    /// that needs them is refused — with nothing changed — when either
    /// is zero, since the delta would be undefined.
    pub fn handle_event(
        &mut self,
        event: PointerEvent,
        world: &mut World,
        canvas_width: u32,
        canvas_height: u32,
    ) -> (r: Result<(), PlotError>)
        requires
            old(world).wf(),
        ensures
            r is Err <==> ((event matches PointerEvent::Move { .. }) && old(self).pointer.down && (
            canvas_width == 0 || canvas_height == 0)),
            r matches Err(e) ==> {
                &&& e == PlotError::ZeroViewport
                &&& *final(self) == *old(self)
                &&& *final(world) == *old(world)
            },
            r is Ok ==> {
                &&& final(self).pointer == step_pointer(old(self).pointer, event)
                &&& *final(world) == step_world(
                    old(self).pointer,
                    *old(world),
                    event,
                    canvas_width as int,
                    canvas_height as int,
                )
            },
            final(world).wf(),
    {
        match event {
            PointerEvent::Down { x, y } => {
                self.pointer = PointerState { x, y, down: true, anchor_x: x, anchor_y: y };
                Ok(())
            },
            PointerEvent::Up => {
                self.pointer.down = false;
                Ok(())
            },
            PointerEvent::Leave => {
                self.pointer.down = false;
                Ok(())
            },
            PointerEvent::Move { x, y } => {
                if self.pointer.down {
                    if canvas_width == 0 || canvas_height == 0 {
                        Err(PlotError::ZeroViewport)
                    } else {
                        let dpitch = drag_angle_i64(self.pointer.anchor_x, x, canvas_width);
                        let droll = drag_angle_i64(self.pointer.anchor_y, y, canvas_height);
                        world.apply_drag(dpitch, droll);
                        self.pointer = PointerState { x, y, down: true, anchor_x: x, anchor_y: y };
                        Ok(())
                    }
                } else {
                    self.pointer.x = x;
                    self.pointer.y = y;
                    Ok(())
                }
            },
        }
    }
}

/// A drag step with no pointer motion leaves the camera exactly as it
/// was: the delta is zero, its arctangent is zero, and subtracting
/// zero from a normalized angle changes nothing.
pub proof fn lemma_no_motion_preserves_orientation(
    p: PointerState,
    w: World,
    x: i32,
    y: i32,
    cw: int,
    ch: int,
)
    requires
        w.wf(),
        cw >= 1,
        ch >= 1,
        x == p.anchor_x,
        y == p.anchor_y,
    ensures
        step_world(p, w, PointerEvent::Move { x, y }, cw, ch) == w,
{
    lemma_div_trunc_zero(cw);
    lemma_div_trunc_zero(ch);
    lemma_atan_micro_zero();
}

/// Re-anchoring continuity: a drag step to `(x1, y1)`, a release, a
/// press back at `(x1, y1)` and a drag step to `(x2, y2)` end in
/// exactly the pointer record and camera state of the uninterrupted
/// two-step drag — the anchor is always the immediately preceding
/// sample, so the interruption contributes nothing.
pub proof fn lemma_reanchor_continuity(
    p: PointerState,
    w: World,
    x1: i32,
    y1: i32,
    x2: i32,
    y2: i32,
    cw: int,
    ch: int,
)
    requires
        p.down,
    ensures
        ({
            let move1 = PointerEvent::Move { x: x1, y: y1 };
            let move2 = PointerEvent::Move { x: x2, y: y2 };
            let press = PointerEvent::Down { x: x1, y: y1 };
            let p1 = step_pointer(p, move1);
            let w1 = step_world(p, w, move1, cw, ch);
            let direct_p = step_pointer(p1, move2);
            let direct_w = step_world(p1, w1, move2, cw, ch);
            let released = step_pointer(p1, PointerEvent::Up);
            let repressed = step_pointer(released, press);
            let resumed_p = step_pointer(repressed, move2);
            let resumed_w = step_world(
                repressed,
                step_world(released, w1, press, cw, ch),
                move2,
                cw,
                ch,
            );
            resumed_p == direct_p && resumed_w == direct_w
        }),
{
}

} // verus!
