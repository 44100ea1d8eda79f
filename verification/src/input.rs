//! The per-tick input snapshot and the mapper that produces it from key
//! pressed-state and pointer deltas.

use vstd::prelude::*;
use crate::fix::{ONE, fmul, sabs, sclamp, mul_fx, clamp_fx, sgn_fx, ssgn, euclid_mod};
use crate::trig::{PI_FX, TAU_FX, HALF_PI_FX};
use crate::vec3::Vec3;
use crate::state::GoldenControllerMutables;

verus! {

/// Padding used by camera pitching (up/down) to avoid instability at the
/// poles.
pub const ANGLE_EPSILON: i64 = 128;

/// Pointer deltas handed to the mapper are kept below this bound.
pub const MOUSE_LIM: i64 = 0x4000000;

/// One scroll-wheel notch's contribution to the degree modifiers (0.1).
pub const SCROLL_STEP: i64 = 6554;

/// The pressed-state of the controller's bound keys for one tick.
#[derive(Clone, Copy, PartialEq, Eq, Structural, Debug, Default)]
pub struct KeyState {
    pub forward: bool,
    pub back: bool,
    pub left: bool,
    pub right: bool,
    pub lean_left: bool,
    pub lean_right: bool,
    pub crouch: bool,
    pub jump: bool,
}

/// One scroll-wheel event's horizontal and vertical motion.
#[derive(Clone, Copy, PartialEq, Eq, Structural, Debug)]
pub struct ScrollDelta {
    pub x: i64,
    pub y: i64,
}

#[derive(Clone, Copy, PartialEq, Eq, Structural, Debug)]
pub struct GoldenControllerInput {
    pub jump: bool,
    pub crouch: bool,
    pub pitch: i64,
    pub yaw: i64,
    pub movement: Vec3,
    /// -ONE full left, +ONE full right.
    pub lean: i64,
    pub lean_degree_mod: i64,
    pub crouch_degree_mod: i64,
}

impl GoldenControllerInput {
    pub open spec fn wf(self) -> bool {
        &&& self.movement.bounded(ONE as int)
        &&& -ONE <= self.lean <= ONE
        &&& 0 <= self.lean_degree_mod <= ONE
        &&& 0 <= self.crouch_degree_mod <= ONE
        &&& -HALF_PI_FX <= self.pitch <= HALF_PI_FX
        &&& -TAU_FX <= self.yaw <= TAU_FX
    }
}

impl Default for GoldenControllerInput {
    /// No commands; looking slightly down and back over the left shoulder
    /// (a pitch of -tau/12 and a yaw of tau * 5/8).
    fn default() -> (r: Self)
        ensures
            r.wf(),
            !r.jump,
            !r.crouch,
            r.pitch == -34315,
            r.yaw == 257359,
            r.movement.is_zero(),
            r.lean == 0,
            r.lean_degree_mod == 0,
            r.crouch_degree_mod == ONE,
    {
        GoldenControllerInput {
            jump: false,
            crouch: false,
            pitch: -34315,
            yaw: 257359,
            movement: Vec3 { x: 0, y: 0, z: 0 },
            lean: 0,
            lean_degree_mod: 0,
            crouch_degree_mod: 65536,
        }
    }
}

/// ONE if the key is pressed, 0 otherwise.
pub open spec fn pressed_s(pressed: bool) -> int {
    if pressed {
        ONE as int
    } else {
        0
    }
}

/// The axis a positive and a negative key span: ONE, -ONE or 0.
pub open spec fn axis_s(pos: bool, neg: bool) -> int {
    pressed_s(pos) - pressed_s(neg)
}

pub fn get_pressed(pressed: bool) -> (r: i64)
    ensures
        r == pressed_s(pressed),
{
    if pressed {
        ONE
    } else {
        0
    }
}

pub fn get_axis(pos: bool, neg: bool) -> (r: i64)
    ensures
        r == axis_s(pos, neg),
{
    get_pressed(pos) - get_pressed(neg)
}

/// A raw yaw angle wrapped into (-pi, pi].
pub open spec fn wrap_yaw_s(y: int) -> int {
    let w = y % (TAU_FX as int);
    if w > PI_FX {
        w - TAU_FX
    } else {
        w
    }
}

/// The pitch update: turn by the scaled pointer delta, clamped away from the
/// poles.
pub open spec fn pitch_next_s(pitch: int, dy: int, sensitivity: int) -> int {
    sclamp(
        pitch - fmul(dy, sensitivity),
        -HALF_PI_FX + ANGLE_EPSILON,
        HALF_PI_FX - ANGLE_EPSILON,
    )
}

/// The yaw update: turn by the scaled pointer delta, wrapped into (-pi, pi]
/// once its magnitude leaves [-pi, pi].
pub open spec fn yaw_next_s(yaw: int, dx: int, sensitivity: int) -> int {
    let y = yaw - fmul(dx, sensitivity);
    if sabs(y) > PI_FX {
        wrap_yaw_s(y)
    } else {
        y
    }
}

/// Maps raw device state (key pressed-state, accumulated pointer delta) into
/// the input snapshot: look angles turned and clamped, movement axes set to
/// -ONE/0/ONE, jump and crouch captured.
pub fn fps_controller_input(
    keys: &KeyState,
    mutables: &GoldenControllerMutables,
    input: &mut GoldenControllerInput,
    mouse_delta_x: i64,
    mouse_delta_y: i64,
)
    requires
        old(input).wf(),
        mutables.wf(),
        -MOUSE_LIM <= mouse_delta_x <= MOUSE_LIM,
        -MOUSE_LIM <= mouse_delta_y <= MOUSE_LIM,
    ensures
        final(input).pitch == pitch_next_s(
            old(input).pitch as int,
            mouse_delta_y as int,
            mutables.sensitivity as int,
        ),
        final(input).yaw == yaw_next_s(
            old(input).yaw as int,
            mouse_delta_x as int,
            mutables.sensitivity as int,
        ),
        final(input).movement == (Vec3 {
            x: axis_s(keys.right, keys.left) as i64,
            y: 0i64,
            z: axis_s(keys.forward, keys.back) as i64,
        }),
        final(input).lean == axis_s(keys.lean_right, keys.lean_left),
        final(input).jump == keys.jump,
        final(input).crouch == keys.crouch,
        final(input).lean_degree_mod == old(input).lean_degree_mod,
        final(input).crouch_degree_mod == old(input).crouch_degree_mod,
        final(input).wf(),
        -PI_FX <= final(input).yaw <= PI_FX,
{
    proof {
        assert(sabs(mouse_delta_x as int * mutables.sensitivity as int) <= 0x400000000000)
            by (nonlinear_arith)
            requires
                -MOUSE_LIM <= mouse_delta_x <= MOUSE_LIM,
                0 <= mutables.sensitivity <= ONE,
                MOUSE_LIM == 0x4000000,
                ONE == 65536,
        ;
        assert(sabs(mouse_delta_y as int * mutables.sensitivity as int) <= 0x400000000000)
            by (nonlinear_arith)
            requires
                -MOUSE_LIM <= mouse_delta_y <= MOUSE_LIM,
                0 <= mutables.sensitivity <= ONE,
                MOUSE_LIM == 0x4000000,
                ONE == 65536,
        ;
    }
    let sdx: i64 = mul_fx(mouse_delta_x, mutables.sensitivity);
    let sdy: i64 = mul_fx(mouse_delta_y, mutables.sensitivity);
    proof {
        crate::fix::lemma_fmul_shrink(mouse_delta_x as int, mutables.sensitivity as int);
        crate::fix::lemma_fmul_shrink(mouse_delta_y as int, mutables.sensitivity as int);
    }
    input.pitch = clamp_fx(
        input.pitch - sdy,
        -HALF_PI_FX + ANGLE_EPSILON,
        HALF_PI_FX - ANGLE_EPSILON,
    );
    let y: i64 = input.yaw - sdx;
    let ya: i64 = if y >= 0 {
        y
    } else {
        -y
    };
    if ya > PI_FX {
        let w: i64 = euclid_mod(y, TAU_FX);
        input.yaw = if w > PI_FX {
            w - TAU_FX
        } else {
            w
        };
    } else {
        input.yaw = y;
    }
    input.movement = Vec3 {
        x: get_axis(keys.right, keys.left),
        y: 0,
        z: get_axis(keys.forward, keys.back),
    };
    input.lean = get_axis(keys.lean_right, keys.lean_left);
    input.jump = keys.jump;
    input.crouch = keys.crouch;
}

/// The accumulated modifier shift of a sequence of scroll events: each
/// component past the dead-zone contributes a tenth, with its sign.
pub open spec fn scroll_shift_s(events: Seq<ScrollDelta>) -> int
    decreases events.len(),
{
    if events.len() == 0 {
        0
    } else {
        let e = events.last();
        let dy: int = if sabs(e.y as int) > SCROLL_STEP {
            ssgn(e.y as int) * SCROLL_STEP
        } else {
            0
        };
        let dx: int = if sabs(e.x as int) > SCROLL_STEP {
            ssgn(e.x as int) * SCROLL_STEP
        } else {
            0
        };
        scroll_shift_s(events.drop_last()) + dy + dx
    }
}

/// Every event's components can be negated safely.
pub open spec fn scroll_wf(events: Seq<ScrollDelta>) -> bool {
    forall|j: int|
        0 <= j < events.len() ==> (#[trigger] events[j]).x > i64::MIN && events[j].y > i64::MIN
}

/// Folds this tick's scroll-wheel events into the degree modifiers: while
/// leaning the shift tunes the lean modifier, else while crouching it tunes
/// the crouch modifier; both stay inside [0, ONE].
pub fn scroll_events(events: &Vec<ScrollDelta>, input: &mut GoldenControllerInput)
    requires
        old(input).wf(),
        events@.len() <= 65536,
        scroll_wf(events@),
    ensures
        final(input).lean_degree_mod == (if sabs(old(input).lean as int) > SCROLL_STEP {
            sclamp(
                old(input).lean_degree_mod + sclamp(
                    scroll_shift_s(events@),
                    -ONE as int,
                    ONE as int,
                ),
                0,
                ONE as int,
            )
        } else {
            old(input).lean_degree_mod as int
        }),
        final(input).crouch_degree_mod == (if sabs(old(input).lean as int) <= SCROLL_STEP
            && old(input).crouch {
            sclamp(
                old(input).crouch_degree_mod - sclamp(
                    scroll_shift_s(events@),
                    -ONE as int,
                    ONE as int,
                ),
                0,
                ONE as int,
            )
        } else {
            old(input).crouch_degree_mod as int
        }),
        *final(input) == (GoldenControllerInput {
            lean_degree_mod: final(input).lean_degree_mod,
            crouch_degree_mod: final(input).crouch_degree_mod,
            ..*old(input)
        }),
        final(input).wf(),
{
    let mut mod_shift: i64 = 0;
    let n: usize = events.len();
    let mut i: usize = 0;
    while i < n
        invariant
            0 <= i <= n,
            n == events@.len() <= 65536,
            scroll_wf(events@),
            mod_shift == scroll_shift_s(events@.take(i as int)),
            -13108 * i <= mod_shift <= 13108 * i,
        decreases n - i,
    {
        let e = events[i];
        proof {
            assert(events@.take(i as int + 1).drop_last() =~= events@.take(i as int));
            assert(events@.take(i as int + 1).last() == events@[i as int]);
            assert(events@[i as int].x > i64::MIN && events@[i as int].y > i64::MIN);
        }
        if abs_ge(e.y, SCROLL_STEP) {
            mod_shift = mod_shift + sgn_fx(e.y) * SCROLL_STEP;
        }
        if abs_ge(e.x, SCROLL_STEP) {
            mod_shift = mod_shift + sgn_fx(e.x) * SCROLL_STEP;
        }
        i = i + 1;
    }
    proof {
        assert(events@.take(n as int) =~= events@);
    }
    mod_shift = clamp_fx(mod_shift, -ONE, ONE);
    let lean_mag: i64 = if input.lean >= 0 {
        input.lean
    } else {
        -input.lean
    };
    if lean_mag > SCROLL_STEP {
        input.lean_degree_mod = clamp_fx(input.lean_degree_mod + mod_shift, 0, ONE);
    } else if input.crouch {
        input.crouch_degree_mod = clamp_fx(input.crouch_degree_mod - mod_shift, 0, ONE);
    }
}

/// Whether `|a|` is strictly beyond the scroll dead-zone.
fn abs_ge(a: i64, step: i64) -> (r: bool)
    requires
        a > i64::MIN,
    ensures
        r == (sabs(a as int) > step),
{
    let m: i64 = if a >= 0 {
        a
    } else {
        -a
    };
    m > step
}

} // verus!
