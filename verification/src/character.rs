//! The player's car: velocity nudges from the keys, live tuning of the
//! suspension spring, and respawning.

use vstd::prelude::*;
use crate::input::{GameKey, KeyboardState, KeyboardView};

verus! {

/// A horizontal axis of the world.
#[derive(Clone, Copy, Debug, PartialEq, Eq, Structural)]
pub enum Axis {
    X,
    Z,
}

/// Whether a nudge raises or lowers a value.
#[derive(Clone, Copy, Debug, PartialEq, Eq, Structural)]
pub enum Nudge {
    Increase,
    Decrease,
}

/// One step of the car's linear velocity along an axis (the step size is the
/// engine's: a tenth of a unit per frame).
#[derive(Clone, Copy, Debug, PartialEq, Eq, Structural)]
pub struct VelocityNudge {
    pub axis: Axis,
    pub nudge: Nudge,
}

/// The velocity steps of a frame, in the order they are applied: W raises X,
/// A lowers Z, S lowers X, D raises Z.
pub open spec fn velocity_nudges(keys: KeyboardView) -> Seq<VelocityNudge> {
    (if keys.pressed.contains(GameKey::KeyW) {
        seq![VelocityNudge { axis: Axis::X, nudge: Nudge::Increase }]
    } else {
        Seq::empty()
    }) + (if keys.pressed.contains(GameKey::KeyA) {
        seq![VelocityNudge { axis: Axis::Z, nudge: Nudge::Decrease }]
    } else {
        Seq::empty()
    }) + (if keys.pressed.contains(GameKey::KeyS) {
        seq![VelocityNudge { axis: Axis::X, nudge: Nudge::Decrease }]
    } else {
        Seq::empty()
    }) + (if keys.pressed.contains(GameKey::KeyD) {
        seq![VelocityNudge { axis: Axis::Z, nudge: Nudge::Increase }]
    } else {
        Seq::empty()
    })
}

/// The velocity steps that the held keys ask for this frame.
pub fn move_me_baby(keys: &KeyboardState) -> (nudges: Vec<VelocityNudge>)
    ensures
        nudges@ == velocity_nudges(keys@),
{
    let mut nudges: Vec<VelocityNudge> = Vec::new();
    if keys.pressed(GameKey::KeyW) {
        nudges.push(VelocityNudge { axis: Axis::X, nudge: Nudge::Increase });
    }
    if keys.pressed(GameKey::KeyA) {
        nudges.push(VelocityNudge { axis: Axis::Z, nudge: Nudge::Decrease });
    }
    if keys.pressed(GameKey::KeyS) {
        nudges.push(VelocityNudge { axis: Axis::X, nudge: Nudge::Decrease });
    }
    if keys.pressed(GameKey::KeyD) {
        nudges.push(VelocityNudge { axis: Axis::Z, nudge: Nudge::Increase });
    }
    nudges
}

/// A tunable parameter of the suspension spring.
#[derive(Clone, Copy, Debug, PartialEq, Eq, Structural)]
pub enum SpringParam {
    Strength,
    Damper,
}

/// One unit step of a spring parameter.
#[derive(Clone, Copy, Debug, PartialEq, Eq, Structural)]
pub struct SpringAdjustment {
    pub param: SpringParam,
    pub nudge: Nudge,
}

/// The spring steps of a frame, in order: up raises the strength, down
/// lowers it, left lowers the damper, right raises it.
pub open spec fn spring_adjustments(keys: KeyboardView) -> Seq<SpringAdjustment> {
    (if keys.pressed.contains(GameKey::ArrowUp) {
        seq![SpringAdjustment { param: SpringParam::Strength, nudge: Nudge::Increase }]
    } else {
        Seq::empty()
    }) + (if keys.pressed.contains(GameKey::ArrowDown) {
        seq![SpringAdjustment { param: SpringParam::Strength, nudge: Nudge::Decrease }]
    } else {
        Seq::empty()
    }) + (if keys.pressed.contains(GameKey::ArrowLeft) {
        seq![SpringAdjustment { param: SpringParam::Damper, nudge: Nudge::Decrease }]
    } else {
        Seq::empty()
    }) + (if keys.pressed.contains(GameKey::ArrowRight) {
        seq![SpringAdjustment { param: SpringParam::Damper, nudge: Nudge::Increase }]
    } else {
        Seq::empty()
    })
}

/// The spring steps that the held arrow keys ask for this frame (applied to
/// every car).
pub fn change_spring_forcer(keys: &KeyboardState) -> (steps: Vec<SpringAdjustment>)
    ensures
        steps@ == spring_adjustments(keys@),
{
    let mut steps: Vec<SpringAdjustment> = Vec::new();
    if keys.pressed(GameKey::ArrowUp) {
        steps.push(SpringAdjustment { param: SpringParam::Strength, nudge: Nudge::Increase });
    }
    if keys.pressed(GameKey::ArrowDown) {
        steps.push(SpringAdjustment { param: SpringParam::Strength, nudge: Nudge::Decrease });
    }
    if keys.pressed(GameKey::ArrowLeft) {
        steps.push(SpringAdjustment { param: SpringParam::Damper, nudge: Nudge::Decrease });
    }
    if keys.pressed(GameKey::ArrowRight) {
        steps.push(SpringAdjustment { param: SpringParam::Damper, nudge: Nudge::Increase });
    }
    steps
}

/// Whether the cars go back to the spawner this frame: exactly when R went
/// down during the frame.
pub fn respawn(keys: &KeyboardState) -> (reset: bool)
    ensures
        reset == keys@.just_pressed.contains(GameKey::KeyR),
{
    keys.just_pressed(GameKey::KeyR)
}


/// The signed size of a nudge.
pub open spec fn nudge_sign(nudge: Nudge) -> int {
    match nudge {
        Nudge::Increase => 1,
        Nudge::Decrease => -1,
    }
}

/// Net number of unit steps that `steps` make to `param`.
pub open spec fn spring_net(steps: Seq<SpringAdjustment>, param: SpringParam) -> int
    decreases steps.len(),
{
    if steps.len() == 0 {
        0
    } else {
        spring_net(steps.drop_last(), param) + if steps.last().param == param {
            nudge_sign(steps.last().nudge)
        } else {
            0
        }
    }
}

/// Net number of velocity steps that `nudges` make along `axis`.
pub open spec fn velocity_net(nudges: Seq<VelocityNudge>, axis: Axis) -> int
    decreases nudges.len(),
{
    if nudges.len() == 0 {
        0
    } else {
        velocity_net(nudges.drop_last(), axis) + if nudges.last().axis == axis {
            nudge_sign(nudges.last().nudge)
        } else {
            0
        }
    }
}

/// 1 when `b` holds, else 0.
pub open spec fn indicator(b: bool) -> int {
    if b { 1 } else { 0 }
}

/// Appending one adjustment adds its contribution to the net change.
proof fn lemma_spring_net_push(steps: Seq<SpringAdjustment>, step: SpringAdjustment, param: SpringParam)
    ensures
        spring_net(steps.push(step), param) == spring_net(steps, param)
            + if step.param == param { nudge_sign(step.nudge) } else { 0 },
{
    assert(steps.push(step).drop_last() =~= steps);
}

/// Appending one nudge adds its contribution to the net change.
proof fn lemma_velocity_net_push(nudges: Seq<VelocityNudge>, nudge: VelocityNudge, axis: Axis)
    ensures
        velocity_net(nudges.push(nudge), axis) == velocity_net(nudges, axis)
            + if nudge.axis == axis { nudge_sign(nudge.nudge) } else { 0 },
{
    assert(nudges.push(nudge).drop_last() =~= nudges);
}

/// Appends `step` to `steps` when `held`.
spec fn push_if<A>(steps: Seq<A>, held: bool, step: A) -> Seq<A> {
    if held { steps.push(step) } else { steps }
}

/// Spring tuning: in one frame the strength moves by (up held) - (down held)
/// units and the damper by (right held) - (left held) units, so opposite keys
/// held together cancel.
pub proof fn law_spring_net_change(keys: KeyboardView)
    ensures
        spring_net(spring_adjustments(keys), SpringParam::Strength)
            == indicator(keys.pressed.contains(GameKey::ArrowUp))
            - indicator(keys.pressed.contains(GameKey::ArrowDown)),
        spring_net(spring_adjustments(keys), SpringParam::Damper)
            == indicator(keys.pressed.contains(GameKey::ArrowRight))
            - indicator(keys.pressed.contains(GameKey::ArrowLeft)),
        spring_adjustments(keys).len() <= 4,
{
    let up = SpringAdjustment { param: SpringParam::Strength, nudge: Nudge::Increase };
    let down = SpringAdjustment { param: SpringParam::Strength, nudge: Nudge::Decrease };
    let left = SpringAdjustment { param: SpringParam::Damper, nudge: Nudge::Decrease };
    let right = SpringAdjustment { param: SpringParam::Damper, nudge: Nudge::Increase };
    let s0 = Seq::<SpringAdjustment>::empty();
    let s1 = push_if(s0, keys.pressed.contains(GameKey::ArrowUp), up);
    let s2 = push_if(s1, keys.pressed.contains(GameKey::ArrowDown), down);
    let s3 = push_if(s2, keys.pressed.contains(GameKey::ArrowLeft), left);
    let s4 = push_if(s3, keys.pressed.contains(GameKey::ArrowRight), right);
    assert(spring_adjustments(keys) =~= s4);
    lemma_spring_net_push(s0, up, SpringParam::Strength);
    lemma_spring_net_push(s0, up, SpringParam::Damper);
    lemma_spring_net_push(s1, down, SpringParam::Strength);
    lemma_spring_net_push(s1, down, SpringParam::Damper);
    lemma_spring_net_push(s2, left, SpringParam::Strength);
    lemma_spring_net_push(s2, left, SpringParam::Damper);
    lemma_spring_net_push(s3, right, SpringParam::Strength);
    lemma_spring_net_push(s3, right, SpringParam::Damper);
}

/// Velocity nudges: in one frame the velocity moves by (W held) - (S held)
/// steps along X and by (D held) - (A held) steps along Z.
pub proof fn law_velocity_net_change(keys: KeyboardView)
    ensures
        velocity_net(velocity_nudges(keys), Axis::X)
            == indicator(keys.pressed.contains(GameKey::KeyW))
            - indicator(keys.pressed.contains(GameKey::KeyS)),
        velocity_net(velocity_nudges(keys), Axis::Z)
            == indicator(keys.pressed.contains(GameKey::KeyD))
            - indicator(keys.pressed.contains(GameKey::KeyA)),
        velocity_nudges(keys).len() <= 4,
{
    let w = VelocityNudge { axis: Axis::X, nudge: Nudge::Increase };
    let a = VelocityNudge { axis: Axis::Z, nudge: Nudge::Decrease };
    let s = VelocityNudge { axis: Axis::X, nudge: Nudge::Decrease };
    let d = VelocityNudge { axis: Axis::Z, nudge: Nudge::Increase };
    let s0 = Seq::<VelocityNudge>::empty();
    let s1 = push_if(s0, keys.pressed.contains(GameKey::KeyW), w);
    let s2 = push_if(s1, keys.pressed.contains(GameKey::KeyA), a);
    let s3 = push_if(s2, keys.pressed.contains(GameKey::KeyS), s);
    let s4 = push_if(s3, keys.pressed.contains(GameKey::KeyD), d);
    assert(velocity_nudges(keys) =~= s4);
    lemma_velocity_net_push(s0, w, Axis::X);
    lemma_velocity_net_push(s0, w, Axis::Z);
    lemma_velocity_net_push(s1, a, Axis::X);
    lemma_velocity_net_push(s1, a, Axis::Z);
    lemma_velocity_net_push(s2, s, Axis::X);
    lemma_velocity_net_push(s2, s, Axis::Z);
    lemma_velocity_net_push(s3, d, Axis::X);
    lemma_velocity_net_push(s3, d, Axis::Z);
}

} // verus!
