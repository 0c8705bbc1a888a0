use raycast_car::character::{
    change_spring_forcer, move_me_baby, respawn, Axis, Nudge, SpringAdjustment, SpringParam,
    VelocityNudge,
};
use raycast_car::forcer::{
    apply_multi_force, effective_acceleration, on_movement_action, on_tire_rotation,
    AccelerationEvent, Damping, MovementAction, SteeringDir, TireContact, FORWARD_THRUST,
    REVERSE_THRUST,
};
use raycast_car::input::{GameKey, KeyboardState};

fn held(keys: &[GameKey]) -> KeyboardState {
    KeyboardState::new(keys.to_vec(), Vec::new())
}

#[test]
fn keyboard_reports_held_and_new_keys() {
    let keys = KeyboardState::new(vec![GameKey::KeyW, GameKey::KeyW], vec![GameKey::KeyR]);
    assert!(keys.pressed(GameKey::KeyW));
    assert!(!keys.pressed(GameKey::KeyR));
    assert!(keys.just_pressed(GameKey::KeyR));
    assert!(!keys.just_pressed(GameKey::KeyW));
    let none = KeyboardState::released();
    assert!(!none.pressed(GameKey::ArrowUp));
    assert!(!none.just_pressed(GameKey::KeyR));
}

#[test]
fn no_keys_write_no_driving_events() {
    let events = on_movement_action(&KeyboardState::released());
    assert!(events.accelerations.is_empty());
    assert!(events.movements.is_empty());
}

#[test]
fn forward_key_writes_forward_thrust() {
    let events = on_movement_action(&held(&[GameKey::KeyW]));
    assert_eq!(events.accelerations, vec![AccelerationEvent(2)]);
    assert_eq!(FORWARD_THRUST, 2);
    assert!(events.movements.is_empty());
}

#[test]
fn all_driving_keys_write_events_in_order() {
    let events = on_movement_action(&held(&[GameKey::KeyA, GameKey::KeyS, GameKey::KeyD, GameKey::KeyW]));
    assert_eq!(
        events.accelerations,
        vec![AccelerationEvent(FORWARD_THRUST), AccelerationEvent(REVERSE_THRUST)]
    );
    assert_eq!(REVERSE_THRUST, -1);
    assert_eq!(
        events.movements,
        vec![MovementAction::Steer(SteeringDir::Right), MovementAction::Steer(SteeringDir::Left)]
    );
}

#[test]
fn non_driving_keys_write_nothing() {
    let events = on_movement_action(&held(&[GameKey::ArrowUp, GameKey::KeyR]));
    assert!(events.accelerations.is_empty());
    assert!(events.movements.is_empty());
}

#[test]
fn tires_turn_for_each_event_and_stay_turned_while_steering() {
    let keys = held(&[GameKey::KeyA]);
    let movements = vec![
        MovementAction::Steer(SteeringDir::Left),
        MovementAction::Steer(SteeringDir::Right),
        MovementAction::Steer(SteeringDir::Left),
    ];
    let plan = on_tire_rotation(&keys, &movements);
    assert_eq!(plan.turns, vec![SteeringDir::Left, SteeringDir::Right, SteeringDir::Left]);
    assert!(!plan.recenter);
}

#[test]
fn tires_recenter_without_steering_keys() {
    let plan = on_tire_rotation(&held(&[GameKey::KeyW]), &Vec::new());
    assert!(plan.turns.is_empty());
    assert!(plan.recenter);
    // events left over from an earlier frame still turn the tires
    let plan = on_tire_rotation(&KeyboardState::released(), &vec![MovementAction::Steer(SteeringDir::Right)]);
    assert_eq!(plan.turns, vec![SteeringDir::Right]);
    assert!(plan.recenter);
}

#[test]
fn steering_from_controls_recenters_only_without_events() {
    for keys in [vec![], vec![GameKey::KeyA], vec![GameKey::KeyD], vec![GameKey::KeyA, GameKey::KeyD], vec![GameKey::KeyW]] {
        let state = held(&keys);
        let events = on_movement_action(&state);
        let plan = on_tire_rotation(&state, &events.movements);
        assert_eq!(plan.recenter, events.movements.is_empty());
    }
}

#[test]
fn last_acceleration_event_is_applied() {
    assert_eq!(effective_acceleration(&Vec::new()), None);
    let events = vec![AccelerationEvent(FORWARD_THRUST), AccelerationEvent(REVERSE_THRUST)];
    assert_eq!(effective_acceleration(&events), Some(AccelerationEvent(-1)));
    assert_eq!(effective_acceleration(&vec![AccelerationEvent(7)]), Some(AccelerationEvent(7)));
}

#[test]
fn tires_without_hits_push_nothing() {
    let plan = apply_multi_force(&vec![0, 3, 0, 1], &vec![AccelerationEvent(FORWARD_THRUST)]);
    assert_eq!(
        plan.contacts,
        vec![TireContact { tire: 1, hit: 2 }, TireContact { tire: 3, hit: 0 }]
    );
    assert_eq!(plan.acceleration, Some(AccelerationEvent(2)));
    assert_eq!(plan.damping, Damping::Grounded);
}

#[test]
fn airborne_car_is_not_damped() {
    let plan = apply_multi_force(&vec![0, 0, 0, 0], &Vec::new());
    assert!(plan.contacts.is_empty());
    assert_eq!(plan.acceleration, None);
    assert_eq!(plan.damping, Damping::Airborne);
    let plan = apply_multi_force(&Vec::new(), &vec![AccelerationEvent(REVERSE_THRUST)]);
    assert!(plan.contacts.is_empty());
    assert_eq!(plan.acceleration, Some(AccelerationEvent(REVERSE_THRUST)));
    assert_eq!(plan.damping, Damping::Airborne);
}

#[test]
fn all_tires_on_ground() {
    let plan = apply_multi_force(&vec![1, 1, 2, 1], &Vec::new());
    assert_eq!(plan.contacts.len(), 4);
    assert_eq!(plan.contacts[2], TireContact { tire: 2, hit: 1 });
    assert_eq!(plan.damping, Damping::Grounded);
}

#[test]
fn velocity_nudges_follow_key_order() {
    assert!(move_me_baby(&KeyboardState::released()).is_empty());
    let nudges = move_me_baby(&held(&[GameKey::KeyD, GameKey::KeyS, GameKey::KeyA, GameKey::KeyW]));
    assert_eq!(
        nudges,
        vec![
            VelocityNudge { axis: Axis::X, nudge: Nudge::Increase },
            VelocityNudge { axis: Axis::Z, nudge: Nudge::Decrease },
            VelocityNudge { axis: Axis::X, nudge: Nudge::Decrease },
            VelocityNudge { axis: Axis::Z, nudge: Nudge::Increase },
        ]
    );
    assert_eq!(
        move_me_baby(&held(&[GameKey::KeyW])),
        vec![VelocityNudge { axis: Axis::X, nudge: Nudge::Increase }]
    );
}

#[test]
fn spring_tuning_follows_arrow_keys() {
    assert!(change_spring_forcer(&held(&[GameKey::KeyW])).is_empty());
    assert_eq!(
        change_spring_forcer(&held(&[GameKey::ArrowUp])),
        vec![SpringAdjustment { param: SpringParam::Strength, nudge: Nudge::Increase }]
    );
    assert_eq!(
        change_spring_forcer(&held(&[GameKey::ArrowRight, GameKey::ArrowLeft, GameKey::ArrowDown])),
        vec![
            SpringAdjustment { param: SpringParam::Strength, nudge: Nudge::Decrease },
            SpringAdjustment { param: SpringParam::Damper, nudge: Nudge::Decrease },
            SpringAdjustment { param: SpringParam::Damper, nudge: Nudge::Increase },
        ]
    );
}

fn net(steps: &[SpringAdjustment], param: SpringParam) -> i32 {
    steps
        .iter()
        .filter(|s| s.param == param)
        .map(|s| if s.nudge == Nudge::Increase { 1 } else { -1 })
        .sum()
}

#[test]
fn opposite_arrow_keys_cancel() {
    let steps = change_spring_forcer(&held(&[GameKey::ArrowUp, GameKey::ArrowDown, GameKey::ArrowLeft]));
    assert_eq!(net(&steps, SpringParam::Strength), 0);
    assert_eq!(net(&steps, SpringParam::Damper), -1);
}

#[test]
fn forward_key_both_accelerates_and_nudges() {
    let keys = held(&[GameKey::KeyW]);
    let events = on_movement_action(&keys);
    let nudges = move_me_baby(&keys);
    assert!(events.accelerations.contains(&AccelerationEvent(FORWARD_THRUST)));
    assert!(nudges.contains(&VelocityNudge { axis: Axis::X, nudge: Nudge::Increase }));
}

#[test]
fn respawn_only_on_fresh_r_press() {
    assert!(respawn(&KeyboardState::new(vec![GameKey::KeyR], vec![GameKey::KeyR])));
    assert!(!respawn(&KeyboardState::new(vec![GameKey::KeyR], Vec::new())));
    assert!(!respawn(&KeyboardState::new(Vec::new(), vec![GameKey::KeyW])));
}

fn velocity_net(nudges: &[VelocityNudge], axis: Axis) -> i32 {
    nudges
        .iter()
        .filter(|n| n.axis == axis)
        .map(|n| if n.nudge == Nudge::Increase { 1 } else { -1 })
        .sum()
}

#[test]
fn opposite_driving_keys_cancel_velocity_nudges() {
    let nudges = move_me_baby(&held(&[GameKey::KeyW, GameKey::KeyS, GameKey::KeyD]));
    assert_eq!(nudges.len(), 3);
    assert_eq!(velocity_net(&nudges, Axis::X), 0);
    assert_eq!(velocity_net(&nudges, Axis::Z), 1);
}
