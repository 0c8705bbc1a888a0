//! Driving: the events that the keys produce, the steering of the tires and
//! the per-car plan of which tires push on the car.

use vstd::prelude::*;
use crate::input::{GameKey, KeyboardState, KeyboardView};
use crate::character::{indicator, velocity_nudges, Axis, Nudge, VelocityNudge};

verus! {

/// Collision layers that the wheel and camera queries look at.
pub const QUERY_LAYER_MASK: u32 = 0b1011;

/// Thrust of the acceleration event that the forward key produces.
pub const FORWARD_THRUST: i32 = 2;

/// Thrust of the acceleration event that the reverse key produces.
pub const REVERSE_THRUST: i32 = -1;

/// Direction of a steering input.
#[derive(Clone, Copy, Debug, PartialEq, Eq, Structural)]
pub enum SteeringDir {
    Left,
    Right,
}

/// A movement request written by the driving controls.
#[derive(Clone, Copy, Debug, PartialEq, Eq, Structural)]
pub enum MovementAction {
    Steer(SteeringDir),
}

/// A request to accelerate, with the thrust that scales the engine force.
#[derive(Clone, Copy, Debug, PartialEq, Eq, Structural)]
pub struct AccelerationEvent(pub i32);

/// The events that the driving controls write in one frame.
pub struct DriveEvents {
    pub accelerations: Vec<AccelerationEvent>,
    pub movements: Vec<MovementAction>,
}

/// The acceleration events of a frame: forward thrust when W is down, then
/// reverse thrust when S is down.
pub open spec fn drive_accelerations(keys: KeyboardView) -> Seq<AccelerationEvent> {
    (if keys.pressed.contains(GameKey::KeyW) {
        seq![AccelerationEvent(FORWARD_THRUST)]
    } else {
        Seq::empty()
    }) + (if keys.pressed.contains(GameKey::KeyS) {
        seq![AccelerationEvent(REVERSE_THRUST)]
    } else {
        Seq::empty()
    })
}

/// The movement events of a frame: steer right when D is down, then steer
/// left when A is down.
pub open spec fn drive_movements(keys: KeyboardView) -> Seq<MovementAction> {
    (if keys.pressed.contains(GameKey::KeyD) {
        seq![MovementAction::Steer(SteeringDir::Right)]
    } else {
        Seq::empty()
    }) + (if keys.pressed.contains(GameKey::KeyA) {
        seq![MovementAction::Steer(SteeringDir::Left)]
    } else {
        Seq::empty()
    })
}

/// Turns the held keys into the driving events of this frame.
pub fn on_movement_action(keys: &KeyboardState) -> (events: DriveEvents)
    ensures
        events.accelerations@ == drive_accelerations(keys@),
        events.movements@ == drive_movements(keys@),
        events.accelerations@.len() == indicator(keys@.pressed.contains(GameKey::KeyW))
            + indicator(keys@.pressed.contains(GameKey::KeyS)),
        forall|i: int| 0 <= i < events.accelerations@.len() ==>
            #[trigger] events.accelerations@[i] == AccelerationEvent(FORWARD_THRUST)
            || events.accelerations@[i] == AccelerationEvent(REVERSE_THRUST),
        events.accelerations@.contains(AccelerationEvent(FORWARD_THRUST)) <==> keys@.pressed.contains(GameKey::KeyW),
        events.accelerations@.contains(AccelerationEvent(REVERSE_THRUST)) <==> keys@.pressed.contains(GameKey::KeyS),
        events.movements@.len() == indicator(keys@.pressed.contains(GameKey::KeyD))
            + indicator(keys@.pressed.contains(GameKey::KeyA)),
        events.movements@.contains(MovementAction::Steer(SteeringDir::Right)) <==> keys@.pressed.contains(GameKey::KeyD),
        events.movements@.contains(MovementAction::Steer(SteeringDir::Left)) <==> keys@.pressed.contains(GameKey::KeyA),
{
    let mut accelerations: Vec<AccelerationEvent> = Vec::new();
    let mut movements: Vec<MovementAction> = Vec::new();
    if keys.pressed(GameKey::KeyW) {
        accelerations.push(AccelerationEvent(FORWARD_THRUST));
    }
    if keys.pressed(GameKey::KeyS) {
        accelerations.push(AccelerationEvent(REVERSE_THRUST));
    }
    if keys.pressed(GameKey::KeyD) {
        movements.push(MovementAction::Steer(SteeringDir::Right));
    }
    if keys.pressed(GameKey::KeyA) {
        movements.push(MovementAction::Steer(SteeringDir::Left));
    }
    proof {
        assert(accelerations@ =~= drive_accelerations(keys@));
        assert(movements@ =~= drive_movements(keys@));
        law_drive_accelerations(keys@);
        law_drive_movements(keys@);
    }
    DriveEvents { accelerations, movements }
}


/// The direction a movement event steers in.
pub open spec fn steer_direction(action: MovementAction) -> SteeringDir {
    match action {
        MovementAction::Steer(dir) => dir,
    }
}

/// What the tire steering does in one frame: the turns to apply to the front
/// tires, in order, and whether the tires swing back towards straight ahead.
pub struct TireRotationPlan {
    pub turns: Vec<SteeringDir>,
    pub recenter: bool,
}

/// Whether a steering key (A or D) is held.
pub open spec fn is_steering(keys: KeyboardView) -> bool {
    keys.pressed.contains(GameKey::KeyA) || keys.pressed.contains(GameKey::KeyD)
}

/// Decides the tire steering of a frame from the held keys and the movement
/// events read this frame: every event turns the front tires in its
/// direction, and without a steering key held the tires return to centre.
pub fn on_tire_rotation(keys: &KeyboardState, movements: &Vec<MovementAction>) -> (plan: TireRotationPlan)
    ensures
        plan.turns@ == movements@.map_values(|m: MovementAction| steer_direction(m)),
        plan.recenter == !is_steering(keys@),
{
    let steering = keys.pressed(GameKey::KeyA) || keys.pressed(GameKey::KeyD);
    let mut turns: Vec<SteeringDir> = Vec::new();
    let mut i: usize = 0;
    while i < movements.len()
        invariant
            i <= movements.len(),
            turns@ == movements@.take(i as int).map_values(|m: MovementAction| steer_direction(m)),
        decreases movements.len() - i,
    {
        match movements[i] {
            MovementAction::Steer(dir) => {
                turns.push(dir);
            },
        }
        assert(movements@.take(i + 1) == movements@.take(i as int).push(movements@[i as int]));
        i = i + 1;
    }
    assert(movements@.take(movements.len() as int) == movements@);
    TireRotationPlan { turns, recenter: !steering }
}

/// The acceleration that drives the car this frame: the last event read, if
/// any (each event's force replaces the previous one).
pub open spec fn last_acceleration(events: Seq<AccelerationEvent>) -> Option<AccelerationEvent> {
    if events.len() == 0 {
        None
    } else {
        Some(events.last())
    }
}

/// Picks the acceleration event whose force is applied this frame.
pub fn effective_acceleration(events: &Vec<AccelerationEvent>) -> (chosen: Option<AccelerationEvent>)
    ensures
        chosen == last_acceleration(events@),
{
    if events.len() == 0 {
        None
    } else {
        Some(events[events.len() - 1])
    }
}

/// Linear damping mode of a car: damped while a tire touches the ground,
/// free while airborne.
#[derive(Clone, Copy, Debug, PartialEq, Eq, Structural)]
pub enum Damping {
    Grounded,
    Airborne,
}

/// A tire that touches the ground: its position among the tires, and the
/// position among its shape hits of the hit whose distance drives the spring.
#[derive(Clone, Copy, Debug, PartialEq, Eq, Structural)]
pub struct TireContact {
    pub tire: usize,
    pub hit: usize,
}

/// The forces to apply to one car in a physics step.
pub struct MultiForcePlan {
    pub contacts: Vec<TireContact>,
    pub acceleration: Option<AccelerationEvent>,
    pub damping: Damping,
}

/// The contacts among the first `n` tires, given the number of shape hits of
/// each tire: every tire with a hit, in order, using its last hit.
pub open spec fn contacts_upto(hit_counts: Seq<usize>, n: nat) -> Seq<TireContact>
    decreases n,
{
    if n == 0 {
        Seq::empty()
    } else {
        let before = contacts_upto(hit_counts, (n - 1) as nat);
        let count = hit_counts[n - 1];
        if count > 0 {
            before.push(TireContact { tire: (n - 1) as usize, hit: (count - 1) as usize })
        } else {
            before
        }
    }
}

/// The contacts of all tires.
pub open spec fn tire_contacts(hit_counts: Seq<usize>) -> Seq<TireContact> {
    contacts_upto(hit_counts, hit_counts.len())
}

/// The damping for a number of tires on the ground.
pub open spec fn damping_for(tires_on_ground: nat) -> Damping {
    if tires_on_ground > 0 {
        Damping::Grounded
    } else {
        Damping::Airborne
    }
}

/// Plans the forces on one car, given the number of shape hits of each of
/// its tires (in the order they are visited) and the acceleration events read
/// this step: which tires push (a tire without hits is skipped), which
/// acceleration drives them, and the car's damping.
pub fn apply_multi_force(hit_counts: &Vec<usize>, accelerations: &Vec<AccelerationEvent>) -> (plan: MultiForcePlan)
    ensures
        plan.contacts@ == tire_contacts(hit_counts@),
        plan.acceleration == last_acceleration(accelerations@),
        plan.damping == damping_for(plan.contacts@.len()),
{
    let mut contacts: Vec<TireContact> = Vec::new();
    let mut tires_on_ground: usize = 0;
    let mut i: usize = 0;
    while i < hit_counts.len()
        invariant
            i <= hit_counts.len(),
            contacts@ == contacts_upto(hit_counts@, i as nat),
            tires_on_ground == contacts@.len(),
            contacts@.len() <= i,
        decreases hit_counts.len() - i,
    {
        let count = hit_counts[i];
        if count > 0 {
            contacts.push(TireContact { tire: i, hit: count - 1 });
            tires_on_ground = tires_on_ground + 1;
        }
        i = i + 1;
    }
    let acceleration = effective_acceleration(accelerations);
    let damping = if tires_on_ground > 0 {
        Damping::Grounded
    } else {
        Damping::Airborne
    };
    MultiForcePlan { contacts, acceleration, damping }
}


/// Facts about the contacts among the first `n` tires.
proof fn lemma_contacts_upto(hit_counts: Seq<usize>, n: nat)
    requires
        n <= hit_counts.len(),
        hit_counts.len() <= usize::MAX,
    ensures
        contacts_upto(hit_counts, n).len() <= n,
        forall|j: int| 0 <= j < contacts_upto(hit_counts, n).len() ==> {
            let c = #[trigger] contacts_upto(hit_counts, n)[j];
            &&& c.tire < n
            &&& hit_counts[c.tire as int] > 0
            &&& c.hit == hit_counts[c.tire as int] - 1
        },
        forall|j: int, k: int| 0 <= j < k < contacts_upto(hit_counts, n).len()
            ==> #[trigger] contacts_upto(hit_counts, n)[j].tire < #[trigger] contacts_upto(hit_counts, n)[k].tire,
        forall|i: int| 0 <= i < n && #[trigger] hit_counts[i] > 0
            ==> exists|j: int| 0 <= j < contacts_upto(hit_counts, n).len()
                && #[trigger] contacts_upto(hit_counts, n)[j].tire == i,
    decreases n,
{
    if n > 0 {
        lemma_contacts_upto(hit_counts, (n - 1) as nat);
        let before = contacts_upto(hit_counts, (n - 1) as nat);
        let now = contacts_upto(hit_counts, n);
        assert forall|i: int| 0 <= i < n && #[trigger] hit_counts[i] > 0
            implies exists|j: int| 0 <= j < now.len() && #[trigger] now[j].tire == i by {
            if i < n - 1 {
                let j = choose|j: int| 0 <= j < before.len() && #[trigger] before[j].tire == i;
                assert(now[j] == before[j]);
            } else {
                assert(now[now.len() - 1].tire == i);
            }
        }
    }
}

/// Ground contact: the planned contacts are exactly the tires that have at
/// least one shape hit, each once, in the order the tires are visited, each
/// using its last hit; the car is damped exactly when some tire has a hit.
pub proof fn law_contacts_are_the_tires_with_hits(hit_counts: Seq<usize>)
    requires
        hit_counts.len() <= usize::MAX,
    ensures
        ({
            let contacts = tire_contacts(hit_counts);
            &&& forall|j: int| 0 <= j < contacts.len() ==> {
                let c = #[trigger] contacts[j];
                &&& c.tire < hit_counts.len()
                &&& hit_counts[c.tire as int] > 0
                &&& c.hit == hit_counts[c.tire as int] - 1
            }
            &&& forall|j: int, k: int| 0 <= j < k < contacts.len()
                ==> #[trigger] contacts[j].tire < #[trigger] contacts[k].tire
            &&& forall|i: int| 0 <= i < hit_counts.len() && #[trigger] hit_counts[i] > 0
                ==> exists|j: int| 0 <= j < contacts.len() && #[trigger] contacts[j].tire == i
            &&& (damping_for(contacts.len()) == Damping::Grounded
                <==> exists|i: int| 0 <= i < hit_counts.len() && #[trigger] hit_counts[i] > 0)
        }),
{
    lemma_contacts_upto(hit_counts, hit_counts.len());
    let contacts = tire_contacts(hit_counts);
    if contacts.len() > 0 {
        let c = contacts[0];
        assert(hit_counts[c.tire as int] > 0);
    }
}

/// The acceleration applied in a step is the last event read: none without
/// events, and appending an event makes it the one applied.
pub proof fn law_last_acceleration_wins(events: Seq<AccelerationEvent>, next: AccelerationEvent)
    ensures
        last_acceleration(Seq::<AccelerationEvent>::empty()) is None,
        last_acceleration(events.push(next)) == Some(next),
{
}


/// Steering agrees with the driving controls: fed the movement events that
/// the controls wrote from the same keys, the tires return to centre exactly
/// when no steering event was written, and they turn right for D and then
/// left for A.
pub proof fn law_recenter_iff_no_steering_event(keys: KeyboardView)
    ensures
        !is_steering(keys) <==> drive_movements(keys).len() == 0,
        drive_movements(keys).map_values(|m: MovementAction| steer_direction(m))
            == (if keys.pressed.contains(GameKey::KeyD) { seq![SteeringDir::Right] } else { Seq::empty() })
            + (if keys.pressed.contains(GameKey::KeyA) { seq![SteeringDir::Left] } else { Seq::empty() }),
{
    assert(drive_movements(keys).map_values(|m: MovementAction| steer_direction(m))
        =~= (if keys.pressed.contains(GameKey::KeyD) { seq![SteeringDir::Right] } else { Seq::empty() })
            + (if keys.pressed.contains(GameKey::KeyA) { seq![SteeringDir::Left] } else { Seq::empty() }));
}

/// The forward and reverse keys drive the car both ways at once: a forward
/// acceleration event is written exactly when the velocity is nudged up along
/// X, and a reverse one exactly when it is nudged down along X.
pub proof fn law_thrust_matches_velocity_nudge(keys: KeyboardView)
    ensures
        drive_accelerations(keys).contains(AccelerationEvent(FORWARD_THRUST))
            <==> velocity_nudges(keys).contains(VelocityNudge { axis: Axis::X, nudge: Nudge::Increase }),
        drive_accelerations(keys).contains(AccelerationEvent(REVERSE_THRUST))
            <==> velocity_nudges(keys).contains(VelocityNudge { axis: Axis::X, nudge: Nudge::Decrease }),
{
    let acc = drive_accelerations(keys);
    let nud = velocity_nudges(keys);
    let up = VelocityNudge { axis: Axis::X, nudge: Nudge::Increase };
    let down = VelocityNudge { axis: Axis::X, nudge: Nudge::Decrease };
    if keys.pressed.contains(GameKey::KeyW) {
        assert(acc[0] == AccelerationEvent(FORWARD_THRUST));
        assert(nud[0] == up);
    }
    if keys.pressed.contains(GameKey::KeyS) {
        assert(acc[acc.len() - 1] == AccelerationEvent(REVERSE_THRUST));
    }
    if acc.contains(AccelerationEvent(FORWARD_THRUST)) {
        let i = choose|i: int| 0 <= i < acc.len() && acc[i] == AccelerationEvent(FORWARD_THRUST);
        assert(keys.pressed.contains(GameKey::KeyW));
    }
    if acc.contains(AccelerationEvent(REVERSE_THRUST)) {
        let i = choose|i: int| 0 <= i < acc.len() && acc[i] == AccelerationEvent(REVERSE_THRUST);
        assert(keys.pressed.contains(GameKey::KeyS));
    }
    if nud.contains(up) {
        let i = choose|i: int| 0 <= i < nud.len() && nud[i] == up;
        assert(keys.pressed.contains(GameKey::KeyW));
    }
    if nud.contains(down) {
        let i = choose|i: int| 0 <= i < nud.len() && nud[i] == down;
        assert(keys.pressed.contains(GameKey::KeyS));
    }
    if keys.pressed.contains(GameKey::KeyS) {
        let w = keys.pressed.contains(GameKey::KeyW);
        let a = keys.pressed.contains(GameKey::KeyA);
        let k: int = (if w { 1int } else { 0int }) + (if a { 1int } else { 0int });
        assert(nud[k] == down);
    }
}


/// Acceleration events: one per throttle key held and nothing else. Their
/// number is (W held) + (S held); each is a forward or a reverse thrust; a
/// forward thrust is written exactly when W is held, a reverse one exactly
/// when S is held, and the forward one comes first.
pub proof fn law_drive_accelerations(keys: KeyboardView)
    ensures
        drive_accelerations(keys).len() == indicator(keys.pressed.contains(GameKey::KeyW))
            + indicator(keys.pressed.contains(GameKey::KeyS)),
        forall|i: int| 0 <= i < drive_accelerations(keys).len() ==>
            #[trigger] drive_accelerations(keys)[i] == AccelerationEvent(FORWARD_THRUST)
            || drive_accelerations(keys)[i] == AccelerationEvent(REVERSE_THRUST),
        drive_accelerations(keys).contains(AccelerationEvent(FORWARD_THRUST))
            <==> keys.pressed.contains(GameKey::KeyW),
        drive_accelerations(keys).contains(AccelerationEvent(REVERSE_THRUST))
            <==> keys.pressed.contains(GameKey::KeyS),
        keys.pressed.contains(GameKey::KeyW) ==> drive_accelerations(keys)[0] == AccelerationEvent(FORWARD_THRUST),
        keys.pressed.contains(GameKey::KeyS)
            ==> drive_accelerations(keys).last() == AccelerationEvent(REVERSE_THRUST),
{
    let acc = drive_accelerations(keys);
    let fwd = AccelerationEvent(FORWARD_THRUST);
    let rev = AccelerationEvent(REVERSE_THRUST);
    if keys.pressed.contains(GameKey::KeyW) {
        assert(acc[0] == fwd);
    }
    if keys.pressed.contains(GameKey::KeyS) {
        assert(acc[acc.len() - 1] == rev);
    }
    if acc.contains(fwd) {
        let i = choose|i: int| 0 <= i < acc.len() && acc[i] == fwd;
        assert(keys.pressed.contains(GameKey::KeyW));
    }
    if acc.contains(rev) {
        let i = choose|i: int| 0 <= i < acc.len() && acc[i] == rev;
        assert(keys.pressed.contains(GameKey::KeyS));
    }
}

/// The steering keys never change the acceleration events: two keyboards
/// that agree on W and S give the same acceleration events.
pub proof fn law_accelerations_ignore_steering(a: KeyboardView, b: KeyboardView)
    requires
        a.pressed.contains(GameKey::KeyW) == b.pressed.contains(GameKey::KeyW),
        a.pressed.contains(GameKey::KeyS) == b.pressed.contains(GameKey::KeyS),
    ensures
        drive_accelerations(a) == drive_accelerations(b),
{
}

/// Movement events: one per steering key held and nothing else. Their number
/// is (D held) + (A held); a right turn is written exactly when D is held, a
/// left turn exactly when A is held, and the right turn comes first.
pub proof fn law_drive_movements(keys: KeyboardView)
    ensures
        drive_movements(keys).len() == indicator(keys.pressed.contains(GameKey::KeyD))
            + indicator(keys.pressed.contains(GameKey::KeyA)),
        drive_movements(keys).contains(MovementAction::Steer(SteeringDir::Right))
            <==> keys.pressed.contains(GameKey::KeyD),
        drive_movements(keys).contains(MovementAction::Steer(SteeringDir::Left))
            <==> keys.pressed.contains(GameKey::KeyA),
        keys.pressed.contains(GameKey::KeyD)
            ==> drive_movements(keys)[0] == MovementAction::Steer(SteeringDir::Right),
        keys.pressed.contains(GameKey::KeyA)
            ==> drive_movements(keys).last() == MovementAction::Steer(SteeringDir::Left),
{
    let mov = drive_movements(keys);
    let right = MovementAction::Steer(SteeringDir::Right);
    let left = MovementAction::Steer(SteeringDir::Left);
    if keys.pressed.contains(GameKey::KeyD) {
        assert(mov[0] == right);
    }
    if keys.pressed.contains(GameKey::KeyA) {
        assert(mov[mov.len() - 1] == left);
    }
    if mov.contains(right) {
        let i = choose|i: int| 0 <= i < mov.len() && mov[i] == right;
        assert(keys.pressed.contains(GameKey::KeyD));
    }
    if mov.contains(left) {
        let i = choose|i: int| 0 <= i < mov.len() && mov[i] == left;
        assert(keys.pressed.contains(GameKey::KeyA));
    }
}

/// The throttle keys never change the movement events: two keyboards that
/// agree on A and D give the same movement events.
pub proof fn law_movements_ignore_throttle(a: KeyboardView, b: KeyboardView)
    requires
        a.pressed.contains(GameKey::KeyA) == b.pressed.contains(GameKey::KeyA),
        a.pressed.contains(GameKey::KeyD) == b.pressed.contains(GameKey::KeyD),
    ensures
        drive_movements(a) == drive_movements(b),
{
}

} // verus!
