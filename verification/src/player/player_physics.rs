//! Physics-side decisions for the player: movement and jumping, contact
//! tracking through overlap events, sensor shapes, gravity and death.

use vstd::prelude::*;

use crate::common::Attacks;
use crate::common::Climber;
use crate::common::Health;
use crate::common::MovementDirection;
use crate::common::OnMove;
use crate::common::Speed;

verus! {

/// Marks the playable character.
#[derive(Debug, Clone, Copy, Default)]
pub struct Player;

/// Derived contact state: whether the ground sensor overlaps anything.
#[derive(Debug, Clone, Copy, Eq, PartialEq, Structural)]
pub struct GroundDetection {
    pub on_ground: bool,
}

/// Derived contact state: whether the side sensor overlaps a wall.
#[derive(Debug, Clone, Copy, Eq, PartialEq, Structural)]
pub struct SideDetector {
    pub on_side: bool,
}

/// An overlap notification from the physics engine: the two shapes named
/// started or stopped overlapping.
#[derive(Debug, Clone, Copy, Eq, PartialEq, Structural)]
pub enum OverlapEvent {
    Started(u64, u64),
    Stopped(u64, u64),
}

/// No two elements of the sequence are equal: the vector faithfully
/// models a set.
pub open spec fn nodup(s: Seq<u64>) -> bool {
    forall|i: int, j: int| 0 <= i < j < s.len() ==> s[i] != s[j]
}

/// Whether the vector holds `x`.
fn set_vec_contains(v: &Vec<u64>, x: u64) -> (r: bool)
    ensures
        r == v@.to_set().contains(x),
{
    let mut i: usize = 0;
    while i < v.len()
        invariant
            i <= v@.len(),
            forall|k: int| 0 <= k < i ==> v@[k] != x,
        decreases v@.len() - i,
    {
        if v[i] == x {
            return true;
        }
        i += 1;
    }
    false
}

/// Adds `x` unless it is already present.
fn set_vec_insert(v: &mut Vec<u64>, x: u64)
    requires
        nodup(old(v)@),
    ensures
        nodup(final(v)@),
        final(v)@.to_set() == old(v)@.to_set().insert(x),
{
    if !set_vec_contains(v, x) {
        v.push(x);
        proof {
            let before = old(v)@;
            assert forall|y: u64| v@.to_set().contains(y) implies before.to_set().insert(
                x,
            ).contains(y) by {
                let k = choose|k: int| 0 <= k < v@.len() && v@[k] == y;
                if k < before.len() {
                    assert(before[k] == y);
                } else {
                    assert(y == x);
                }
            }
            assert forall|y: u64| before.to_set().insert(x).contains(y) implies v@.to_set().contains(
                y,
            ) by {
                if y == x {
                    assert(v@[before.len() as int] == y);
                } else {
                    let k = choose|k: int| 0 <= k < before.len() && before[k] == y;
                    assert(v@[k] == y);
                }
            }
            assert(v@.to_set() =~= old(v)@.to_set().insert(x));
        }
    } else {
        proof {
            assert(v@.to_set() =~= old(v)@.to_set().insert(x));
        }
    }
}

/// Removes `x` if it is present.
fn set_vec_remove(v: &mut Vec<u64>, x: u64)
    requires
        nodup(old(v)@),
    ensures
        nodup(final(v)@),
        final(v)@.to_set() == old(v)@.to_set().remove(x),
{
    let mut i: usize = 0;
    while i < v.len()
        invariant
            i <= v@.len(),
            v@ == old(v)@,
            nodup(v@),
            forall|k: int| 0 <= k < i ==> v@[k] != x,
        decreases v@.len() - i,
    {
        if v[i] == x {
            let ghost before = v@;
            let ghost iq = i as int;
            v.remove(i);
            proof {
                before.remove_ensures(iq);
                assert(nodup(v@)) by {
                    assert forall|p: int, q: int| 0 <= p < q < v@.len() implies v@[p] != v@[q] by {
                        if q < iq {
                            assert(v@[p] == before[p] && v@[q] == before[q]);
                        } else if p < iq {
                            assert(v@[p] == before[p] && v@[q] == before[q + 1]);
                        } else {
                            assert(v@[p] == before[p + 1] && v@[q] == before[q + 1]);
                        }
                    }
                }
                assert forall|y: u64| v@.to_set().contains(y) implies before.to_set().remove(
                    x,
                ).contains(y) by {
                    let k = choose|k: int| 0 <= k < v@.len() && v@[k] == y;
                    if k < iq {
                        assert(before[k] == y);
                        assert(y != x);
                    } else {
                        assert(before[k + 1] == y);
                        assert(before[k + 1] != before[iq]);
                        assert(y != x);
                    }
                }
                assert forall|y: u64| before.to_set().remove(x).contains(y) implies v@.to_set().contains(
                    y,
                ) by {
                    let k = choose|k: int| 0 <= k < before.len() && before[k] == y;
                    assert(k != iq);
                    if k < iq {
                        assert(v@[k] == y);
                    } else {
                        assert(v@[k - 1] == y);
                    }
                }
                assert(v@.to_set() =~= before.to_set().remove(x));
            }
            return;
        }
        i += 1;
    }
    proof {
        assert(v@.to_set() =~= old(v)@.to_set().remove(x));
    }
}

/// One overlap event folded into a sensor's contact set: when exactly one
/// side of the pair is the sensor's own shape, the foreign side is added
/// on `Started` and removed on `Stopped`; any other pair is ignored.
pub open spec fn spec_apply_overlap(s: Set<u64>, own: u64, ev: OverlapEvent) -> Set<u64> {
    match ev {
        OverlapEvent::Started(a, b) => if b == own && a != own {
            s.insert(a)
        } else if a == own && b != own {
            s.insert(b)
        } else {
            s
        },
        OverlapEvent::Stopped(a, b) => if b == own && a != own {
            s.remove(a)
        } else if a == own && b != own {
            s.remove(b)
        } else {
            s
        },
    }
}

/// A whole tick's event queue folded into a contact set, in emission
/// order.
pub open spec fn spec_drain_overlaps(s: Set<u64>, own: u64, evs: Seq<OverlapEvent>) -> Set<u64>
    decreases evs.len(),
{
    if evs.len() == 0 {
        s
    } else {
        spec_drain_overlaps(spec_apply_overlap(s, own, evs[0]), own, evs.skip(1))
    }
}

/// The contact sensor hanging under the player that detects the ground.
#[derive(Debug, Clone)]
pub struct GroundSensor {
    /// The sensor's own shape id, as the physics engine reports it.
    pub entity: u64,

    /// The entity whose [`GroundDetection`] this sensor feeds.
    pub detection_entity: u64,

    /// The foreign bodies currently overlapping the sensor.  Kept
    /// duplicate free so that it models a set.
    pub intersecting_entities: Vec<u64>,
}

/// The contact sensor around the player's sides that detects walls.
#[derive(Debug, Clone)]
pub struct SideSensor {
    /// The sensor's own shape id, as the physics engine reports it.
    pub entity: u64,

    /// The entity whose [`SideDetector`] this sensor feeds.
    pub detection_entity: u64,

    /// The wall bodies currently overlapping the sensor.  Kept duplicate
    /// free so that it models a set.
    pub intersecting_entities: Vec<u64>,
}

impl GroundSensor {
    /// The overlap set this sensor currently holds.
    pub open spec fn contacts(self) -> Set<u64> {
        self.intersecting_entities@.to_set()
    }

    pub open spec fn wf(self) -> bool {
        nodup(self.intersecting_entities@)
    }

    /// A fresh sensor with no contacts.
    pub fn new(entity: u64, detection_entity: u64) -> (r: GroundSensor)
        ensures
            r.wf(),
            r.entity == entity,
            r.detection_entity == detection_entity,
            r.contacts() == Set::<u64>::empty(),
    {
        let r = GroundSensor { entity, detection_entity, intersecting_entities: Vec::new() };
        proof {
            assert(r.contacts() =~= Set::<u64>::empty());
        }
        r
    }

    /// Folds one overlap notification into the contact set.
    pub fn apply_overlap(&mut self, ev: &OverlapEvent)
        requires
            old(self).wf(),
        ensures
            final(self).wf(),
            final(self).entity == old(self).entity,
            final(self).detection_entity == old(self).detection_entity,
            final(self).contacts() == spec_apply_overlap(old(self).contacts(), old(self).entity, *ev),
    {
        match *ev {
            OverlapEvent::Started(a, b) => {
                if b == self.entity && a != self.entity {
                    set_vec_insert(&mut self.intersecting_entities, a);
                } else if a == self.entity && b != self.entity {
                    set_vec_insert(&mut self.intersecting_entities, b);
                }
            },
            OverlapEvent::Stopped(a, b) => {
                if b == self.entity && a != self.entity {
                    set_vec_remove(&mut self.intersecting_entities, a);
                } else if a == self.entity && b != self.entity {
                    set_vec_remove(&mut self.intersecting_entities, b);
                }
            },
        }
    }

    /// Drains a tick's event queue into the contact set, in order.
    pub fn drain_overlaps(&mut self, events: &Vec<OverlapEvent>)
        requires
            old(self).wf(),
        ensures
            final(self).wf(),
            final(self).entity == old(self).entity,
            final(self).detection_entity == old(self).detection_entity,
            final(self).contacts() == spec_drain_overlaps(old(self).contacts(), old(self).entity, events@),
    {
        proof {
            assert(events@.skip(0) =~= events@);
        }
        let mut i: usize = 0;
        while i < events.len()
            invariant
                i <= events@.len(),
                self.wf(),
                self.entity == old(self).entity,
                self.detection_entity == old(self).detection_entity,
                spec_drain_overlaps(old(self).contacts(), old(self).entity, events@)
                    == spec_drain_overlaps(self.contacts(), self.entity, events@.skip(i as int)),
            decreases events@.len() - i,
        {
            proof {
                assert(events@.skip(i as int)[0] == events@[i as int]);
                assert(events@.skip(i as int).skip(1) =~= events@.skip(i as int + 1));
            }
            self.apply_overlap(&events[i]);
            i += 1;
        }
        proof {
            assert(events@.skip(events@.len() as int).len() == 0);
        }
    }

    /// Whether any foreign body currently overlaps the sensor.
    pub fn is_intersecting(&self) -> (r: bool)
        ensures
            r == !self.contacts().is_empty(),
    {
        let r = self.intersecting_entities.len() > 0;
        proof {
            if self.intersecting_entities@.len() > 0 {
                assert(self.contacts().contains(self.intersecting_entities@[0]));
            } else {
                assert(self.contacts() =~= Set::<u64>::empty());
            }
        }
        r
    }
}

impl SideSensor {
    /// The overlap set this sensor currently holds.
    pub open spec fn contacts(self) -> Set<u64> {
        self.intersecting_entities@.to_set()
    }

    pub open spec fn wf(self) -> bool {
        nodup(self.intersecting_entities@)
    }

    /// A fresh sensor with no contacts.
    pub fn new(entity: u64, detection_entity: u64) -> (r: SideSensor)
        ensures
            r.wf(),
            r.entity == entity,
            r.detection_entity == detection_entity,
            r.contacts() == Set::<u64>::empty(),
    {
        let r = SideSensor { entity, detection_entity, intersecting_entities: Vec::new() };
        proof {
            assert(r.contacts() =~= Set::<u64>::empty());
        }
        r
    }

    /// Folds one overlap notification into the contact set.  The caller
    /// hands over only the events whose foreign body is a wall collider.
    pub fn apply_overlap(&mut self, ev: &OverlapEvent)
        requires
            old(self).wf(),
        ensures
            final(self).wf(),
            final(self).entity == old(self).entity,
            final(self).detection_entity == old(self).detection_entity,
            final(self).contacts() == spec_apply_overlap(old(self).contacts(), old(self).entity, *ev),
    {
        match *ev {
            OverlapEvent::Started(a, b) => {
                if b == self.entity && a != self.entity {
                    set_vec_insert(&mut self.intersecting_entities, a);
                } else if a == self.entity && b != self.entity {
                    set_vec_insert(&mut self.intersecting_entities, b);
                }
            },
            OverlapEvent::Stopped(a, b) => {
                if b == self.entity && a != self.entity {
                    set_vec_remove(&mut self.intersecting_entities, a);
                } else if a == self.entity && b != self.entity {
                    set_vec_remove(&mut self.intersecting_entities, b);
                }
            },
        }
    }

    /// Drains a tick's event queue into the contact set, in order.
    pub fn drain_overlaps(&mut self, events: &Vec<OverlapEvent>)
        requires
            old(self).wf(),
        ensures
            final(self).wf(),
            final(self).entity == old(self).entity,
            final(self).detection_entity == old(self).detection_entity,
            final(self).contacts() == spec_drain_overlaps(old(self).contacts(), old(self).entity, events@),
    {
        proof {
            assert(events@.skip(0) =~= events@);
        }
        let mut i: usize = 0;
        while i < events.len()
            invariant
                i <= events@.len(),
                self.wf(),
                self.entity == old(self).entity,
                self.detection_entity == old(self).detection_entity,
                spec_drain_overlaps(old(self).contacts(), old(self).entity, events@)
                    == spec_drain_overlaps(self.contacts(), self.entity, events@.skip(i as int)),
            decreases events@.len() - i,
        {
            proof {
                assert(events@.skip(i as int)[0] == events@[i as int]);
                assert(events@.skip(i as int).skip(1) =~= events@.skip(i as int + 1));
            }
            self.apply_overlap(&events[i]);
            i += 1;
        }
        proof {
            assert(events@.skip(events@.len() as int).len() == 0);
        }
    }

    /// Whether any wall currently overlaps the sensor.
    pub fn is_intersecting(&self) -> (r: bool)
        ensures
            r == !self.contacts().is_empty(),
    {
        let r = self.intersecting_entities.len() > 0;
        proof {
            if self.intersecting_entities@.len() > 0 {
                assert(self.contacts().contains(self.intersecting_entities@[0]));
            } else {
                assert(self.contacts() =~= Set::<u64>::empty());
            }
        }
        r
    }
}

/// One tick of ground detection for one sensor: drain the event queue
/// into the contact set, then recompute the derived boolean.  The boolean
/// afterwards says exactly whether the contact set is non-empty, however
/// many contacts began or ended this tick.
pub fn ground_detection(
    sensor: &mut GroundSensor,
    detection: &mut GroundDetection,
    events: &Vec<OverlapEvent>,
) -> (changed: bool)
    requires
        old(sensor).wf(),
    ensures
        final(sensor).wf(),
        final(sensor).entity == old(sensor).entity,
        final(sensor).detection_entity == old(sensor).detection_entity,
        final(sensor).contacts() == spec_drain_overlaps(
            old(sensor).contacts(),
            old(sensor).entity,
            events@,
        ),
        final(detection).on_ground == !final(sensor).contacts().is_empty(),
        changed == (final(detection).on_ground != old(detection).on_ground),
{
    sensor.drain_overlaps(events);
    let next = sensor.is_intersecting();
    if detection.on_ground != next {
        detection.on_ground = next;
        true
    } else {
        false
    }
}

/// One tick of wall detection for one side sensor, with the same shape as
/// [`ground_detection`].
pub fn wall_detection(
    sensor: &mut SideSensor,
    detector: &mut SideDetector,
    events: &Vec<OverlapEvent>,
) -> (changed: bool)
    requires
        old(sensor).wf(),
    ensures
        final(sensor).wf(),
        final(sensor).entity == old(sensor).entity,
        final(sensor).detection_entity == old(sensor).detection_entity,
        final(sensor).contacts() == spec_drain_overlaps(
            old(sensor).contacts(),
            old(sensor).entity,
            events@,
        ),
        final(detector).on_side == !final(sensor).contacts().is_empty(),
        changed == (final(detector).on_side != old(detector).on_side),
{
    sensor.drain_overlaps(events);
    let next = sensor.is_intersecting();
    if detector.on_side != next {
        detector.on_side = next;
        true
    } else {
        false
    }
}

/// Records one climbable overlap for a climber: the element joins the
/// overlap set when the overlap starts and leaves it when it stops.  The
/// caller resolves which side of the notification is the climber and
/// checks that the other side is climbable.
pub fn detect_climb_event(climber: &mut Climber, started: bool, element: u64)
    requires
        old(climber).wf(),
    ensures
        final(climber).wf(),
        final(climber).climbing == old(climber).climbing,
        final(climber).elements() == if started {
            old(climber).elements().insert(element)
        } else {
            old(climber).elements().remove(element)
        },
{
    if started {
        set_vec_insert(&mut climber.intersaction_elements, element);
    } else {
        set_vec_remove(&mut climber.intersaction_elements, element);
    }
}

/// Contact boolean correctness: starting from an empty contact set, a
/// started overlap with a foreign body raises the derived boolean, the
/// matching stopped overlap lowers it again, and with two concurrent
/// contacts the boolean stays raised when only one of them ends.
pub proof fn lemma_contact_boolean(own: u64, a: u64, b: u64)
    requires
        a != own,
        b != own,
        a != b,
    ensures
        !spec_apply_overlap(Set::<u64>::empty(), own, OverlapEvent::Started(own, a)).is_empty(),
        spec_apply_overlap(
            spec_apply_overlap(Set::<u64>::empty(), own, OverlapEvent::Started(own, a)),
            own,
            OverlapEvent::Stopped(own, a),
        ).is_empty(),
        !spec_apply_overlap(
            spec_apply_overlap(
                spec_apply_overlap(Set::<u64>::empty(), own, OverlapEvent::Started(own, a)),
                own,
                OverlapEvent::Started(own, b),
            ),
            own,
            OverlapEvent::Stopped(own, a),
        ).is_empty(),
{
    let s1 = spec_apply_overlap(Set::<u64>::empty(), own, OverlapEvent::Started(own, a));
    assert(s1.contains(a));
    assert(spec_apply_overlap(s1, own, OverlapEvent::Stopped(own, a)) =~= Set::<u64>::empty());
    let s2 = spec_apply_overlap(s1, own, OverlapEvent::Started(own, b));
    let s3 = spec_apply_overlap(s2, own, OverlapEvent::Stopped(own, a));
    assert(s3.contains(b));
}

/// The keys the movement system reads in one tick.
#[derive(Debug, Clone, Copy, Eq, PartialEq, Structural)]
pub struct MovementInput {
    /// The move-left key is held.
    pub left: bool,
    /// The move-right key is held.
    pub right: bool,
    /// The up key was pressed this tick.
    pub up_pressed: bool,
    /// The down key was pressed this tick.
    pub down_pressed: bool,
    /// The up key is held.
    pub up: bool,
    /// The down key is held.
    pub down: bool,
}

/// What the movement system decided this tick.
#[derive(Debug, Clone, Copy, Eq, PartialEq, Structural)]
pub struct MovementOutcome {
    /// The new horizontal velocity.
    pub velocity_x: i64,
    /// The new vertical velocity, set only while climbing.
    pub velocity_y: Option<i64>,
    /// Whether the player moves horizontally.
    pub on_move: bool,
    /// Whether the stored movement flag must be rewritten.  Left alone
    /// when unchanged, so downstream change notifications stay quiet.
    pub on_move_changed: bool,
    /// The new facing.
    pub direction: MovementDirection,
    /// Whether the player is climbing after this tick.
    pub climbing: bool,
}

/// One tick of the movement system: horizontal velocity directly from the
/// held keys and the speed, the facing from the sign of the velocity, and
/// the climbing flag from the overlapped climbables and the up and down
/// keys.  While climbing, the vertical velocity follows the held keys.
pub fn player_movement(
    speed: &Speed,
    on_move: &OnMove,
    climber: &Climber,
    direction: &MovementDirection,
    input: &MovementInput,
) -> (r: MovementOutcome)
    requires
        speed.0 > i64::MIN,
    ensures
        r.velocity_x as int == if input.left {
            -(speed.0 as int)
        } else if input.right {
            speed.0 as int
        } else {
            0
        },
        r.on_move == (r.velocity_x != 0),
        r.on_move_changed == (r.on_move != on_move.0),
        r.direction == if r.velocity_x > 0 {
            MovementDirection::Right
        } else if r.velocity_x < 0 {
            MovementDirection::Left
        } else {
            *direction
        },
        r.climbing == if climber.elements().is_empty() {
            false
        } else if input.up_pressed || input.down_pressed {
            true
        } else {
            climber.climbing
        },
        r.climbing ==> (r.velocity_y matches Some(vy) && vy as int == (if input.up {
            speed.0 as int
        } else if input.down {
            -(speed.0 as int)
        } else {
            0
        })),
        !r.climbing ==> r.velocity_y is None,
{
    let velocity_x: i64 = if input.left {
        -speed.0
    } else if input.right {
        speed.0
    } else {
        0
    };
    let new_on_move = velocity_x != 0;
    let new_direction = if velocity_x > 0 {
        MovementDirection::Right
    } else if velocity_x < 0 {
        MovementDirection::Left
    } else {
        *direction
    };
    let no_elements = climber.intersaction_elements.is_empty();
    proof {
        if climber.intersaction_elements@.len() > 0 {
            assert(climber.elements().contains(climber.intersaction_elements@[0]));
        } else {
            assert(climber.elements() =~= Set::<u64>::empty());
        }
    }
    let climbing = if no_elements {
        false
    } else if input.up_pressed || input.down_pressed {
        true
    } else {
        climber.climbing
    };
    let velocity_y = if climbing {
        Some(
            if input.up {
                speed.0
            } else if input.down {
                -speed.0
            } else {
                0
            },
        )
    } else {
        None
    };
    MovementOutcome {
        velocity_x,
        velocity_y,
        on_move: new_on_move,
        on_move_changed: new_on_move != on_move.0,
        direction: new_direction,
        climbing,
    }
}

/// The fixed upward impulse a jump applies.
pub const JUMP_IMPULSE: i64 = 65;

/// A linear velocity of a physical body.
#[derive(Debug, Clone, Copy, Eq, PartialEq, Structural)]
pub struct Velocity {
    pub x: i64,
    pub y: i64,
}

/// An impulse applied to a physical body.
#[derive(Debug, Clone, Copy, Eq, PartialEq, Structural)]
pub struct Impulse {
    pub x: i64,
    pub y: i64,
}

/// What the jump system decided this tick.
#[derive(Debug, Clone, Copy, Eq, PartialEq, Structural)]
pub struct JumpOutcome {
    /// The impulse to apply to the body, if any.
    pub impulse: Option<Impulse>,
    /// Whether the player is climbing after this tick.
    pub climbing: bool,
}

/// Pressing jump while on the ground or climbing applies a fixed upward
/// impulse and ends climbing; pressing it in the air is a no-op.
pub fn player_jump(jump_pressed: bool, on_ground: bool, climbing: bool) -> (r: JumpOutcome)
    ensures
        jump_pressed && (on_ground || climbing) ==> (r.impulse matches Some(i) && i.x == 0 && i.y
            == JUMP_IMPULSE && !r.climbing),
        !(jump_pressed && (on_ground || climbing)) ==> r.impulse is None && r.climbing == climbing,
{
    if jump_pressed && (on_ground || climbing) {
        JumpOutcome { impulse: Some(Impulse { x: 0, y: JUMP_IMPULSE }), climbing: false }
    } else {
        JumpOutcome { impulse: None, climbing }
    }
}

/// The gravity multiplier for the player: zero while climbing, the
/// default otherwise.
pub fn gravity_scale(climbing: bool) -> (r: i64)
    ensures
        r == if climbing {
            0i64
        } else {
            3i64
        },
{
    if climbing {
        0
    } else {
        3
    }
}

/// Whether the death trigger fires this tick: the health changed and
/// reached zero or below.
pub fn dead(previous_current: i32, health: &Health) -> (r: bool)
    ensures
        r == (previous_current != health.current && health.current <= 0),
{
    previous_current != health.current && health.current <= 0
}

/// A collision shape, as the physics engine describes it at the sensor
/// spawning boundary.
#[derive(Debug, Clone, Copy, Eq, PartialEq, Structural)]
pub enum ColliderShape {
    /// An axis-aligned rectangle, by its half extents.
    Rectangle { half_width: i32, half_height: i32 },
    /// Any other shape.
    Other,
}

/// A sensor or collider was requested against a non-rectangular shape.
#[derive(Debug, Clone, Copy, Eq, PartialEq, Structural)]
pub struct ShapeMismatch;

/// An axis-aligned sensor rectangle, with its offset from the owner.
#[derive(Debug, Clone, Copy, Eq, PartialEq, Structural)]
pub struct SensorRect {
    pub half_width: i64,
    pub half_height: i64,
    pub offset_x: i64,
    pub offset_y: i64,
}

/// The thin ground sensor hanging just below the owner's collision box.
/// A non-rectangular owner shape is rejected with [`ShapeMismatch`]
/// instead of silently computing wrong dimensions.
pub fn ground_sensor_shape(shape: &ColliderShape) -> (r: Result<SensorRect, ShapeMismatch>)
    ensures
        shape matches ColliderShape::Rectangle { half_width, half_height } ==> r matches Ok(s)
            && s.half_width == half_width - 2 && s.half_height == 2 && s.offset_x == 0
            && s.offset_y == -half_height,
        shape is Other ==> r is Err,
{
    match *shape {
        ColliderShape::Rectangle { half_width, half_height } => Ok(
            SensorRect {
                half_width: half_width as i64 - 2,
                half_height: 2,
                offset_x: 0,
                offset_y: -(half_height as i64),
            },
        ),
        ColliderShape::Other => Err(ShapeMismatch),
    }
}

/// The wide, short side sensor around the owner's sides, catching wall
/// contact without triggering on floor or ceiling.  A non-rectangular
/// owner shape is rejected with [`ShapeMismatch`].
pub fn side_sensor_shape(shape: &ColliderShape) -> (r: Result<SensorRect, ShapeMismatch>)
    ensures
        shape matches ColliderShape::Rectangle { half_width, half_height } ==> r matches Ok(s)
            && s.half_width == half_width + 4 && s.half_height == half_height - 3 && s.offset_x == 0
            && s.offset_y == 0,
        shape is Other ==> r is Err,
{
    match *shape {
        ColliderShape::Rectangle { half_width, half_height } => Ok(
            SensorRect {
                half_width: half_width as i64 + 4,
                half_height: half_height as i64 - 3,
                offset_x: 0,
                offset_y: 0,
            },
        ),
        ColliderShape::Other => Err(ShapeMismatch),
    }
}

/// The state a freshly spawned player starts with.
#[derive(Debug, Clone)]
pub struct PlayerInit {
    /// Starting velocity.
    pub velocity: Velocity,
    /// Starting gravity multiplier.
    pub gravity_scale: i64,
    /// Starting attack flag.
    pub attacks: Attacks,
    /// Starting facing.
    pub direction: MovementDirection,
    /// Starting movement flag.
    pub on_move: OnMove,
    /// Starting climber state.
    pub climber: Climber,
    /// Starting ground contact state.
    pub ground_detection: GroundDetection,
    /// Starting wall contact state.
    pub side_detector: SideDetector,
    /// Starting health.
    pub health: Health,
    /// Starting speed.
    pub speed: Speed,
}

/// The initial state of the playable character: at rest, facing right,
/// full health, not climbing and touching nothing.
pub fn spawn_player() -> (r: PlayerInit)
    ensures
        r.velocity.x == 0 && r.velocity.y == 0,
        r.gravity_scale == 3,
        r.attacks.0 == false,
        r.direction == MovementDirection::Right,
        r.on_move.0 == false,
        r.climber.wf(),
        r.climber.elements() == Set::<u64>::empty(),
        !r.climber.climbing,
        r.ground_detection.on_ground == false,
        r.side_detector.on_side == false,
        r.health.current == 10 && r.health.max == 10,
        r.speed.0 == 120,
{
    PlayerInit {
        velocity: Velocity { x: 0, y: 0 },
        gravity_scale: 3,
        attacks: Attacks(false),
        direction: MovementDirection::Right,
        on_move: OnMove(false),
        climber: Climber::new(),
        ground_detection: GroundDetection { on_ground: false },
        side_detector: SideDetector { on_side: false },
        health: Health { current: 10, max: 10 },
        speed: Speed(120),
    }
}

} // verus!
