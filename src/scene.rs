use vstd::prelude::*;
use crate::controls::{axis, movement_axes, MoveAxes, MoveKeys, CAMERA_SPEED, SPIN_RATE};

verus! {

/// Nanometres in one world unit.
pub const UNIT: i64 = 1_000_000_000;

/// The markers an entity carries; the update routines pick their entities
/// by these alone.
#[derive(Clone, Copy, Debug, PartialEq, Eq, Structural)]
pub struct Tags {
    pub player: bool,
    pub ground: bool,
    pub camera: bool,
    pub light: bool,
}

/// A point in world space, in nanometres.
#[derive(Clone, Copy, Debug, PartialEq, Eq, Structural)]
pub struct Point {
    pub x: i64,
    pub y: i64,
    pub z: i64,
}

/// One entity of the scene: where it was placed and how far the update
/// routines have moved it since.
#[derive(Clone, Copy, Debug, PartialEq, Eq)]
pub struct Entity {
    pub tags: Tags,
    /// Where the entity was placed at startup.
    pub origin: Point,
    /// The point it was turned toward at startup, with +y up; `None` keeps
    /// the default orientation.
    pub facing: Option<Point>,
    /// Nanoradians turned about its own vertical axis since startup.
    pub yaw: u64,
    /// Nanometres moved along its own forward axis since startup.
    pub forward_travel: i64,
    /// Nanometres moved along its own right axis since startup.
    pub right_travel: i64,
}

/// All entities of the scene, in the order they were created.
#[derive(Debug)]
pub struct Scene {
    pub entities: Vec<Entity>,
}

pub open spec fn no_tags() -> Tags {
    Tags { player: false, ground: false, camera: false, light: false }
}

pub open spec fn point(x: int, y: int, z: int) -> Point {
    Point { x: x as i64, y: y as i64, z: z as i64 }
}

/// A freshly placed entity, not yet moved.
pub open spec fn placed(tags: Tags, origin: Point, facing: Option<Point>) -> Entity {
    Entity { tags, origin, facing, yaw: 0, forward_travel: 0, right_travel: 0 }
}

/// The sun: at (4, 8, 4), turned toward the origin.
pub open spec fn sun() -> Entity {
    placed(
        Tags { light: true, ..no_tags() },
        point(4 * UNIT, 8 * UNIT, 4 * UNIT),
        Some(point(0, 0, 0)),
    )
}

/// The camera: at (0, 5, 10), turned toward the origin.
pub open spec fn camera() -> Entity {
    placed(
        Tags { camera: true, ..no_tags() },
        point(0, 5 * UNIT, 10 * UNIT),
        Some(point(0, 0, 0)),
    )
}

/// The player cube: half a unit above the ground, so that it rests on it.
pub open spec fn player() -> Entity {
    placed(Tags { player: true, ..no_tags() }, point(0, UNIT / 2, 0), None)
}

/// The ground plane, through the origin.
pub open spec fn ground() -> Entity {
    placed(Tags { ground: true, ..no_tags() }, point(0, 0, 0), None)
}

/// The entities that startup creates, in its order.
pub open spec fn startup_view() -> Seq<Entity> {
    seq![sun(), camera(), player(), ground()]
}


/// Picked by the spin update.
pub open spec fn spins(e: Entity) -> bool {
    e.tags.player
}

/// Picked by the camera update: a camera that is not the player.
pub open spec fn steers(e: Entity) -> bool {
    e.tags.camera && !e.tags.player
}

/// The angle, in nanoradians, turned in `dt` nanoseconds.
pub open spec fn turn(dt: int) -> int {
    SPIN_RATE * dt
}

/// The distance, in nanometres, covered along an axis of weight `a` in `dt`
/// nanoseconds.
pub open spec fn travel(a: int, dt: int) -> int {
    a * CAMERA_SPEED * dt
}

/// The spin update on one entity.
pub open spec fn spun(e: Entity, dt: int) -> Entity {
    if spins(e) {
        Entity { yaw: (e.yaw + turn(dt)) as u64, ..e }
    } else {
        e
    }
}

/// The spin update on a whole scene.
pub open spec fn spin_all(s: Seq<Entity>, dt: int) -> Seq<Entity> {
    Seq::new(s.len(), |i: int| spun(s[i], dt))
}

/// Every angle the spin update writes fits its field.
pub open spec fn spin_fits(s: Seq<Entity>, dt: int) -> bool {
    forall|i: int| 0 <= i < s.len() && spins(#[trigger] s[i]) ==> s[i].yaw + turn(dt) <= u64::MAX
}

/// The camera update on one entity.
pub open spec fn steered(e: Entity, keys: MoveKeys, dt: int) -> Entity {
    if steers(e) {
        Entity {
            forward_travel: (e.forward_travel + travel(keys.forward_axis(), dt)) as i64,
            right_travel: (e.right_travel + travel(keys.right_axis(), dt)) as i64,
            ..e
        }
    } else {
        e
    }
}

/// The camera update on a whole scene.
pub open spec fn steer_all(s: Seq<Entity>, keys: MoveKeys, dt: int) -> Seq<Entity> {
    Seq::new(s.len(), |i: int| steered(s[i], keys, dt))
}

pub open spec fn fits_i64(v: int) -> bool {
    i64::MIN <= v <= i64::MAX
}

/// Every distance the camera update writes fits its field.
pub open spec fn steer_fits(s: Seq<Entity>, keys: MoveKeys, dt: int) -> bool {
    forall|i: int|
        0 <= i < s.len() && steers(#[trigger] s[i]) ==> {
            &&& fits_i64(s[i].forward_travel + travel(keys.forward_axis(), dt))
            &&& fits_i64(s[i].right_travel + travel(keys.right_axis(), dt))
        }
}

impl Entity {
    fn placed(tags: Tags, origin: Point, facing: Option<Point>) -> (e: Entity)
        ensures
            e == placed(tags, origin, facing),
    {
        Entity { tags, origin, facing, yaw: 0, forward_travel: 0, right_travel: 0 }
    }
}

impl Tags {
    fn none() -> (t: Tags)
        ensures
            t == no_tags(),
    {
        Tags { player: false, ground: false, camera: false, light: false }
    }
}

/// `a * CAMERA_SPEED * dt`, for an axis weight of -1, 0 or 1.
fn travel_step(a: i64, dt: u64) -> (r: i128)
    requires
        -1 <= a <= 1,
    ensures
        r == travel(a as int, dt as int),
        -(CAMERA_SPEED * dt) <= r <= CAMERA_SPEED * dt,
{
    let step: i128 = (CAMERA_SPEED as i128) * (dt as i128);
    if a > 0 {
        assert(step == travel(a as int, dt as int)) by (nonlinear_arith)
            requires
                a == 1,
                step == CAMERA_SPEED * dt,
        ;
        step
    } else if a < 0 {
        assert(-step == travel(a as int, dt as int)) by (nonlinear_arith)
            requires
                a == -1,
                step == CAMERA_SPEED * dt,
        ;
        -step
    } else {
        assert(0 == travel(a as int, dt as int)) by (nonlinear_arith)
            requires
                a == 0,
        ;
        0
    }
}

impl Scene {
    /// A scene with no entities.
    pub fn new() -> (s: Scene)
        ensures
            s.entities@ == Seq::<Entity>::empty(),
    {
        Scene { entities: Vec::new() }
    }

    /// Places the sun and returns its index.
    pub fn setup_scene(&mut self) -> (slot: usize)
        ensures
            slot == old(self).entities.len(),
            final(self).entities@ == old(self).entities@.push(sun()),
    {
        let slot = self.entities.len();
        let tags = Tags { light: true, ..Tags::none() };
        let at = Point { x: 4 * UNIT, y: 8 * UNIT, z: 4 * UNIT };
        let target = Point { x: 0, y: 0, z: 0 };
        self.entities.push(Entity::placed(tags, at, Some(target)));
        slot
    }

    /// Places the camera and returns its index.
    pub fn setup_camera(&mut self) -> (slot: usize)
        ensures
            slot == old(self).entities.len(),
            final(self).entities@ == old(self).entities@.push(camera()),
    {
        let slot = self.entities.len();
        let tags = Tags { camera: true, ..Tags::none() };
        let at = Point { x: 0, y: 5 * UNIT, z: 10 * UNIT };
        let target = Point { x: 0, y: 0, z: 0 };
        self.entities.push(Entity::placed(tags, at, Some(target)));
        slot
    }

    /// Places the player cube and returns its index.
    pub fn setup_player(&mut self) -> (slot: usize)
        ensures
            slot == old(self).entities.len(),
            final(self).entities@ == old(self).entities@.push(player()),
    {
        let slot = self.entities.len();
        let tags = Tags { player: true, ..Tags::none() };
        let at = Point { x: 0, y: UNIT / 2, z: 0 };
        self.entities.push(Entity::placed(tags, at, None));
        slot
    }

    /// Places the ground plane and returns its index.
    pub fn setup_ground(&mut self) -> (slot: usize)
        ensures
            slot == old(self).entities.len(),
            final(self).entities@ == old(self).entities@.push(ground()),
    {
        let slot = self.entities.len();
        let tags = Tags { ground: true, ..Tags::none() };
        let at = Point { x: 0, y: 0, z: 0 };
        self.entities.push(Entity::placed(tags, at, None));
        slot
    }

    /// The scene as it stands before the first frame.
    pub fn startup() -> (s: Scene)
        ensures
            s.entities@ == startup_view(),
    {
        let mut s = Scene::new();
        s.setup_scene();
        s.setup_camera();
        s.setup_player();
        s.setup_ground();
        assert(s.entities@ =~= startup_view());
        s
    }

    /// Turns every player about its vertical axis by `SPIN_RATE * dt`
    /// nanoradians. Where an angle would not fit its field the frame is
    /// skipped: nothing changes and the result is `false`.
    pub fn rotate_player(&mut self, dt: u64) -> (turned: bool)
        ensures
            turned == spin_fits(old(self).entities@, dt as int),
            turned ==> final(self).entities@ == spin_all(old(self).entities@, dt as int),
            !turned ==> final(self).entities@ == old(self).entities@,
    {
        let n = self.entities.len();
        let mut i: usize = 0;
        while i < n
            invariant
                n == self.entities.len(),
                i <= n,
                forall|j: int|
                    0 <= j < i && spins(#[trigger] self.entities@[j]) ==> self.entities@[j].yaw
                        + turn(dt as int) <= u64::MAX,
            decreases n - i,
        {
            let e = self.entities[i];
            if e.tags.player && e.yaw > u64::MAX - SPIN_RATE * dt {
                return false;
            }
            i = i + 1;
        }
        let ghost start = self.entities@;
        let mut i: usize = 0;
        while i < n
            invariant
                n == self.entities.len(),
                n == start.len(),
                i <= n,
                spin_fits(start, dt as int),
                forall|j: int| 0 <= j < i ==> #[trigger] self.entities@[j] == spun(start[j], dt as int),
                forall|j: int| i <= j < n ==> #[trigger] self.entities@[j] == start[j],
            decreases n - i,
        {
            let mut e = self.entities[i];
            if e.tags.player {
                e.yaw = e.yaw + SPIN_RATE * dt;
            }
            self.entities.set(i, e);
            i = i + 1;
        }
        assert(self.entities@ =~= spin_all(start, dt as int));
        true
    }

    /// Moves every camera that is not the player by the held keys: the
    /// forward axis scaled by `forward_axis * CAMERA_SPEED * dt`, the right
    /// axis by `right_axis * CAMERA_SPEED * dt`. Where a distance would not
    /// fit its field the frame is skipped: nothing changes and the result is
    /// `false`. A player is never moved.
    pub fn camera_controls(&mut self, keys: MoveKeys, dt: u64) -> (moved: bool)
        ensures
            moved == steer_fits(old(self).entities@, keys, dt as int),
            moved ==> final(self).entities@ == steer_all(old(self).entities@, keys, dt as int),
            !moved ==> final(self).entities@ == old(self).entities@,
            final(self).entities.len() == old(self).entities.len(),
            forall|i: int|
                0 <= i < old(self).entities.len() && (#[trigger] old(self).entities@[i]).tags.player
                    ==> final(self).entities@[i] == old(self).entities@[i],
    {
        let axes = movement_axes(keys);
        let forward_step = travel_step(axes.forward, dt);
        let right_step = travel_step(axes.right, dt);
        let n = self.entities.len();
        let mut i: usize = 0;
        while i < n
            invariant
                n == self.entities.len(),
                i <= n,
                forward_step == travel(keys.forward_axis(), dt as int),
                right_step == travel(keys.right_axis(), dt as int),
                -(CAMERA_SPEED * dt) <= forward_step <= CAMERA_SPEED * dt,
                -(CAMERA_SPEED * dt) <= right_step <= CAMERA_SPEED * dt,
                forall|j: int|
                    0 <= j < i && steers(#[trigger] self.entities@[j]) ==> {
                        &&& fits_i64(self.entities@[j].forward_travel + forward_step)
                        &&& fits_i64(self.entities@[j].right_travel + right_step)
                    },
            decreases n - i,
        {
            let e = self.entities[i];
            if e.tags.camera && !e.tags.player {
                let f = e.forward_travel as i128 + forward_step;
                let r = e.right_travel as i128 + right_step;
                if f < i64::MIN as i128 || f > i64::MAX as i128 || r < i64::MIN as i128 || r
                    > i64::MAX as i128 {
                    return false;
                }
            }
            i = i + 1;
        }
        let ghost start = self.entities@;
        let mut i: usize = 0;
        while i < n
            invariant
                n == self.entities.len(),
                n == start.len(),
                i <= n,
                forward_step == travel(keys.forward_axis(), dt as int),
                right_step == travel(keys.right_axis(), dt as int),
                steer_fits(start, keys, dt as int),
                forall|j: int|
                    0 <= j < i ==> #[trigger] self.entities@[j] == steered(start[j], keys, dt as int),
                forall|j: int| i <= j < n ==> #[trigger] self.entities@[j] == start[j],
            decreases n - i,
        {
            let mut e = self.entities[i];
            if e.tags.camera && !e.tags.player {
                e.forward_travel = (e.forward_travel as i128 + forward_step) as i64;
                e.right_travel = (e.right_travel as i128 + right_step) as i64;
            }
            self.entities.set(i, e);
            i = i + 1;
        }
        assert(self.entities@ =~= steer_all(start, keys, dt as int));
        true
    }
}

} // verus!
