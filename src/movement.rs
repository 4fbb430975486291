use vstd::prelude::*;
use crate::geometry::{scale_fits, Vec3};
use crate::world::{Controller, Entity, WalkBasis, World};

verus! {

/// The walking direction, in tenths of a unit: 60 units along x.
pub const WALK_DIRECTION_X: i64 = 600;

/// The factor that turns the walking direction into a velocity per second.
pub const WALK_SPEED: i64 = 10;

/// The height at which a walking character floats, in tenths of a unit.
pub const FLOAT_HEIGHT: i64 = 50;

/// The basis issued to every walking character on every step: a velocity of
/// 600 units per second along x and a float height of 5 units.
pub open spec fn walk_basis_spec() -> WalkBasis {
    WalkBasis {
        desired_velocity: Vec3 { x: (WALK_DIRECTION_X * WALK_SPEED) as i64, y: 0, z: 0 },
        float_height: FLOAT_HEIGHT,
    }
}

/// Whether the movement update drives an entity: it carries both a
/// character controller and a ground sensor.
pub open spec fn walks(e: Entity) -> bool {
    e.controller.is_some() && e.ground_sensor.is_some()
}

/// An entity whose controller has been handed the walking basis.
pub open spec fn walked(e: Entity) -> Entity {
    Entity { controller: Some(Controller { basis: Some(walk_basis_spec()) }), ..e }
}

/// What one movement update does to one entity.
pub open spec fn step(e: Entity) -> Entity {
    if walks(e) {
        walked(e)
    } else {
        e
    }
}

/// What one movement update does to a world.
pub open spec fn tick(s: Seq<Entity>) -> Seq<Entity> {
    s.map_values(|e: Entity| step(e))
}

/// The world after `n` movement updates.
pub open spec fn ticks(s: Seq<Entity>, n: nat) -> Seq<Entity>
    decreases n,
{
    if n == 0 {
        s
    } else {
        tick(ticks(s, (n - 1) as nat))
    }
}

/// The identifiers, in increasing order, of the walking entities among the
/// first `n` of `s`.
pub open spec fn walking_ids(s: Seq<Entity>, n: nat) -> Seq<usize>
    decreases n,
{
    if n == 0 {
        seq![]
    } else {
        let prev = walking_ids(s, (n - 1) as nat);
        if walks(s[n - 1]) {
            prev.push((n - 1) as usize)
        } else {
            prev
        }
    }
}

/// The identifiers of all walking entities of `s`, in increasing order.
pub open spec fn walkers(s: Seq<Entity>) -> Seq<usize> {
    walking_ids(s, s.len())
}

/// After any number of movement updates, at least one, every walking
/// entity's controller holds exactly the walking basis and nothing else of
/// the entity has changed, whatever the controller held before.
pub proof fn lemma_walkers_get_walk_basis(s: Seq<Entity>, n: nat, i: int)
    requires
        n >= 1,
        0 <= i < s.len(),
        walks(s[i]),
    ensures
        ticks(s, n).len() == s.len(),
        ticks(s, n)[i].controller == Some(Controller { basis: Some(walk_basis_spec()) }),
        ticks(s, n)[i] == walked(s[i]),
{
    lemma_ticks_is_one_tick(s, n);
}

/// A movement update leaves every entity that lacks a controller or a
/// ground sensor exactly as it was.
pub proof fn lemma_others_untouched(s: Seq<Entity>, i: int)
    requires
        0 <= i < s.len(),
        !walks(s[i]),
    ensures
        tick(s)[i] == s[i],
{
}

/// A movement update is idempotent: a second one changes nothing.
pub proof fn lemma_tick_idempotent(s: Seq<Entity>)
    ensures
        tick(tick(s)) == tick(s),
{
    assert(tick(tick(s)) =~= tick(s));
}

/// Any positive number of movement updates leaves the world as one does:
/// each update is computed afresh, and nothing accumulates across steps.
pub proof fn lemma_ticks_is_one_tick(s: Seq<Entity>, n: nat)
    requires
        n >= 1,
    ensures
        ticks(s, n) == tick(s),
    decreases n,
{
    if n > 1 {
        lemma_ticks_is_one_tick(s, (n - 1) as nat);
        lemma_tick_idempotent(s);
    } else {
        assert(ticks(s, 0) == s);
    }
}

/// The identifiers among the first `n` are below `n` and strictly increasing.
proof fn lemma_walking_ids_sorted(s: Seq<Entity>, n: nat)
    requires
        n <= s.len(),
        s.len() <= usize::MAX,
    ensures
        forall|a: int| 0 <= a < walking_ids(s, n).len() ==> walking_ids(s, n)[a] < n,
        forall|a: int, b: int|
            0 <= a < b < walking_ids(s, n).len() ==> walking_ids(s, n)[a] < walking_ids(s, n)[b],
        forall|j: int| 0 <= j < n ==> (walks(s[j]) <==> walking_ids(s, n).contains(j as usize)),
    decreases n,
{
    if n > 0 {
        let m = (n - 1) as nat;
        lemma_walking_ids_sorted(s, m);
        let prev = walking_ids(s, m);
        let cur = walking_ids(s, n);
        assert forall|j: int| 0 <= j < n implies (walks(s[j]) <==> cur.contains(j as usize)) by {
            if walks(s[j]) {
                if j < m {
                    let k = choose|k: int| 0 <= k < prev.len() && prev[k] == j as usize;
                    assert(cur[k] == j as usize);
                } else {
                    assert(cur[cur.len() - 1] == j as usize);
                }
            }
            if cur.contains(j as usize) {
                let k = choose|k: int| 0 <= k < cur.len() && cur[k] == j as usize;
                if k < prev.len() {
                    assert(prev.contains(j as usize));
                }
            }
        }
    }
}

/// The movement update reports exactly one identifier for each walking
/// entity, and none for any other entity.
pub proof fn lemma_one_report_per_walker(s: Seq<Entity>)
    requires
        s.len() <= usize::MAX,
    ensures
        walkers(s).no_duplicates(),
        forall|j: int| 0 <= j < s.len() ==> (walks(s[j]) <==> walkers(s).contains(j as usize)),
        forall|a: int| 0 <= a < walkers(s).len() ==> walkers(s)[a] < s.len(),
{
    lemma_walking_ids_sorted(s, s.len());
    let w = walkers(s);
    assert forall|a: int, b: int| 0 <= a < w.len() && 0 <= b < w.len() && a != b implies w[a]
        != w[b] by {
        if a < b {
            assert(w[a] < w[b]);
        } else {
            assert(w[b] < w[a]);
        }
    }
}

/// The walking direction, in tenths of a unit.
pub fn walk_direction() -> (r: Vec3)
    ensures
        r == (Vec3 { x: WALK_DIRECTION_X, y: 0, z: 0 }),
{
    Vec3::new(WALK_DIRECTION_X, 0, 0)
}

/// The basis issued to a walking character: the walking direction scaled by
/// the walking speed, and the float height.
pub fn walk_basis() -> (r: WalkBasis)
    ensures
        r == walk_basis_spec(),
{
    let direction = walk_direction();
    assert(scale_fits(direction, WALK_SPEED as int));
    let desired_velocity = direction.scale(WALK_SPEED);
    WalkBasis { desired_velocity, float_height: FLOAT_HEIGHT }
}

/// Whether the movement update drives `e`.
pub fn is_walker(e: &Entity) -> (r: bool)
    ensures
        r == walks(*e),
{
    e.controller.is_some() && e.ground_sensor.is_some()
}

/// One fixed step of the movement update. Every entity that carries both a
/// controller and a ground sensor has its controller's basis overwritten
/// with the walking basis, whatever it held before; every other entity is
/// left as it was. Returns the identifiers of the entities that were driven,
/// in increasing order, one for each.
pub fn movement_system(world: &mut World) -> (ids: Vec<usize>)
    ensures
        final(world)@ == tick(old(world)@),
        ids@ == walkers(old(world)@),
{
    let ghost w0 = world@;
    let n = world.len();
    let basis = walk_basis();
    let mut ids: Vec<usize> = Vec::new();
    let mut i: usize = 0;
    while i < n
        invariant
            n == w0.len(),
            basis == walk_basis_spec(),
            world@.len() == n,
            i <= n,
            forall|j: int| 0 <= j < i ==> world@[j] == step(w0[j]),
            forall|j: int| i <= j < n ==> world@[j] == w0[j],
            ids@ == walking_ids(w0, i as nat),
        decreases n - i,
    {
        let e = world[i];
        if is_walker(&e) {
            let mut driven = e;
            driven.controller = Some(Controller { basis: Some(basis) });
            assert(driven == step(w0[i as int]));
            world.set(i, driven);
            ids.push(i);
        }
        i += 1;
    }
    assert(world@ =~= tick(w0));
    ids
}

} // verus!
