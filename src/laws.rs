use vstd::prelude::*;
use crate::controls::{MoveKeys, CAMERA_SPEED};
use crate::scene::{
    spin_all, spin_fits, spun, startup_view, steer_all, steer_fits, steers, turn, Entity,
};

verus! {

/// How many entities of `s` satisfy `p`.
pub open spec fn count_where(s: Seq<Entity>, p: spec_fn(Entity) -> bool) -> nat
    decreases s.len(),
{
    if s.len() == 0 {
        0
    } else {
        count_where(s.drop_last(), p) + if p(s.last()) {
            1nat
        } else {
            0nat
        }
    }
}

/// After startup the scene holds exactly one player, one ground plane and
/// one camera.
pub proof fn lemma_startup_roles()
    ensures
        count_where(startup_view(), |e: Entity| e.tags.player) == 1,
        count_where(startup_view(), |e: Entity| e.tags.ground) == 1,
        count_where(startup_view(), |e: Entity| e.tags.camera) == 1,
{
    let s = startup_view();
    assert(s.drop_last() =~= seq![s[0], s[1], s[2]]);
    assert(s.drop_last().drop_last() =~= seq![s[0], s[1]]);
    assert(s.drop_last().drop_last().drop_last() =~= seq![s[0]]);
    assert(s.drop_last().drop_last().drop_last().drop_last() =~= Seq::<Entity>::empty());
    reveal_with_fuel(count_where, 5);
}

/// Spinning by `t1` and then by `t2` is spinning once by `t1 + t2`: when the
/// single step fits, so do both partial ones, and they end in the same scene.
pub proof fn lemma_spin_additive(s: Seq<Entity>, t1: nat, t2: nat)
    requires
        spin_fits(s, (t1 + t2) as int),
    ensures
        spin_fits(s, t1 as int),
        spin_fits(spin_all(s, t1 as int), t2 as int),
        spin_all(spin_all(s, t1 as int), t2 as int) == spin_all(s, (t1 + t2) as int),
{
    let once = spin_all(s, t1 as int);
    assert(spin_all(once, t2 as int) =~= spin_all(s, (t1 + t2) as int));
}

/// One spin step turns each player from `theta` to `theta + SPIN_RATE * t`
/// and leaves every other entity as it was.
pub proof fn lemma_spin_step(s: Seq<Entity>, t: nat, i: int)
    requires
        spin_fits(s, t as int),
        0 <= i < s.len(),
    ensures
        s[i].tags.player ==> spin_all(s, t as int)[i].yaw == s[i].yaw + turn(t as int),
        spin_all(s, t as int)[i] == (Entity { yaw: spin_all(s, t as int)[i].yaw, ..s[i] }),
        !s[i].tags.player ==> spin_all(s, t as int)[i] == s[i],
{
    assert(spin_all(s, t as int)[i] == spun(s[i], t as int));
}

/// One camera step moves a camera by exactly `CAMERA_SPEED * t` times the
/// unit vector that the held keys select, or not at all where opposite keys
/// cancel. The vector is already of unit length or zero, so it equals its
/// own normalisation; two perpendicular keys at once are left out, as their
/// sum is not normalised.
pub proof fn lemma_camera_step(s: Seq<Entity>, keys: MoveKeys, t: nat, i: int)
    requires
        steer_fits(s, keys, t as int),
        0 <= i < s.len(),
        steers(s[i]),
        keys.forward_axis() == 0 || keys.right_axis() == 0,
    ensures
        keys.forward_axis() * keys.forward_axis() + keys.right_axis() * keys.right_axis() <= 1,
        steer_all(s, keys, t as int)[i].forward_travel - s[i].forward_travel == CAMERA_SPEED * t
            * keys.forward_axis(),
        steer_all(s, keys, t as int)[i].right_travel - s[i].right_travel == CAMERA_SPEED * t
            * keys.right_axis(),
        keys.forward && keys.backward ==> keys.forward_axis() == 0,
        keys.left && keys.right ==> keys.right_axis() == 0,
{
    let f = keys.forward_axis();
    let r = keys.right_axis();
    assert(f * f + r * r <= 1) by (nonlinear_arith)
        requires
            -1 <= f <= 1,
            -1 <= r <= 1,
            f == 0 || r == 0,
    ;
    assert(f * CAMERA_SPEED * t == CAMERA_SPEED * t * f) by (nonlinear_arith);
    assert(r * CAMERA_SPEED * t == CAMERA_SPEED * t * r) by (nonlinear_arith);
}

} // verus!
