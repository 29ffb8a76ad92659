//! What repeated ticks do to a transition: how many it takes to arrive, that
//! it never passes its target, and that a new target is as good as the first.
use crate::anim::{gap, linear_next, linear_step, pt1_next, pt1_step, toward};
use crate::anim::{LinearAnim, Pt1Anim, PT1_EPSILON};
use vstd::prelude::*;

verus! {

/// Whether `mid` lies between `from` and `to`, ends included.
pub open spec fn between(from: int, mid: int, to: int) -> bool {
    if to >= from {
        from <= mid <= to
    } else {
        to <= mid <= from
    }
}

/// The level of a ramp after `ticks` ticks with the same step.
pub open spec fn linear_run(val: int, target: int, step: nat, ticks: nat) -> int
    decreases ticks,
{
    if ticks == 0 {
        val
    } else {
        linear_run(linear_next(val, target, step), target, step, (ticks - 1) as nat)
    }
}

/// The level of a low-pass after `ticks` ticks of the same duration.
pub open spec fn pt1_run(val: int, target: int, time_constant: nat, dt: nat, ticks: nat) -> int
    decreases ticks,
{
    if ticks == 0 {
        val
    } else {
        pt1_run(
            pt1_next(val, target, time_constant, dt),
            target,
            time_constant,
            dt,
            (ticks - 1) as nat,
        )
    }
}

/// `distance / step`, rounded up.
pub open spec fn ticks_to_reach(distance: nat, step: nat) -> nat
    recommends
        step > 0,
{
    ((distance + step - 1) / (step as int)) as nat
}

/// A number of ticks after which a low-pass over `distance` has arrived,
/// whatever its time constant and the duration of a tick.
pub open spec fn pt1_tick_bound(distance: nat) -> nat {
    distance / (PT1_EPSILON as nat + 1) + 1
}

impl LinearAnim {
    /// The ramp after `ticks` ticks of `dt` microseconds each.
    pub open spec fn after(self, dt: nat, ticks: nat) -> LinearAnim
        decreases ticks,
    {
        if ticks == 0 {
            self
        } else {
            self.advanced(dt).after(dt, (ticks - 1) as nat)
        }
    }

    /// The same ramp, aimed at `target`.
    pub open spec fn retargeted(self, target: i64) -> LinearAnim {
        LinearAnim { val: self.val, target, speed: self.speed }
    }
}

impl Pt1Anim {
    /// The low-pass after `ticks` ticks of `dt` microseconds each.
    pub open spec fn after(self, dt: nat, ticks: nat) -> Pt1Anim
        decreases ticks,
    {
        if ticks == 0 {
            self
        } else {
            self.advanced(dt).after(dt, (ticks - 1) as nat)
        }
    }

    /// The same low-pass, aimed at `target`.
    pub open spec fn retargeted(self, target: i64) -> Pt1Anim {
        Pt1Anim { val: self.val, target, time_constant: self.time_constant }
    }
}

/// A tick of a ramp ends between where it began and the target.
pub proof fn lemma_linear_next_between(val: int, target: int, step: nat)
    ensures
        between(val, linear_next(val, target, step), target),
        gap(linear_next(val, target, step), target) <= gap(val, target),
        step > 0 && val != target ==> gap(linear_next(val, target, step), target) < gap(
            val,
            target,
        ),
{
}

/// A tick of a low-pass ends between where it began and the target.
pub proof fn lemma_pt1_next_between(val: int, target: int, time_constant: nat, dt: nat)
    ensures
        between(val, pt1_next(val, target, time_constant, dt), target),
        gap(pt1_next(val, target, time_constant, dt), target) <= gap(val, target),
{
    if dt > 0 {
        crate::anim::lemma_share_is_smaller(gap(val, target), time_constant, dt);
    }
}

proof fn lemma_linear_run_between(val: int, target: int, step: nat, ticks: nat)
    ensures
        between(val, linear_run(val, target, step, ticks), target),
    decreases ticks,
{
    if ticks > 0 {
        lemma_linear_next_between(val, target, step);
        lemma_linear_run_between(
            linear_next(val, target, step),
            target,
            step,
            (ticks - 1) as nat,
        );
    }
}

proof fn lemma_pt1_run_between(val: int, target: int, time_constant: nat, dt: nat, ticks: nat)
    ensures
        between(val, pt1_run(val, target, time_constant, dt, ticks), target),
    decreases ticks,
{
    if ticks > 0 {
        lemma_pt1_next_between(val, target, time_constant, dt);
        lemma_pt1_run_between(
            pt1_next(val, target, time_constant, dt),
            target,
            time_constant,
            dt,
            (ticks - 1) as nat,
        );
    }
}

proof fn lemma_linear_run_split(val: int, target: int, step: nat, first: nat, second: nat)
    ensures
        linear_run(val, target, step, first + second) == linear_run(
            linear_run(val, target, step, first),
            target,
            step,
            second,
        ),
    decreases first,
{
    if first > 0 {
        lemma_linear_run_split(
            linear_next(val, target, step),
            target,
            step,
            (first - 1) as nat,
            second,
        );
    }
}

proof fn lemma_pt1_run_split(
    val: int,
    target: int,
    time_constant: nat,
    dt: nat,
    first: nat,
    second: nat,
)
    ensures
        pt1_run(val, target, time_constant, dt, first + second) == pt1_run(
            pt1_run(val, target, time_constant, dt, first),
            target,
            time_constant,
            dt,
            second,
        ),
    decreases first,
{
    if first > 0 {
        lemma_pt1_run_split(
            pt1_next(val, target, time_constant, dt),
            target,
            time_constant,
            dt,
            (first - 1) as nat,
            second,
        );
    }
}

proof fn lemma_linear_stays(target: int, step: nat, ticks: nat)
    ensures
        linear_run(target, target, step, ticks) == target,
    decreases ticks,
{
    if ticks > 0 {
        lemma_linear_stays(target, step, (ticks - 1) as nat);
    }
}

proof fn lemma_pt1_stays(target: int, time_constant: nat, dt: nat, ticks: nat)
    ensures
        pt1_run(target, target, time_constant, dt, ticks) == target,
    decreases ticks,
{
    if ticks > 0 {
        if dt > 0 {
            assert(gap(target, target) * dt == 0) by (nonlinear_arith)
                requires
                    gap(target, target) == 0,
            ;
            assert(0int / ((time_constant + dt) as int) == 0) by (nonlinear_arith)
                requires
                    time_constant + dt > 0,
            ;
        }
        lemma_pt1_stays(target, time_constant, dt, (ticks - 1) as nat);
    }
}

proof fn lemma_ceil_steps(distance: nat, step: nat)
    requires
        step > 0,
    ensures
        distance == 0 ==> ticks_to_reach(distance, step) == 0,
        0 < distance < step ==> ticks_to_reach(distance, step) == 1,
        distance >= step ==> ticks_to_reach(distance, step) == ticks_to_reach(
            (distance - step) as nat,
            step,
        ) + 1,
{
    let d = step as int;
    if distance == 0 {
        vstd::arithmetic::div_mod::lemma_fundamental_div_mod_converse(d - 1, d, 0, d - 1);
    } else if distance < step {
        vstd::arithmetic::div_mod::lemma_fundamental_div_mod_converse(
            distance + d - 1,
            d,
            1,
            distance - 1,
        );
    } else {
        vstd::arithmetic::div_mod::lemma_div_plus_one(distance - d + d - 1, d);
        vstd::arithmetic::div_mod::lemma_div_pos_is_pos(distance - d + d - 1, d);
    }
}

/// A ramp over a distance arrives after `distance / step` ticks, rounded up:
/// not before, and it stays.
pub proof fn lemma_linear_run_exact(val: int, target: int, step: nat, ticks: nat)
    requires
        step > 0,
    ensures
        ticks < ticks_to_reach(gap(val, target), step) ==> linear_run(val, target, step, ticks)
            != target,
        ticks >= ticks_to_reach(gap(val, target), step) ==> linear_run(val, target, step, ticks)
            == target,
    decreases ticks,
{
    let distance = gap(val, target);
    lemma_ceil_steps(distance, step);
    if distance == 0 {
        lemma_linear_stays(target, step, ticks);
    } else if ticks > 0 {
        let next = linear_next(val, target, step);
        if distance < step {
            lemma_linear_stays(target, step, (ticks - 1) as nat);
        } else {
            assert(gap(next, target) == distance - step);
            lemma_linear_run_exact(next, target, step, (ticks - 1) as nat);
        }
    }
}

/// A low-pass arrives within `pt1_tick_bound` ticks of any duration but zero,
/// and stays.
pub proof fn lemma_pt1_run_converges(
    val: int,
    target: int,
    time_constant: nat,
    dt: nat,
    ticks: nat,
)
    requires
        dt > 0,
        ticks >= pt1_tick_bound(gap(val, target)),
    ensures
        pt1_run(val, target, time_constant, dt, ticks) == target,
    decreases ticks,
{
    let distance = gap(val, target);
    let step = pt1_step(val, target, time_constant, dt);
    let next = pt1_next(val, target, time_constant, dt);
    crate::anim::lemma_share_is_smaller(distance, time_constant, dt);
    if step > PT1_EPSILON {
        assert(gap(next, target) == distance - step);
        let d = PT1_EPSILON as int + 1;
        vstd::arithmetic::div_mod::lemma_div_plus_one(distance - d, d);
        vstd::arithmetic::div_mod::lemma_div_is_ordered(distance - step, distance - d, d);
        lemma_pt1_run_converges(next, target, time_constant, dt, (ticks - 1) as nat);
    } else {
        lemma_pt1_stays(target, time_constant, dt, (ticks - 1) as nat);
    }
}

proof fn lemma_linear_after(anim: LinearAnim, dt: nat, ticks: nat)
    ensures
        anim.after(dt, ticks).val == linear_run(
            anim.val as int,
            anim.target as int,
            linear_step(anim.speed as nat, dt),
            ticks,
        ),
        anim.after(dt, ticks).target == anim.target,
        anim.after(dt, ticks).speed == anim.speed,
    decreases ticks,
{
    if ticks > 0 {
        lemma_linear_next_between(
            anim.val as int,
            anim.target as int,
            linear_step(anim.speed as nat, dt),
        );
        lemma_linear_after(anim.advanced(dt), dt, (ticks - 1) as nat);
    }
}

proof fn lemma_pt1_after(anim: Pt1Anim, dt: nat, ticks: nat)
    ensures
        anim.after(dt, ticks).val == pt1_run(
            anim.val as int,
            anim.target as int,
            anim.time_constant as nat,
            dt,
            ticks,
        ),
        anim.after(dt, ticks).target == anim.target,
        anim.after(dt, ticks).time_constant == anim.time_constant,
    decreases ticks,
{
    if ticks > 0 {
        lemma_pt1_next_between(anim.val as int, anim.target as int, anim.time_constant as nat, dt);
        lemma_pt1_after(anim.advanced(dt), dt, (ticks - 1) as nat);
    }
}

/// Convergence of the low-pass: with ticks of any fixed duration but zero it
/// stands on its target after finitely many of them, no more than
/// `pt1_tick_bound` of the distance it began with, and on every tick after
/// that its level is the target exactly.
pub proof fn lemma_pt1_converges(anim: Pt1Anim, dt: nat)
    requires
        dt > 0,
    ensures
        forall|ticks: nat|
            ticks >= pt1_tick_bound(gap(anim.val as int, anim.target as int)) ==> (
            #[trigger] anim.after(dt, ticks)).val == anim.target,
        forall|ticks: nat| (#[trigger] anim.after(dt, ticks)).target == anim.target,
        forall|ticks: nat|
            between(anim.val as int, (#[trigger] anim.after(dt, ticks)).val as int, anim.target as int),
{
    assert forall|ticks: nat|
        ticks >= pt1_tick_bound(gap(anim.val as int, anim.target as int)) implies (
    #[trigger] anim.after(dt, ticks)).val == anim.target by {
        lemma_pt1_after(anim, dt, ticks);
        lemma_pt1_run_converges(
            anim.val as int,
            anim.target as int,
            anim.time_constant as nat,
            dt,
            ticks,
        );
    }
    assert forall|ticks: nat| (#[trigger] anim.after(dt, ticks)).target == anim.target by {
        lemma_pt1_after(anim, dt, ticks);
    }
    assert forall|ticks: nat|
        between(
            anim.val as int,
            (#[trigger] anim.after(dt, ticks)).val as int,
            anim.target as int,
        ) by {
        lemma_pt1_after(anim, dt, ticks);
        lemma_pt1_run_between(
            anim.val as int,
            anim.target as int,
            anim.time_constant as nat,
            dt,
            ticks,
        );
    }
}

/// Exactness of the ramp: where a tick covers at least one millionth, the
/// number of ticks that take the ramp to its target is the distance divided
/// by the step of one tick, rounded up. It is not on the target before, it is
/// on it exactly from then on, and on no tick has it passed the target.
pub proof fn lemma_linear_exact(anim: LinearAnim, dt: nat)
    requires
        linear_step(anim.speed as nat, dt) > 0,
    ensures
        forall|ticks: nat|
            ticks < ticks_to_reach(
                gap(anim.val as int, anim.target as int),
                linear_step(anim.speed as nat, dt),
            ) ==> (#[trigger] anim.after(dt, ticks)).val != anim.target,
        forall|ticks: nat|
            ticks >= ticks_to_reach(
                gap(anim.val as int, anim.target as int),
                linear_step(anim.speed as nat, dt),
            ) ==> (#[trigger] anim.after(dt, ticks)).val == anim.target,
        forall|ticks: nat|
            between(anim.val as int, (#[trigger] anim.after(dt, ticks)).val as int, anim.target as int),
{
    let step = linear_step(anim.speed as nat, dt);
    assert forall|ticks: nat|
        ticks < ticks_to_reach(gap(anim.val as int, anim.target as int), step) implies (
    #[trigger] anim.after(dt, ticks)).val != anim.target by {
        lemma_linear_after(anim, dt, ticks);
        lemma_linear_run_exact(anim.val as int, anim.target as int, step, ticks);
    }
    assert forall|ticks: nat|
        ticks >= ticks_to_reach(gap(anim.val as int, anim.target as int), step) implies (
    #[trigger] anim.after(dt, ticks)).val == anim.target by {
        lemma_linear_after(anim, dt, ticks);
        lemma_linear_run_exact(anim.val as int, anim.target as int, step, ticks);
    }
    assert forall|ticks: nat|
        between(
            anim.val as int,
            (#[trigger] anim.after(dt, ticks)).val as int,
            anim.target as int,
        ) by {
        lemma_linear_after(anim, dt, ticks);
        lemma_linear_run_between(anim.val as int, anim.target as int, step, ticks);
    }
}

/// Re-targeting a ramp in flight: after any number of ticks toward its first
/// target, a ramp that is given a new target moves toward that one alone. On
/// every later tick it is no further from the new target than on the tick
/// before, and it stands on the new target after the distance that was left,
/// divided by the step and rounded up.
pub proof fn lemma_linear_retarget(anim: LinearAnim, dt: nat, flown: nat, target: i64)
    requires
        linear_step(anim.speed as nat, dt) > 0,
    ensures
        ({
            let turned = anim.after(dt, flown).retargeted(target);
            let left = ticks_to_reach(
                gap(turned.val as int, target as int),
                linear_step(anim.speed as nat, dt),
            );
            &&& forall|ticks: nat|
                ticks >= left ==> (#[trigger] turned.after(dt, ticks)).val == target
            &&& forall|ticks: nat|
                ticks < left ==> (#[trigger] turned.after(dt, ticks)).val != target
            &&& forall|ticks: nat|
                gap((#[trigger] turned.after(dt, ticks + 1)).val as int, target as int) <= gap(
                    turned.after(dt, ticks).val as int,
                    target as int,
                )
        }),
{
    let turned = anim.after(dt, flown).retargeted(target);
    let step = linear_step(anim.speed as nat, dt);
    lemma_linear_after(anim, dt, flown);
    lemma_linear_exact(turned, dt);
    assert forall|ticks: nat|
        gap((#[trigger] turned.after(dt, ticks + 1)).val as int, target as int) <= gap(
            turned.after(dt, ticks).val as int,
            target as int,
        ) by {
        lemma_linear_after(turned, dt, ticks);
        lemma_linear_after(turned, dt, ticks + 1);
        lemma_linear_run_split(turned.val as int, target as int, step, ticks, 1);
        let here = linear_run(turned.val as int, target as int, step, ticks);
        assert(linear_run(here, target as int, step, 1) == linear_next(here, target as int, step))
            by {
            reveal_with_fuel(linear_run, 2);
        }
        lemma_linear_next_between(here, target as int, step);
    }
}

/// Re-targeting a low-pass in flight: after any number of ticks toward its
/// first target, a low-pass that is given a new target moves toward that one
/// alone. On every later tick it is no further from the new target than on
/// the tick before, and it stands on the new target within `pt1_tick_bound`
/// ticks of the distance that was left.
pub proof fn lemma_pt1_retarget(anim: Pt1Anim, dt: nat, flown: nat, target: i64)
    requires
        dt > 0,
    ensures
        ({
            let turned = anim.after(dt, flown).retargeted(target);
            &&& forall|ticks: nat|
                ticks >= pt1_tick_bound(gap(turned.val as int, target as int)) ==> (
                #[trigger] turned.after(dt, ticks)).val == target
            &&& forall|ticks: nat|
                gap((#[trigger] turned.after(dt, ticks + 1)).val as int, target as int) <= gap(
                    turned.after(dt, ticks).val as int,
                    target as int,
                )
        }),
{
    let turned = anim.after(dt, flown).retargeted(target);
    let tc = anim.time_constant as nat;
    lemma_pt1_after(anim, dt, flown);
    lemma_pt1_converges(turned, dt);
    assert forall|ticks: nat|
        gap((#[trigger] turned.after(dt, ticks + 1)).val as int, target as int) <= gap(
            turned.after(dt, ticks).val as int,
            target as int,
        ) by {
        lemma_pt1_after(turned, dt, ticks);
        lemma_pt1_after(turned, dt, ticks + 1);
        lemma_pt1_run_split(turned.val as int, target as int, tc, dt, ticks, 1);
        let here = pt1_run(turned.val as int, target as int, tc, dt, ticks);
        assert(pt1_run(here, target as int, tc, dt, 1) == pt1_next(here, target as int, tc, dt))
            by {
            reveal_with_fuel(pt1_run, 2);
        }
        lemma_pt1_next_between(here, target as int, tc, dt);
    }
}

} // verus!
