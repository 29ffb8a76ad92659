//! The two numeric transitions that drive a channel: a ramp at constant
//! speed and a first-order low-pass.
//!
//! Levels are fixed-point numbers counted in millionths, so that a level of
//! one is `LEVEL_UNIT`. Time is counted in microseconds.
use vstd::prelude::*;

verus! {

/// The level 1.0.
pub const LEVEL_UNIT: i64 = 1_000_000;

/// Microseconds in one second.
pub const MICROS_PER_SECOND: u64 = 1_000_000;

/// A low-pass step of at most this size (0.0001) ends the transition.
pub const PT1_EPSILON: u64 = 100;

/// Distance between a level and its target.
pub open spec fn gap(val: int, target: int) -> nat {
    if target >= val {
        (target - val) as nat
    } else {
        (val - target) as nat
    }
}

/// The level `step` away from `val` in the direction of `target`.
pub open spec fn toward(val: int, target: int, step: nat) -> int {
    if target >= val {
        val + step
    } else {
        val - step
    }
}

/// Distance that a ramp of `speed` millionths per second covers in `dt`
/// microseconds, rounded down to whole millionths.
pub open spec fn linear_step(speed: nat, dt: nat) -> nat {
    (speed * dt) / 1_000_000
}

/// One tick of a ramp: a step toward the target, or the target itself where
/// the step would carry past it.
pub open spec fn linear_next(val: int, target: int, step: nat) -> int {
    if step > gap(val, target) {
        target
    } else {
        toward(val, target, step)
    }
}

/// Size of a low-pass step: the share `dt / (time_constant + dt)` of the
/// distance to the target, rounded down to whole millionths.
pub open spec fn pt1_step(val: int, target: int, time_constant: nat, dt: nat) -> nat
    recommends
        time_constant + dt > 0,
{
    (gap(val, target) * dt) / (time_constant + dt)
}

/// One tick of a low-pass. A tick of no duration changes nothing; a step
/// larger than `PT1_EPSILON` is taken; any smaller one ends on the target.
pub open spec fn pt1_next(val: int, target: int, time_constant: nat, dt: nat) -> int {
    if dt == 0 {
        val
    } else if pt1_step(val, target, time_constant, dt) > PT1_EPSILON {
        toward(val, target, pt1_step(val, target, time_constant, dt))
    } else {
        target
    }
}

/// What every transition shows of itself.
pub trait ParameterAnimation {
    /// The current level.
    spec fn value(&self) -> int;

    /// The level aimed at.
    spec fn goal(&self) -> int;

    fn get_val(&self) -> (r: i64)
        ensures
            r == self.value(),
    ;

    fn get_target(&self) -> (r: i64)
        ensures
            r == self.goal(),
    ;

    fn target_reached(&self) -> (r: bool)
        ensures
            r == (self.value() == self.goal()),
    ;
}

/// A ramp that moves `val` toward `target` at `speed` millionths per second.
#[derive(Copy, Clone, Debug, PartialEq, Eq, Structural)]
pub struct LinearAnim {
    pub val: i64,
    pub target: i64,
    pub speed: u64,
}

impl ParameterAnimation for LinearAnim {
    open spec fn value(&self) -> int {
        self.val as int
    }

    open spec fn goal(&self) -> int {
        self.target as int
    }

    fn get_val(&self) -> (r: i64) {
        self.val
    }

    fn get_target(&self) -> (r: i64) {
        self.target
    }

    fn target_reached(&self) -> (r: bool) {
        self.val == self.target
    }
}

impl LinearAnim {
    /// The ramp after one tick of `dt` microseconds.
    pub open spec fn advanced(self, dt: nat) -> LinearAnim {
        LinearAnim {
            val: linear_next(
                self.val as int,
                self.target as int,
                linear_step(self.speed as nat, dt),
            ) as i64,
            target: self.target,
            speed: self.speed,
        }
    }

    /// Moves the level by one tick of `dt` microseconds.
    pub fn advance(&mut self, dt: u64)
        ensures
            *final(self) == old(self).advanced(dt as nat),
            final(self).val == linear_next(
                old(self).val as int,
                old(self).target as int,
                linear_step(old(self).speed as nat, dt as nat),
            ),
            final(self).target == old(self).target,
            final(self).speed == old(self).speed,
    {
        let distance: u128 = distance_between(self.val, self.target);
        proof {
            lemma_product_fits(self.speed, dt);
        }
        let step: u128 = (self.speed as u128 * dt as u128) / 1_000_000;
        if step > distance {
            self.val = self.target;
        } else {
            self.val = step_toward(self.val, self.target, step);
        }
    }
}

/// A first-order low-pass that closes the share `dt / (time_constant + dt)`
/// of the distance to `target` in a tick of `dt` microseconds.
#[derive(Copy, Clone, Debug, PartialEq, Eq, Structural)]
pub struct Pt1Anim {
    pub val: i64,
    pub target: i64,
    pub time_constant: u64,
}

impl Default for Pt1Anim {
    /// A low-pass from 0 to 1 with a time constant of a tenth of a second.
    fn default() -> (r: Pt1Anim)
        ensures
            r == (Pt1Anim { val: 0, target: LEVEL_UNIT, time_constant: 100_000 }),
    {
        Pt1Anim { val: 0, target: LEVEL_UNIT, time_constant: 100_000 }
    }
}

impl ParameterAnimation for Pt1Anim {
    open spec fn value(&self) -> int {
        self.val as int
    }

    open spec fn goal(&self) -> int {
        self.target as int
    }

    fn get_val(&self) -> (r: i64) {
        self.val
    }

    fn get_target(&self) -> (r: i64) {
        self.target
    }

    fn target_reached(&self) -> (r: bool) {
        self.val == self.target
    }
}

impl Pt1Anim {
    /// The low-pass after one tick of `dt` microseconds.
    pub open spec fn advanced(self, dt: nat) -> Pt1Anim {
        Pt1Anim {
            val: pt1_next(self.val as int, self.target as int, self.time_constant as nat, dt) as i64,
            target: self.target,
            time_constant: self.time_constant,
        }
    }

    /// Moves the level by one tick of `dt` microseconds.
    pub fn advance(&mut self, dt: u64)
        ensures
            *final(self) == old(self).advanced(dt as nat),
            final(self).val == pt1_next(
                old(self).val as int,
                old(self).target as int,
                old(self).time_constant as nat,
                dt as nat,
            ),
            final(self).target == old(self).target,
            final(self).time_constant == old(self).time_constant,
    {
        if dt == 0 {
            return ;
        }
        let distance: u128 = distance_between(self.val, self.target);
        proof {
            lemma_product_fits(distance as u64, dt);
            lemma_share_is_smaller(distance as nat, self.time_constant as nat, dt as nat);
        }
        let step: u128 = (distance * dt as u128) / (self.time_constant as u128 + dt as u128);
        if step > PT1_EPSILON as u128 {
            self.val = step_toward(self.val, self.target, step);
        } else {
            self.val = self.target;
        }
    }
}

/// A transition of either kind.
#[derive(Copy, Clone, Debug, PartialEq, Eq, Structural)]
pub enum Animation {
    Linear(LinearAnim),
    Pt1(Pt1Anim),
}

impl ParameterAnimation for Animation {
    open spec fn value(&self) -> int {
        match self {
            Animation::Linear(anim) => anim.val as int,
            Animation::Pt1(anim) => anim.val as int,
        }
    }

    open spec fn goal(&self) -> int {
        match self {
            Animation::Linear(anim) => anim.target as int,
            Animation::Pt1(anim) => anim.target as int,
        }
    }

    fn get_val(&self) -> (r: i64) {
        match self {
            Animation::Linear(anim) => anim.val,
            Animation::Pt1(anim) => anim.val,
        }
    }

    fn get_target(&self) -> (r: i64) {
        match self {
            Animation::Linear(anim) => anim.target,
            Animation::Pt1(anim) => anim.target,
        }
    }

    fn target_reached(&self) -> (r: bool) {
        match self {
            Animation::Linear(anim) => anim.val == anim.target,
            Animation::Pt1(anim) => anim.val == anim.target,
        }
    }
}

impl Animation {
    /// The current level.
    pub open spec fn level(self) -> i64 {
        match self {
            Animation::Linear(anim) => anim.val,
            Animation::Pt1(anim) => anim.val,
        }
    }

    /// Whether the level is the target.
    pub open spec fn arrived(self) -> bool {
        match self {
            Animation::Linear(anim) => anim.val == anim.target,
            Animation::Pt1(anim) => anim.val == anim.target,
        }
    }

    /// The transition after one tick of `dt` microseconds.
    pub open spec fn advanced(self, dt: nat) -> Animation {
        match self {
            Animation::Linear(anim) => Animation::Linear(anim.advanced(dt)),
            Animation::Pt1(anim) => Animation::Pt1(anim.advanced(dt)),
        }
    }

    /// Moves the level by one tick of `dt` microseconds.
    pub fn advance(&mut self, dt: u64)
        ensures
            *final(self) == old(self).advanced(dt as nat),
    {
        match self {
            Animation::Linear(anim) => {
                let mut next = *anim;
                next.advance(dt);
                *self = Animation::Linear(next);
            },
            Animation::Pt1(anim) => {
                let mut next = *anim;
                next.advance(dt);
                *self = Animation::Pt1(next);
            },
        }
    }
}

/// Moves every ramp of `anims` by one tick of `dt` microseconds.
pub fn linear_anim_system(anims: &mut Vec<LinearAnim>, dt: u64)
    ensures
        final(anims)@.len() == old(anims)@.len(),
        forall|i: int|
            0 <= i < old(anims)@.len() ==> final(anims)@[i] == (#[trigger] old(anims)@[i]).advanced(
                dt as nat,
            ),
{
    let mut i: usize = 0;
    while i < anims.len()
        invariant
            i <= anims.len(),
            anims@.len() == old(anims)@.len(),
            forall|k: int| 0 <= k < i ==> anims@[k] == (#[trigger] old(anims)@[k]).advanced(dt as nat),
            forall|k: int| i <= k < anims@.len() ==> anims@[k] == old(anims)@[k],
        decreases anims.len() - i,
    {
        let mut anim = anims[i];
        anim.advance(dt);
        anims.set(i, anim);
        i += 1;
    }
}

/// Moves every low-pass of `anims` by one tick of `dt` microseconds.
pub fn pt1_anim_system(anims: &mut Vec<Pt1Anim>, dt: u64)
    ensures
        final(anims)@.len() == old(anims)@.len(),
        forall|i: int|
            0 <= i < old(anims)@.len() ==> final(anims)@[i] == (#[trigger] old(anims)@[i]).advanced(
                dt as nat,
            ),
{
    let mut i: usize = 0;
    while i < anims.len()
        invariant
            i <= anims.len(),
            anims@.len() == old(anims)@.len(),
            forall|k: int| 0 <= k < i ==> anims@[k] == (#[trigger] old(anims)@[k]).advanced(dt as nat),
            forall|k: int| i <= k < anims@.len() ==> anims@[k] == old(anims)@[k],
        decreases anims.len() - i,
    {
        let mut anim = anims[i];
        anim.advance(dt);
        anims.set(i, anim);
        i += 1;
    }
}

/// The distance between two levels.
fn distance_between(val: i64, target: i64) -> (r: u128)
    ensures
        r == gap(val as int, target as int),
        r <= u64::MAX,
{
    if target >= val {
        (target as i128 - val as i128) as u128
    } else {
        (val as i128 - target as i128) as u128
    }
}

/// Moves `val` by `step` in the direction of `target`, without passing it.
fn step_toward(val: i64, target: i64, step: u128) -> (r: i64)
    requires
        step <= gap(val as int, target as int),
    ensures
        r == toward(val as int, target as int, step as nat),
{
    if target >= val {
        (val as i128 + step as i128) as i64
    } else {
        (val as i128 - step as i128) as i64
    }
}

proof fn lemma_product_fits(a: u64, b: u64)
    ensures
        a * b <= u128::MAX,
{
    assert(a * b <= 0xffff_ffff_ffff_ffff * 0xffff_ffff_ffff_ffff) by (nonlinear_arith)
        requires
            0 <= a <= 0xffff_ffff_ffff_ffff,
            0 <= b <= 0xffff_ffff_ffff_ffff,
    ;
}

/// A share `dt / (time_constant + dt)` of a distance is no more than the
/// distance, and less than it where the time constant is positive.
pub proof fn lemma_share_is_smaller(distance: nat, time_constant: nat, dt: nat)
    requires
        dt > 0,
    ensures
        (distance * dt) / (time_constant + dt) <= distance,
        time_constant > 0 && distance > 0 ==> (distance * dt) / (time_constant + dt) < distance,
{
    let whole = time_constant + dt;
    assert(distance * dt <= distance * whole) by (nonlinear_arith)
        requires
            dt <= whole,
    ;
    assert((distance * whole) / whole == distance) by (nonlinear_arith)
        requires
            whole > 0,
    ;
    vstd::arithmetic::div_mod::lemma_div_is_ordered(
        (distance * dt) as int,
        (distance * whole) as int,
        whole as int,
    );
    if time_constant > 0 && distance > 0 {
        assert(distance * dt < distance * whole) by (nonlinear_arith)
            requires
                dt < whole,
                distance > 0,
        ;
        vstd::arithmetic::div_mod::lemma_fundamental_div_mod((distance * dt) as int, whole as int);
        let q = (distance * dt) / whole;
        assert(q < distance) by (nonlinear_arith)
            requires
                whole * q <= distance * dt,
                distance * dt < distance * whole,
                whole > 0,
        ;
    }
}

} // verus!
