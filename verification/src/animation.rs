//! Time-based interpolation of a value toward a target.

use vstd::prelude::*;
use vstd::arithmetic::div_mod::{lemma_div_is_ordered, lemma_div_multiples_vanish, lemma_div_pos_is_pos};
use vstd::arithmetic::mul::{lemma_mul_inequality, lemma_mul_is_commutative, lemma_mul_nonnegative};

verus! {

/// Where a scalar that travels from `from` to `to` stands once `elapsed`
/// of `duration` has passed: at `from` before any time has passed, at
/// `to` once the duration is over (at once if there is no duration), and
/// in between at the linear share of the way, with the distance covered
/// rounded down.
pub open spec fn mix_scalar(from: int, to: int, elapsed: int, duration: int) -> int {
    if duration <= 0 || elapsed >= duration {
        to
    } else if elapsed <= 0 {
        from
    } else if to >= from {
        from + ((to - from) * elapsed) / duration
    } else {
        from - ((from - to) * elapsed) / duration
    }
}

/// The value half-way from `from` to `to`, rounded toward `from`.
pub open spec fn half_way(from: int, to: int) -> int {
    if to >= from {
        from + (to - from) / 2
    } else {
        from - (from - to) / 2
    }
}

/// The distance covered never exceeds the distance to cover, and falls
/// short of it until the whole duration has passed.
pub proof fn lemma_share_bounded(distance: int, elapsed: int, duration: int)
    requires
        0 <= distance,
        0 <= elapsed <= duration,
        0 < duration,
    ensures
        0 <= (distance * elapsed) / duration <= distance,
        elapsed == 0 ==> (distance * elapsed) / duration == 0,
        elapsed == duration ==> (distance * elapsed) / duration == distance,
        elapsed < duration && distance > 0 ==> (distance * elapsed) / duration < distance,
{
    lemma_mul_nonnegative(distance, elapsed);
    lemma_div_pos_is_pos(distance * elapsed, duration);
    lemma_mul_inequality(elapsed, duration, distance);
    lemma_mul_is_commutative(distance, elapsed);
    lemma_mul_is_commutative(distance, duration);
    lemma_div_is_ordered(distance * elapsed, distance * duration, duration);
    lemma_div_multiples_vanish(distance, duration);
    if elapsed < duration && distance > 0 {
        assert((distance * elapsed) / duration < distance) by (nonlinear_arith)
            requires
                0 < distance,
                0 <= elapsed < duration,
        ;
    }
}

/// A scalar journey starts at `from` and ends at `to`.
pub proof fn lemma_scalar_ends(from: int, to: int, elapsed: int, duration: int)
    ensures
        0 < duration && elapsed <= 0 ==> mix_scalar(from, to, elapsed, duration) == from,
        elapsed >= duration ==> mix_scalar(from, to, elapsed, duration) == to,
        mix_scalar(from, from, elapsed, duration) == from,
{
    if 0 < elapsed < duration {
        lemma_share_bounded(0, elapsed, duration);
    }
}

/// A scalar on its way stays between the two ends, and reaches the far
/// end only when the whole duration has passed.
pub proof fn lemma_scalar_arrival(from: int, to: int, elapsed: int, duration: int)
    ensures
        to >= from ==> from <= mix_scalar(from, to, elapsed, duration) <= to,
        to <= from ==> to <= mix_scalar(from, to, elapsed, duration) <= from,
        elapsed < duration && 0 < duration && from != to ==> mix_scalar(from, to, elapsed, duration)
            != to,
{
    if 0 < elapsed < duration {
        if to >= from {
            lemma_share_bounded(to - from, elapsed, duration);
        } else {
            lemma_share_bounded(from - to, elapsed, duration);
        }
    }
}

/// After half of an even duration a scalar stands half-way.
pub proof fn lemma_scalar_half_way(from: int, to: int, half: int)
    requires
        0 < half,
    ensures
        mix_scalar(from, to, half, 2 * half) == half_way(from, to),
{
    let distance = if to >= from { to - from } else { from - to };
    assert((distance * half) / (2 * half) == distance / 2) by (nonlinear_arith)
        requires
            0 <= distance,
            0 < half,
    ;
}

/// Linear interpolation between two coordinates.
pub fn lerp_scalar(from: i32, to: i32, elapsed: i64, duration: i64) -> (value: i32)
    ensures
        value == mix_scalar(from as int, to as int, elapsed as int, duration as int),
{
    if duration <= 0 || elapsed >= duration {
        return to;
    }
    if elapsed <= 0 {
        return from;
    }
    let distance: i128 = if to >= from { to as i128 - from as i128 } else { from as i128 - to as i128 };
    proof {
        lemma_share_bounded(distance as int, elapsed as int, duration as int);
        assert(0 <= distance * elapsed <= 0x1_0000_0000 * 0x8000_0000_0000_0000) by (nonlinear_arith)
            requires
                0 <= distance <= 0x1_0000_0000,
                0 < elapsed <= 0x8000_0000_0000_0000,
        ;
    }
    let covered: i128 = distance * (elapsed as i128) / (duration as i128);
    if to >= from {
        (from as i128 + covered) as i32
    } else {
        (from as i128 - covered) as i32
    }
}

/// A value that can travel in a straight line toward another of its kind.
pub trait Interpolate: Copy {
    /// Where a value that travels from `self` to `target` stands once
    /// `elapsed` of `duration` has passed.
    spec fn mix(self, target: Self, elapsed: int, duration: int) -> Self;

    /// The journey starts at `self` and ends at `target`; a journey to
    /// where the value already stands goes nowhere.
    proof fn lemma_mix_ends(self, target: Self, elapsed: int, duration: int)
        ensures
            0 < duration && elapsed <= 0 ==> self.mix(target, elapsed, duration) == self,
            elapsed >= duration ==> self.mix(target, elapsed, duration) == target,
            self.mix(self, elapsed, duration) == self,
    ;

    /// A journey between two different values does not arrive early.
    proof fn lemma_mix_arrival(self, target: Self, elapsed: int, duration: int)
        requires
            elapsed < duration,
            0 < duration,
            self != target,
        ensures
            self.mix(target, elapsed, duration) != target,
    ;

    /// Linear interpolation from `self` to `target`.
    fn lerp(self, target: Self, elapsed: i64, duration: i64) -> (value: Self)
        ensures
            value == self.mix(target, elapsed as int, duration as int),
    ;

    /// Whether two values are the same.
    fn same(self, other: Self) -> (equal: bool)
        ensures
            equal == (self == other),
    ;
}

impl Interpolate for i32 {
    open spec fn mix(self, target: Self, elapsed: int, duration: int) -> Self {
        mix_scalar(self as int, target as int, elapsed, duration) as i32
    }

    proof fn lemma_mix_ends(self, target: Self, elapsed: int, duration: int) {
        lemma_scalar_ends(self as int, target as int, elapsed, duration);
    }

    proof fn lemma_mix_arrival(self, target: Self, elapsed: int, duration: int) {
        lemma_scalar_arrival(self as int, target as int, elapsed, duration);
    }

    fn lerp(self, target: Self, elapsed: i64, duration: i64) -> (value: Self) {
        lerp_scalar(self, target, elapsed, duration)
    }

    fn same(self, other: Self) -> (equal: bool) {
        self == other
    }
}

/// The mathematical state of an animated value.
pub struct Motion<T> {
    /// The value as it stands now.
    pub current: T,
    /// The value being approached.
    pub target: T,
    /// The value that `current` had when `target` was last assigned.
    pub origin: T,
    /// Time taken into account since `target` was last assigned.
    pub elapsed: int,
    /// Time that a journey from `origin` to `target` takes.
    pub duration: int,
}

/// The time that a step adds: time that runs backwards counts as none.
pub open spec fn forward(step: int) -> int {
    if step < 0 {
        0
    } else {
        step
    }
}

/// The time that a sequence of steps adds up to.
pub open spec fn span(steps: Seq<int>) -> int
    decreases steps.len(),
{
    if steps.len() == 0 {
        0
    } else {
        span(steps.drop_last()) + forward(steps.last())
    }
}

impl<T: Interpolate> Motion<T> {
    /// The state of a value that rests at `initial`.
    pub open spec fn resting(initial: T, duration: int) -> Motion<T> {
        Motion {
            current: initial,
            target: initial,
            origin: initial,
            elapsed: 0,
            duration: forward(duration),
        }
    }

    /// The target has been reached.
    pub open spec fn complete(self) -> bool {
        self.current == self.target
    }

    /// The states that a value can be in: time taken into account stays
    /// within the duration, a value whose time is up has arrived (unless
    /// it has not been moved since its target was assigned), a value
    /// that had a way to go has arrived only when its time was up, and a
    /// value on its way stands where linear interpolation from `origin`
    /// puts it.
    pub open spec fn wf(self) -> bool {
        &&& 0 <= self.elapsed <= self.duration
        &&& !self.complete() ==> self.elapsed < self.duration || self.duration == 0
        &&& self.complete() ==> self.origin == self.target || self.elapsed == self.duration
        &&& !self.complete() ==> self.current == if self.elapsed == 0 {
            self.origin
        } else {
            self.origin.mix(self.target, self.elapsed, self.duration)
        }
    }

    /// The state after `target` was assigned: the value stays where it
    /// is, and a new journey starts from there.
    pub open spec fn retarget(self, target: T) -> Motion<T> {
        Motion { current: self.current, target, origin: self.current, elapsed: 0, duration: self.duration }
    }

    /// Time taken into account once a further `elapsed` has passed.
    pub open spec fn clock(self, elapsed: int) -> int {
        let total = self.elapsed + forward(elapsed);
        if total > self.duration {
            self.duration
        } else {
            total
        }
    }

    /// The state after a further `elapsed` has passed. A value that has
    /// reached its target stays as it is.
    pub open spec fn advance(self, elapsed: int) -> Motion<T> {
        if self.complete() {
            self
        } else {
            Motion {
                current: self.origin.mix(self.target, self.clock(elapsed), self.duration),
                elapsed: self.clock(elapsed),
                ..self
            }
        }
    }

    /// The state after each of `steps` has passed, one after the other.
    pub open spec fn advance_each(self, steps: Seq<int>) -> Motion<T>
        decreases steps.len(),
    {
        if steps.len() == 0 {
            self
        } else {
            self.advance_each(steps.drop_last()).advance(steps.last())
        }
    }

    /// Assigning a target leaves a well-formed state well-formed, and
    /// the value where it was.
    pub proof fn lemma_retarget(self, target: T)
        requires
            self.wf(),
        ensures
            self.retarget(target).wf(),
            self.retarget(target).current == self.current,
            self.retarget(target).target == target,
    {
    }

    /// The passing of time leaves a well-formed state well-formed and the
    /// target as it was.
    pub proof fn lemma_advance(self, elapsed: int)
        requires
            self.wf(),
        ensures
            self.advance(elapsed).wf(),
            self.advance(elapsed).target == self.target,
            self.complete() ==> self.advance(elapsed) == self,
    {
        if !self.complete() {
            let clock = self.clock(elapsed);
            self.origin.lemma_mix_ends(self.target, clock, self.duration);
            if self.origin == self.target {
                self.origin.lemma_mix_ends(self.target, self.elapsed, self.duration);
            } else if clock < self.duration {
                self.origin.lemma_mix_arrival(self.target, clock, self.duration);
            }
        }
    }

    /// With a duration and a way to go, the target is reached exactly
    /// when the duration has passed.
    pub proof fn lemma_arrival_is_timely(self)
        requires
            self.wf(),
            0 < self.duration,
            self.origin != self.target,
        ensures
            self.complete() <==> self.elapsed == self.duration,
    {
    }

    /// An update by at least the duration reaches the target.
    pub proof fn lemma_whole_duration_completes(self, elapsed: int)
        requires
            self.wf(),
            elapsed >= self.duration,
        ensures
            self.advance(elapsed).complete(),
            self.advance(elapsed).current == self.target,
    {
        self.origin.lemma_mix_ends(self.target, self.clock(elapsed), self.duration);
    }

    /// After a target is assigned and half the duration passes, the value
    /// stands where interpolation from its old place puts it at half
    /// time.
    pub proof fn lemma_half_duration(self, target: T)
        requires
            self.wf(),
            0 < self.duration,
        ensures
            self.retarget(target).advance(self.duration / 2).current == self.current.mix(
                target,
                self.duration / 2,
                self.duration,
            ),
    {
        self.current.lemma_mix_ends(target, self.duration / 2, self.duration);
    }

    /// Updates whose time adds up to the rest of the duration reach the
    /// target, however the time is split among them.
    pub proof fn lemma_accumulated_time_completes(self, steps: Seq<int>)
        requires
            self.wf(),
            steps.len() > 0,
            self.elapsed + span(steps) >= self.duration,
        ensures
            self.advance_each(steps).complete(),
    {
        let before = self.advance_each(steps.drop_last());
        self.lemma_advance_each(steps.drop_last());
        before.origin.lemma_mix_ends(before.target, before.clock(steps.last()), before.duration);
    }

    /// Updates keep a state well-formed; until the target is reached,
    /// the time taken into account is the time that has passed, held at
    /// the duration.
    pub proof fn lemma_advance_each(self, steps: Seq<int>)
        requires
            self.wf(),
        ensures
            self.advance_each(steps).wf(),
            self.advance_each(steps).target == self.target,
            self.advance_each(steps).origin == self.origin,
            self.advance_each(steps).duration == self.duration,
            !self.advance_each(steps).complete() ==> self.advance_each(steps).elapsed == if self.elapsed
                + span(steps) > self.duration {
                self.duration
            } else {
                self.elapsed + span(steps)
            },
        decreases steps.len(),
    {
        if steps.len() > 0 {
            let before = self.advance_each(steps.drop_last());
            self.lemma_advance_each(steps.drop_last());
            before.lemma_advance(steps.last());
            lemma_span_nonnegative(steps.drop_last());
        }
    }
}

/// After a target is assigned and half of an even duration passes, a
/// scalar stands half-way between where it stood and its target.
pub proof fn lemma_half_duration_scalar(motion: Motion<i32>, target: i32)
    requires
        motion.wf(),
        0 < motion.duration,
        motion.duration % 2 == 0,
    ensures
        motion.retarget(target).advance(motion.duration / 2).current == half_way(
            motion.current as int,
            target as int,
        ),
{
    motion.lemma_half_duration(target);
    lemma_scalar_half_way(motion.current as int, target as int, motion.duration / 2);
}

/// No sequence of steps takes time back.
pub proof fn lemma_span_nonnegative(steps: Seq<int>)
    ensures
        span(steps) >= 0,
    decreases steps.len(),
{
    if steps.len() > 0 {
        lemma_span_nonnegative(steps.drop_last());
    }
}

/// A value that moves from where it stands toward a target over a fixed
/// duration, counted in microseconds.
pub struct Animated<T: Interpolate> {
    current: T,
    target: T,
    origin: T,
    elapsed: i64,
    duration: i64,
}

impl<T: Interpolate> Clone for Animated<T> {
    fn clone(&self) -> (copy: Self)
        ensures
            copy == *self,
    {
        *self
    }
}

impl<T: Interpolate> Copy for Animated<T> {

}

impl<T: Interpolate> View for Animated<T> {
    type V = Motion<T>;

    closed spec fn view(&self) -> Motion<T> {
        Motion {
            current: self.current,
            target: self.target,
            origin: self.origin,
            elapsed: self.elapsed as int,
            duration: self.duration as int,
        }
    }
}

impl<T: Interpolate> Animated<T> {
    #[verifier::type_invariant]
    spec fn inv(&self) -> bool {
        self@.wf()
    }

    /// Well-formedness: the state is one that [`Motion::wf`] admits.
    /// Every value of this type is well-formed.
    pub open spec fn wf(&self) -> bool {
        self@.wf()
    }

    /// A value at rest at `initial`. A negative `duration` counts as zero.
    pub fn new(initial: T, duration: i64) -> (animated: Animated<T>)
        ensures
            animated.wf(),
            animated@ == Motion::resting(initial, duration as int),
    {
        Animated {
            current: initial,
            target: initial,
            origin: initial,
            elapsed: 0,
            duration: if duration < 0 { 0 } else { duration },
        }
    }

    /// The value as it stands now.
    pub fn current(&self) -> (value: &T)
        ensures
            self.wf(),
            *value == self@.current,
    {
        proof {
            use_type_invariant(self);
        }
        &self.current
    }

    /// The value being approached.
    pub fn target(&self) -> (value: &T)
        ensures
            self.wf(),
            *value == self@.target,
    {
        proof {
            use_type_invariant(self);
        }
        &self.target
    }

    /// Whether the target has been reached.
    pub fn complete(&self) -> (done: bool)
        ensures
            self.wf(),
            done == self@.complete(),
    {
        proof {
            use_type_invariant(self);
        }
        self.current.same(self.target)
    }

    /// Assigns a new target. The value does not move: the journey to the
    /// new target starts from where the value stands and takes the full
    /// duration.
    pub fn set_target(&mut self, target: T)
        ensures
            final(self).wf(),
            final(self)@ == old(self)@.retarget(target),
            final(self)@.current == old(self)@.current,
    {
        proof {
            use_type_invariant(&*self);
        }
        *self = Animated {
            current: self.current,
            target,
            origin: self.current,
            elapsed: 0,
            duration: self.duration,
        };
    }

    /// Takes a further `elapsed` microseconds into account and moves the
    /// value accordingly. Does nothing once the target has been reached.
    pub fn update(&mut self, elapsed: i64)
        ensures
            final(self).wf(),
            final(self)@ == old(self)@.advance(elapsed as int),
            final(self)@.target == old(self)@.target,
            old(self)@.complete() ==> final(self)@ == old(self)@,
            elapsed >= old(self)@.duration ==> final(self)@.complete(),
    {
        proof {
            use_type_invariant(&*self);
            self@.lemma_advance(elapsed as int);
            if elapsed >= self.duration {
                self@.lemma_whole_duration_completes(elapsed as int);
            }
        }
        if self.current.same(self.target) {
            return ;
        }
        let step: i64 = if elapsed < 0 { 0 } else { elapsed };
        let room: i64 = self.duration - self.elapsed;
        let total: i64 = if step >= room { self.duration } else { self.elapsed + step };
        *self = Animated {
            current: self.origin.lerp(self.target, total, self.duration),
            target: self.target,
            origin: self.origin,
            elapsed: total,
            duration: self.duration,
        };
    }
}

} // verus!
