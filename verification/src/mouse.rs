//! The velocity smoother and the handle that feeds it.
//!
//! The smoother keeps a target and a current velocity for each of the two
//! pointer axes. Each tick moves the current velocity toward the target by at
//! most the acceleration limit times the elapsed time, and halves it while the
//! target is zero. The handle normalizes raw stick samples and keeps the pair
//! of values last handed over.

use vstd::prelude::*;
use crate::fixed::{
    clamp_sym, half_toward_zero, halve, magnitude, magnitude_of, normalize, normalized, round_to_whole,
    round_whole, scale_saturating, turn, turned, DEADZONE_HIGH, VELOCITY_LIMIT,
};

verus! {

/// The acceleration limit a new smoother starts with, per millisecond.
pub const DEFAULT_MAX_CHANGE_PER_MILLI: i64 = 300_000;

/// One of the two pointer axes.
#[derive(Clone, Copy, Debug, PartialEq, Eq, Structural)]
pub enum MotionAxis {
    X,
    Y,
}

/// What the control loop hands to the smoother.
#[derive(Clone, Copy, Debug, PartialEq, Eq, Structural)]
pub enum LoopEvent {
    /// A new pair of velocities arrived from the handle.
    Target(i64, i64),
    /// The tick period ran out at this time, in milliseconds.
    Tick(u64),
    /// The handle is gone.
    Closed,
}

/// What the control loop is to do next.
#[derive(Clone, Copy, Debug, PartialEq, Eq, Structural)]
pub enum LoopAction {
    /// Move the pointer by this many pixels, then keep ticking.
    Move(i32, i32),
    /// Keep ticking at the fixed period.
    Poll,
    /// Both axes are at rest: wait for the next pair of velocities.
    Suspend,
    /// Leave the loop.
    Stop,
}

/// The milliseconds from `last` to `now`; none if the clock went backwards.
pub open spec fn elapsed_millis(last: u64, now: u64) -> int {
    if now >= last {
        now - last
    } else {
        0
    }
}

/// The current velocity of one axis after one tick that allows a change of
/// `max_change`.
pub open spec fn step_axis(current: int, target: int, max_change: int) -> int {
    let moved = current + clamp_sym(target - current, max_change);
    if target == 0 {
        half_toward_zero(moved)
    } else {
        moved
    }
}

/// The sum of the changes that a run of ticks allows.
pub open spec fn total_change(changes: Seq<int>) -> int
    decreases changes.len(),
{
    if changes.len() == 0 {
        0
    } else {
        total_change(changes.drop_last()) + changes.last()
    }
}

/// The current velocity of one axis after a run of ticks toward one target;
/// `changes` holds the change that each tick allows.
pub open spec fn run_axis(current: int, target: int, changes: Seq<int>) -> int
    decreases changes.len(),
{
    if changes.len() == 0 {
        current
    } else {
        step_axis(run_axis(current, target, changes.drop_last()), target, changes.last())
    }
}

/// Two to the power `n`.
pub open spec fn two_to(n: nat) -> int
    decreases n,
{
    if n == 0 {
        1
    } else {
        2 * two_to((n - 1) as nat)
    }
}

/// The velocity smoother: target and current velocity of both axes, and the
/// time of the last tick.
#[derive(Clone, Copy, Debug)]
pub struct MouseMover {
    /// The acceleration limit: how far a velocity may change per millisecond.
    pub max_change_per_milli: i64,
    /// The time of the last tick, in milliseconds.
    pub last_tick: u64,
    pub target_vel_x: i64,
    pub current_vel_x: i64,
    pub target_vel_y: i64,
    pub current_vel_y: i64,
}

impl MouseMover {
    /// The acceleration limit is positive and no velocity exceeds the limit.
    pub open spec fn wf(self) -> bool {
        &&& self.max_change_per_milli > 0
        &&& magnitude(self.target_vel_x as int) <= VELOCITY_LIMIT
        &&& magnitude(self.current_vel_x as int) <= VELOCITY_LIMIT
        &&& magnitude(self.target_vel_y as int) <= VELOCITY_LIMIT
        &&& magnitude(self.current_vel_y as int) <= VELOCITY_LIMIT
    }

    /// Both axes are at rest: target and current velocity are all zero.
    pub open spec fn at_rest(self) -> bool {
        &&& self.target_vel_x == 0
        &&& self.current_vel_x == 0
        &&& self.target_vel_y == 0
        &&& self.current_vel_y == 0
    }

    /// The change that a tick at `now` allows to each velocity.
    pub open spec fn max_change(self, now: u64) -> int {
        self.max_change_per_milli * elapsed_millis(self.last_tick, now)
    }

    /// The smoother after a tick at `now`.
    pub open spec fn ticked(self, now: u64) -> MouseMover {
        MouseMover {
            last_tick: now,
            current_vel_x: step_axis(
                self.current_vel_x as int,
                self.target_vel_x as int,
                self.max_change(now),
            ) as i64,
            current_vel_y: step_axis(
                self.current_vel_y as int,
                self.target_vel_y as int,
                self.max_change(now),
            ) as i64,
            ..self
        }
    }

    /// The pointer motion that the smoother asks for in its present state:
    /// none at rest, else the current velocities rounded to whole pixels.
    pub open spec fn motion(self) -> Option<(i32, i32)> {
        if self.at_rest() {
            None
        } else {
            Some(
                (
                    round_to_whole(self.current_vel_x as int) as i32,
                    round_to_whole(self.current_vel_y as int) as i32,
                ),
            )
        }
    }

    /// The smoother after it received the pair `(x, y)` from the handle: the
    /// pair, held to the velocity limit, takes the place of the targets.
    pub open spec fn received(self, x: i64, y: i64) -> MouseMover {
        MouseMover {
            target_vel_x: clamp_sym(x as int, VELOCITY_LIMIT as int) as i64,
            target_vel_y: clamp_sym(y as int, VELOCITY_LIMIT as int) as i64,
            ..self
        }
    }

    /// The smoother after `event`.
    pub open spec fn after(self, event: LoopEvent) -> MouseMover {
        match event {
            LoopEvent::Target(x, y) => self.received(x, y),
            LoopEvent::Tick(now) => self.ticked(now),
            LoopEvent::Closed => self,
        }
    }

    /// What the control loop is to do once the smoother has taken `event`.
    pub open spec fn action(self, event: LoopEvent) -> LoopAction {
        match event {
            LoopEvent::Target(x, y) => if self.received(x, y).at_rest() {
                LoopAction::Suspend
            } else {
                LoopAction::Poll
            },
            LoopEvent::Tick(now) => match self.ticked(now).motion() {
                Some((dx, dy)) => LoopAction::Move(dx, dy),
                None => LoopAction::Suspend,
            },
            LoopEvent::Closed => LoopAction::Stop,
        }
    }

    /// A smoother at rest with the default acceleration limit, whose last tick
    /// was at `now`.
    pub fn new(now: u64) -> (mover: MouseMover)
        ensures
            mover.wf(),
            mover.at_rest(),
            mover.last_tick == now,
            mover.max_change_per_milli == DEFAULT_MAX_CHANGE_PER_MILLI,
    {
        MouseMover {
            max_change_per_milli: DEFAULT_MAX_CHANGE_PER_MILLI,
            last_tick: now,
            target_vel_x: 0,
            current_vel_x: 0,
            target_vel_y: 0,
            current_vel_y: 0,
        }
    }

    /// Whether the smoother is well formed, for a caller that filled the
    /// fields itself.
    pub fn is_well_formed(&self) -> (ok: bool)
        ensures
            ok == self.wf(),
    {
        let limit: u64 = VELOCITY_LIMIT as u64;
        self.max_change_per_milli > 0 && magnitude_of(
            self.target_vel_x,
        ) <= limit && magnitude_of(self.current_vel_x) <= limit && magnitude_of(self.target_vel_y)
            <= limit && magnitude_of(self.current_vel_y) <= limit
    }

    /// Whether both axes are at rest.
    pub fn is_at_rest(&self) -> (rest: bool)
        ensures
            rest == self.at_rest(),
    {
        self.target_vel_x == 0 && self.current_vel_x == 0 && self.target_vel_y == 0
            && self.current_vel_y == 0
    }

    /// Overwrites the target velocity of one axis with `value`, held to the
    /// velocity limit. Nothing else changes.
    pub fn set_target_velocity(&mut self, axis: MotionAxis, value: i64)
        requires
            old(self).wf(),
        ensures
            final(self).wf(),
            axis == MotionAxis::X ==> *final(self) == (MouseMover {
                target_vel_x: clamp_sym(value as int, VELOCITY_LIMIT as int) as i64,
                ..*old(self)
            }),
            axis == MotionAxis::Y ==> *final(self) == (MouseMover {
                target_vel_y: clamp_sym(value as int, VELOCITY_LIMIT as int) as i64,
                ..*old(self)
            }),
    {
        let held: i64 = scale_saturating(value, 1, 1, VELOCITY_LIMIT);
        match axis {
            MotionAxis::X => {
                self.target_vel_x = held;
            },
            MotionAxis::Y => {
                self.target_vel_y = held;
            },
        }
    }

    /// Takes the pair `(x, y)` from the handle as the new targets, each held
    /// to the velocity limit. The current velocities stay as they are.
    pub fn receive(&mut self, x: i64, y: i64)
        requires
            old(self).wf(),
        ensures
            final(self).wf(),
            *final(self) == old(self).received(x, y),
    {
        self.set_target_velocity(MotionAxis::X, x);
        self.set_target_velocity(MotionAxis::Y, y);
    }

    /// One tick at time `now`: each current velocity moves toward its target by
    /// at most the acceleration limit times the elapsed time, and is halved
    /// where its target is zero. Returns the pointer motion to perform, if any.
    pub fn tick(&mut self, now: u64) -> (motion: Option<(i32, i32)>)
        requires
            old(self).wf(),
        ensures
            final(self).wf(),
            *final(self) == old(self).ticked(now),
            motion == old(self).ticked(now).motion(),
    {
        let elapsed: u64 = if now >= self.last_tick {
            now - self.last_tick
        } else {
            0
        };
        let limit: u64 = self.max_change_per_milli as u64;
        assert(limit * elapsed <= 0x8000_0000_0000_0000 * 0xffff_ffff_ffff_ffff) by (nonlinear_arith)
            requires
                0 <= limit <= 0x8000_0000_0000_0000,
                0 <= elapsed <= 0xffff_ffff_ffff_ffff,
        ;
        let allowed: u128 = (limit as u128) * (elapsed as u128);
        let capped: i64 = if allowed > 2 * (VELOCITY_LIMIT as u128) {
            2 * VELOCITY_LIMIT
        } else {
            allowed as i64
        };
        self.current_vel_x = advance(self.current_vel_x, self.target_vel_x, capped, Ghost(allowed as int));
        self.current_vel_y = advance(self.current_vel_y, self.target_vel_y, capped, Ghost(allowed as int));
        self.last_tick = now;
        if self.is_at_rest() {
            None
        } else {
            Some((round_whole(self.current_vel_x), round_whole(self.current_vel_y)))
        }
    }

    /// Takes one event of the control loop and says what the loop is to do
    /// next.
    pub fn on_event(&mut self, event: LoopEvent) -> (action: LoopAction)
        requires
            old(self).wf(),
        ensures
            final(self).wf(),
            *final(self) == old(self).after(event),
            action == old(self).action(event),
    {
        match event {
            LoopEvent::Target(x, y) => {
                self.receive(x, y);
                if self.is_at_rest() {
                    LoopAction::Suspend
                } else {
                    LoopAction::Poll
                }
            },
            LoopEvent::Tick(now) => {
                match self.tick(now) {
                    Some((dx, dy)) => LoopAction::Move(dx, dy),
                    None => LoopAction::Suspend,
                }
            },
            LoopEvent::Closed => LoopAction::Stop,
        }
    }
}

/// One axis of one tick. `capped` is the allowed change `allowed`, cut off at
/// twice the velocity limit, beyond which it makes no difference.
fn advance(current: i64, target: i64, capped: i64, Ghost(allowed): Ghost<int>) -> (out: i64)
    requires
        magnitude(current as int) <= VELOCITY_LIMIT,
        magnitude(target as int) <= VELOCITY_LIMIT,
        0 <= allowed,
        capped == if allowed > 2 * VELOCITY_LIMIT {
            2 * VELOCITY_LIMIT
        } else {
            allowed
        },
    ensures
        out == step_axis(current as int, target as int, allowed),
        magnitude(out as int) <= VELOCITY_LIMIT,
{
    let gap: i64 = target - current;
    let change: i64 = if gap > capped {
        capped
    } else if gap < -capped {
        -capped
    } else {
        gap
    };
    let moved: i64 = current + change;
    if target == 0 {
        halve(moved)
    } else {
        moved
    }
}

/// The producer's side of the smoother: the pair of velocities that was last
/// handed over, each of them also the previous output against which the next
/// sample of its axis is normalized.
#[derive(Clone, Copy, Debug, PartialEq, Eq, Structural)]
pub struct MouseMoverHandle {
    pub last_x: i64,
    pub last_y: i64,
}

impl MouseMoverHandle {
    /// A handle that has handed over nothing yet.
    pub fn new() -> (handle: MouseMoverHandle)
        ensures
            handle.last_x == 0,
            handle.last_y == 0,
    {
        MouseMoverHandle { last_x: 0, last_y: 0 }
    }

    /// Takes a sample of the horizontal axis: normalizes it against the last
    /// horizontal value, holds the outcome, and returns the pair to hand over.
    pub fn move_x(&mut self, x: i64) -> (sent: (i64, i64))
        ensures
            final(self).last_x == normalized(x as int, old(self).last_x as int),
            final(self).last_y == old(self).last_y,
            sent == (final(self).last_x, final(self).last_y),
    {
        let kept: i64 = normalize(x, self.last_x);
        self.last_x = kept;
        (self.last_x, self.last_y)
    }

    /// Takes a sample of the vertical axis: normalizes it against the last
    /// vertical value and turns the sign of the outcome, so that a stick
    /// pushed up moves the pointer up. Holds that value and returns the pair
    /// to hand over.
    pub fn move_y(&mut self, y: i64) -> (sent: (i64, i64))
        ensures
            final(self).last_y == turned(normalized(y as int, old(self).last_y as int)),
            y > i64::MIN ==> final(self).last_y == -normalized(y as int, old(self).last_y as int),
            final(self).last_x == old(self).last_x,
            sent == (final(self).last_x, final(self).last_y),
    {
        let kept: i64 = normalize(y, self.last_y);
        self.last_y = turn(kept);
        (self.last_x, self.last_y)
    }
}

/// The single slot through which the handle's side hands velocities to the
/// control loop. A pair put into a full slot takes the place of the one that
/// was waiting: the loop only ever sees the newest.
#[derive(Clone, Copy, Debug, PartialEq, Eq)]
pub struct Handoff {
    /// The pair that waits to be taken, if any.
    pub pending: Option<(i64, i64)>,
    /// Whether the handle's side is gone.
    pub closed: bool,
}

impl Handoff {
    /// The slot after each pair of `pairs` was put into it, first to last.
    pub open spec fn put_all(self, pairs: Seq<(i64, i64)>) -> Handoff
        decreases pairs.len(),
    {
        if pairs.len() == 0 {
            self
        } else {
            Handoff { pending: Some(pairs.last()), ..self.put_all(pairs.drop_last()) }
        }
    }

    /// What the control loop finds in the slot: the waiting pair; with none
    /// waiting, the closure of the handle's side; else nothing.
    pub open spec fn next_event(self) -> Option<LoopEvent> {
        match self.pending {
            Some((x, y)) => Some(LoopEvent::Target(x, y)),
            None => if self.closed {
                Some(LoopEvent::Closed)
            } else {
                None
            },
        }
    }

    /// An open slot with nothing in it.
    pub fn new() -> (slot: Handoff)
        ensures
            slot.pending is None,
            !slot.closed,
    {
        Handoff { pending: None, closed: false }
    }

    /// Puts a pair into the slot, in place of any that was waiting.
    pub fn put(&mut self, x: i64, y: i64)
        ensures
            final(self).pending == Some((x, y)),
            final(self).closed == old(self).closed,
    {
        self.pending = Some((x, y));
    }

    /// Puts a pair into the slot unless the slot is closed, and says whether
    /// it was taken.
    pub fn offer(&mut self, x: i64, y: i64) -> (taken: bool)
        ensures
            taken == !old(self).closed,
            final(self).closed == old(self).closed,
            final(self).pending == if taken {
                Some((x, y))
            } else {
                old(self).pending
            },
    {
        if self.closed {
            false
        } else {
            self.put(x, y);
            true
        }
    }

    /// Marks the handle's side as gone. A pair that waits stays.
    pub fn close(&mut self)
        ensures
            final(self).closed,
            final(self).pending == old(self).pending,
    {
        self.closed = true;
    }

    /// Takes what the control loop is to see next, and empties the slot.
    pub fn take(&mut self) -> (event: Option<LoopEvent>)
        ensures
            event == old(self).next_event(),
            final(self).pending is None,
            final(self).closed == old(self).closed,
    {
        match self.pending {
            Some((x, y)) => {
                self.pending = None;
                Some(LoopEvent::Target(x, y))
            },
            None => {
                if self.closed {
                    Some(LoopEvent::Closed)
                } else {
                    None
                }
            },
        }
    }
}

/// Last value wins in the slot: after any run of pairs was put, the control
/// loop finds the last of them and nothing of the others.
pub proof fn lemma_slot_keeps_newest(slot: Handoff, pairs: Seq<(i64, i64)>)
    requires
        pairs.len() > 0,
    ensures
        slot.put_all(pairs).pending == Some(pairs.last()),
        slot.put_all(pairs).closed == slot.closed,
        slot.put_all(pairs).next_event() == Some(LoopEvent::Target(pairs.last().0, pairs.last().1)),
    decreases pairs.len(),
{
    if pairs.len() > 1 {
        lemma_slot_keeps_newest(slot, pairs.drop_last());
    } else {
        assert(slot.put_all(pairs.drop_last()) == slot);
    }
}

/// Bounded rate: the current velocity changes in one tick by no more than the
/// allowed change, exactly when the target is not zero or the velocity was
/// already within the allowed change of zero. Otherwise the halving toward a
/// zero target takes it further.
pub proof fn lemma_bounded_rate(current: int, target: int, max_change: int)
    requires
        max_change >= 0,
    ensures
        magnitude(step_axis(current, target, max_change) - current) <= max_change <==> (target != 0
            || magnitude(current) <= max_change),
{
}

/// Bounded rate, of the smoother itself: a tick keeps it well formed, and
/// changes the current velocity of each axis whose target is not zero by at
/// most the acceleration limit times the elapsed time.
pub proof fn lemma_tick_bounded_rate(mover: MouseMover, now: u64)
    requires
        mover.wf(),
    ensures
        mover.ticked(now).wf(),
        mover.max_change(now) >= 0,
        mover.target_vel_x != 0 ==> magnitude(mover.ticked(now).current_vel_x - mover.current_vel_x)
            <= mover.max_change(now),
        mover.target_vel_y != 0 ==> magnitude(mover.ticked(now).current_vel_y - mover.current_vel_y)
            <= mover.max_change(now),
{
    let allowed = mover.max_change(now);
    assert(allowed >= 0) by (nonlinear_arith)
        requires
            allowed == mover.max_change_per_milli * elapsed_millis(mover.last_tick, now),
            mover.max_change_per_milli > 0,
            elapsed_millis(mover.last_tick, now) >= 0,
    ;
    lemma_never_overshoots(mover.current_vel_x as int, mover.target_vel_x as int, allowed);
    lemma_never_overshoots(mover.current_vel_y as int, mover.target_vel_y as int, allowed);
    lemma_bounded_rate(mover.current_vel_x as int, mover.target_vel_x as int, allowed);
    lemma_bounded_rate(mover.current_vel_y as int, mover.target_vel_y as int, allowed);
}

/// No overshoot: after a tick the current velocity lies between where it was
/// and the target.
pub proof fn lemma_never_overshoots(current: int, target: int, max_change: int)
    requires
        max_change >= 0,
    ensures
        current <= target ==> current <= step_axis(current, target, max_change) <= target,
        current >= target ==> target <= step_axis(current, target, max_change) <= current,
{
}

/// A tick brings the current velocity nearer to the target by the allowed
/// change, or all the way; toward a target other than zero by exactly that.
pub proof fn lemma_step_closes_gap(current: int, target: int, max_change: int)
    requires
        max_change >= 0,
    ensures
        magnitude(target - step_axis(current, target, max_change)) <= if magnitude(target - current)
            <= max_change {
            0
        } else {
            magnitude(target - current) - max_change
        },
        target != 0 ==> magnitude(target - step_axis(current, target, max_change)) == if magnitude(
            target - current,
        ) <= max_change {
            0
        } else {
            magnitude(target - current) - max_change
        },
{
}

/// Stability: a velocity that has reached its target stays there, whatever
/// change a tick allows.
pub proof fn lemma_stable_at_target(target: int, changes: Seq<int>)
    requires
        forall|i: int| 0 <= i < changes.len() ==> changes[i] >= 0,
    ensures
        run_axis(target, target, changes) == target,
    decreases changes.len(),
{
    if changes.len() > 0 {
        lemma_stable_at_target(target, changes.drop_last());
    }
}

/// Convergence: under one unchanged target, a run of ticks whose allowed
/// changes add up to the distance from the target ends exactly on the target,
/// and a shorter run ends no further from it than the rest of the distance.
pub proof fn lemma_converges(current: int, target: int, changes: Seq<int>)
    requires
        forall|i: int| 0 <= i < changes.len() ==> changes[i] >= 0,
    ensures
        total_change(changes) >= 0,
        total_change(changes) >= magnitude(target - current) ==> run_axis(current, target, changes)
            == target,
        magnitude(target - run_axis(current, target, changes)) <= if magnitude(target - current)
            <= total_change(changes) {
            0
        } else {
            magnitude(target - current) - total_change(changes)
        },
        current <= target ==> current <= run_axis(current, target, changes) <= target,
        current >= target ==> target <= run_axis(current, target, changes) <= current,
    decreases changes.len(),
{
    if changes.len() > 0 {
        let before = run_axis(current, target, changes.drop_last());
        lemma_converges(current, target, changes.drop_last());
        lemma_step_closes_gap(before, target, changes.last());
        lemma_never_overshoots(before, target, changes.last());
    }
}

/// Fast stop: toward a zero target each tick at least halves the current
/// velocity, even where it allows no change at all. So a run of `n` ticks ends
/// at exactly zero as soon as two to the power `n` exceeds the magnitude the
/// velocity started with.
pub proof fn lemma_fast_stop(current: int, changes: Seq<int>)
    requires
        forall|i: int| 0 <= i < changes.len() ==> changes[i] >= 0,
    ensures
        magnitude(run_axis(current, 0, changes)) * two_to(changes.len()) <= magnitude(current),
        two_to(changes.len()) > magnitude(current) ==> run_axis(current, 0, changes) == 0,
    decreases changes.len(),
{
    if changes.len() > 0 {
        let rest = changes.drop_last();
        let before = run_axis(current, 0, rest);
        let after = run_axis(current, 0, changes);
        lemma_fast_stop(current, rest);
        lemma_two_to_positive(rest.len());
        assert(magnitude(after) * 2 <= magnitude(before));
        assert(two_to(changes.len()) == 2 * two_to(rest.len()));
        assert(magnitude(after) * two_to(changes.len()) <= magnitude(current)) by (nonlinear_arith)
            requires
                magnitude(after) * 2 <= magnitude(before),
                magnitude(before) * two_to(rest.len()) <= magnitude(current),
                two_to(changes.len()) == 2 * two_to(rest.len()),
                two_to(rest.len()) > 0,
                magnitude(after) >= 0,
        ;
    }
    lemma_two_to_positive(changes.len());
    if two_to(changes.len()) > magnitude(current) && run_axis(current, 0, changes) != 0 {
        assert(magnitude(run_axis(current, 0, changes)) * two_to(changes.len()) >= two_to(
            changes.len(),
        )) by (nonlinear_arith)
            requires
                magnitude(run_axis(current, 0, changes)) >= 1,
                two_to(changes.len()) > 0,
        ;
    }
}

/// Fast stop, in numbers: whatever velocity the limit admits, forty ticks
/// toward a zero target end at exactly zero.
pub proof fn lemma_fast_stop_in_forty_ticks(current: int, changes: Seq<int>)
    requires
        magnitude(current) <= VELOCITY_LIMIT,
        changes.len() >= 40,
        forall|i: int| 0 <= i < changes.len() ==> changes[i] >= 0,
    ensures
        run_axis(current, 0, changes) == 0,
{
    lemma_two_to_grows(40, changes.len());
    assert(two_to(40) == 1_099_511_627_776) by {
        reveal_with_fuel(two_to, 41);
    }
    lemma_fast_stop(current, changes);
}

/// A larger exponent gives no smaller power of two.
pub proof fn lemma_two_to_grows(low: nat, high: nat)
    requires
        low <= high,
    ensures
        two_to(low) <= two_to(high),
    decreases high,
{
    if low < high {
        lemma_two_to_grows(low, (high - 1) as nat);
        lemma_two_to_positive((high - 1) as nat);
    }
}

/// Every power of two is positive.
pub proof fn lemma_two_to_positive(n: nat)
    ensures
        two_to(n) > 0,
    decreases n,
{
    if n > 0 {
        lemma_two_to_positive((n - 1) as nat);
    }
}

/// Idle suspension: a smoother at rest stays at rest and asks for no pointer
/// motion, whatever the control loop hands it, until it receives a pair of
/// velocities that is not zero on both axes.
pub proof fn lemma_idle_until_target(mover: MouseMover, event: LoopEvent)
    requires
        mover.wf(),
        mover.at_rest(),
        match event {
            LoopEvent::Target(x, y) => x == 0 && y == 0,
            _ => true,
        },
    ensures
        mover.after(event).at_rest(),
        mover.action(event) is Suspend || mover.action(event) is Stop,
{
}

/// The smoother after a run of events, first to last.
pub open spec fn after_all(mover: MouseMover, events: Seq<LoopEvent>) -> MouseMover
    decreases events.len(),
{
    if events.len() == 0 {
        mover
    } else {
        after_all(mover, events.drop_last()).after(events.last())
    }
}

/// Waking: a smoother at rest that receives a pair of velocities other than
/// zero leaves its rest, and the control loop goes back to ticking.
pub proof fn lemma_target_wakes(mover: MouseMover, x: i64, y: i64)
    requires
        mover.wf(),
        mover.at_rest(),
        x != 0 || y != 0,
    ensures
        !mover.after(LoopEvent::Target(x, y)).at_rest(),
        mover.action(LoopEvent::Target(x, y)) == LoopAction::Poll,
{
}

/// Idle suspension over a whole run: from rest, through any run of ticks,
/// closures and pairs of zero velocities, no event is answered with a pointer
/// motion, and the smoother is at rest after each of them.
pub proof fn lemma_idle_run(mover: MouseMover, events: Seq<LoopEvent>)
    requires
        mover.wf(),
        mover.at_rest(),
        forall|i: int|
            0 <= i < events.len() ==> match #[trigger] events[i] {
                LoopEvent::Target(x, y) => x == 0 && y == 0,
                _ => true,
            },
    ensures
        after_all(mover, events).wf(),
        after_all(mover, events).at_rest(),
        forall|i: int|
            0 <= i < events.len() ==> {
                let action = #[trigger] after_all(mover, events.take(i)).action(events[i]);
                action is Suspend || action is Stop
            },
    decreases events.len(),
{
    if events.len() > 0 {
        let rest = events.drop_last();
        let before = after_all(mover, rest);
        lemma_idle_run(mover, rest);
        lemma_idle_until_target(before, events.last());
        assert forall|i: int| 0 <= i < events.len() implies {
            let action = #[trigger] after_all(mover, events.take(i)).action(events[i]);
            action is Suspend || action is Stop
        } by {
            if i < rest.len() {
                assert(events.take(i) =~= rest.take(i));
                assert(events[i] == rest[i]);
            } else {
                assert(events.take(i) =~= rest);
            }
        }
    }
}

/// Idempotence: while the same pair of velocities is received again and
/// again, with any ticks between, the targets stay what the first made them,
/// and each current velocity stays between where it was and its target. One
/// that has reached its target therefore stays on it.
pub proof fn lemma_same_target_run(mover: MouseMover, x: i64, y: i64, events: Seq<LoopEvent>)
    requires
        mover.wf(),
        mover.target_vel_x == clamp_sym(x as int, VELOCITY_LIMIT as int),
        mover.target_vel_y == clamp_sym(y as int, VELOCITY_LIMIT as int),
        forall|i: int|
            0 <= i < events.len() ==> (#[trigger] events[i] is Tick) || events[i]
                == LoopEvent::Target(x, y),
    ensures
        after_all(mover, events).wf(),
        after_all(mover, events).target_vel_x == mover.target_vel_x,
        after_all(mover, events).target_vel_y == mover.target_vel_y,
        mover.current_vel_x <= mover.target_vel_x ==> mover.current_vel_x <= after_all(
            mover,
            events,
        ).current_vel_x <= mover.target_vel_x,
        mover.current_vel_x >= mover.target_vel_x ==> mover.target_vel_x <= after_all(
            mover,
            events,
        ).current_vel_x <= mover.current_vel_x,
        mover.current_vel_y <= mover.target_vel_y ==> mover.current_vel_y <= after_all(
            mover,
            events,
        ).current_vel_y <= mover.target_vel_y,
        mover.current_vel_y >= mover.target_vel_y ==> mover.target_vel_y <= after_all(
            mover,
            events,
        ).current_vel_y <= mover.current_vel_y,
    decreases events.len(),
{
    if events.len() > 0 {
        let before = after_all(mover, events.drop_last());
        lemma_same_target_run(mover, x, y, events.drop_last());
        match events.last() {
            LoopEvent::Tick(now) => {
                lemma_tick_bounded_rate(before, now);
                lemma_never_overshoots(
                    before.current_vel_x as int,
                    before.target_vel_x as int,
                    before.max_change(now),
                );
                lemma_never_overshoots(
                    before.current_vel_y as int,
                    before.target_vel_y as int,
                    before.max_change(now),
                );
            },
            _ => {},
        }
    }
}

/// Last value wins: of two pairs of velocities received with no tick between
/// them, only the second counts.
pub proof fn lemma_last_target_wins(mover: MouseMover, first: (i64, i64), second: (i64, i64))
    ensures
        mover.received(first.0, first.1).received(second.0, second.1) == mover.received(
            second.0,
            second.1,
        ),
{
}

/// The horizontal value that a handle holds after a run of horizontal
/// samples, when it held `last` before.
pub open spec fn last_x_after(last: int, samples: Seq<int>) -> int
    decreases samples.len(),
{
    if samples.len() == 0 {
        last
    } else {
        normalized(samples.last(), last_x_after(last, samples.drop_last()))
    }
}

/// Debounce over a run of samples: each sample that is under the high
/// threshold and under the magnitude of the value held just before it leaves
/// the handle holding exactly zero.
pub proof fn lemma_decaying_run_is_zeroed(last: int, samples: Seq<int>, i: int)
    requires
        0 <= i < samples.len(),
        magnitude(samples[i]) < DEADZONE_HIGH,
        magnitude(samples[i]) < magnitude(last_x_after(last, samples.take(i))),
    ensures
        last_x_after(last, samples.take(i + 1)) == 0,
{
    let upto = samples.take(i + 1);
    assert(upto.drop_last() =~= samples.take(i));
    assert(upto.last() == samples[i]);
}

} // verus!
