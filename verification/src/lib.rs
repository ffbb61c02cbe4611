//! A tweening core: eased, time-driven blending of element properties.
//!
//! The crate advances per-target animation state (a start delay, a fixed
//! duration, optional looping and ping-pong reversal, a pause flag), derives
//! the frame's progress and direction, and blends captured baseline property
//! values toward target values by an eased progress scalar.  All quantities
//! are integers: time is counted in milliseconds and scalars are fixed-point
//! (see [`fixed::Fx`]).  The host supplies frame time, property storage, and
//! the eased progress value itself, whose curve formulas are floating-point
//! and are evaluated on the host's scalar type (see [`ease::Delta`]).

pub mod driver;
pub mod ease;
pub mod event;
pub mod fixed;
pub mod lerp;
pub mod timer;

use vstd::prelude::*;
use crate::ease::Ease;
use crate::fixed::{Fx, value_ok};
use crate::lerp::{Color, Style, Transform, Vec3};
use crate::timer::Timer;

verus! {

/// Target values and playback options for one animation instance.
///
/// Each optional field names one animatable property; an absent field leaves
/// that property alone.  `delay` and `duration` are milliseconds.
#[derive(Clone, Copy, Debug)]
pub struct Vars {
    /// Target layout style; its geometric fields are blended.
    pub style: Option<Style>,
    /// Target color.
    pub color: Option<Color>,
    /// Target transform.
    pub transform: Option<Transform>,
    /// Target rotation around a fixed axis.
    pub transform_rotation: Option<TransformRotation>,
    /// Target color for one text section.
    pub text_color: Option<TextColor>,
    /// Milliseconds to wait before the animation starts.
    pub delay: u64,
    /// Milliseconds the animation runs for.
    pub duration: u64,
    /// The timing curve.
    pub ease: Ease,
    /// Whether to start a new cycle after each completion.
    pub repeat: bool,
    /// Whether repeating reverses direction instead of restarting forward.
    pub yoyo: bool,
    /// Whether the animation is frozen.
    pub paused: bool,
}

impl Default for Vars {
    /// Half a second, no delay, `ExpoOut`, one-shot, not paused, and no
    /// target values.
    fn default() -> (v: Vars)
        ensures
            v.style is None,
            v.color is None,
            v.transform is None,
            v.transform_rotation is None,
            v.text_color is None,
            v.delay == 0,
            v.duration == 500,
            v.ease is ExpoOut,
            !v.repeat,
            !v.yoyo,
            !v.paused,
    {
        Vars {
            style: None,
            color: None,
            transform: None,
            transform_rotation: None,
            text_color: None,
            delay: 0,
            duration: 500,
            ease: Ease::ExpoOut,
            repeat: false,
            yoyo: false,
            paused: false,
        }
    }
}

/// A requested rotation around one local axis.
///
/// The driver blends the current rotation angle toward `degree` and asks the
/// host to re-derive a rotation from the fixed `axis` and the blended angle.
#[derive(Clone, Copy, Debug, PartialEq, Eq, Structural)]
pub struct TransformRotation {
    /// The normalized rotation axis.
    pub axis: Vec3,
    /// Target value of the rotation degree.
    pub degree: Fx,
}

impl TransformRotation {
    /// Rotates a transform around its local X axis.
    pub fn x(degree: Fx) -> (r: TransformRotation)
        requires
            value_ok(degree),
        ensures
            r.axis == (Vec3 { x: Fx { bits: fixed::SCALE }, y: Fx { bits: 0 }, z: Fx { bits: 0 } }),
            r.degree.bits == -degree.bits,
    {
        TransformRotation {
            axis: Vec3 { x: Fx { bits: fixed::SCALE }, y: Fx { bits: 0 }, z: Fx { bits: 0 } },
            degree: Fx { bits: -degree.bits },
        }
    }

    /// Rotates a transform around its local Y axis.
    pub fn y(degree: Fx) -> (r: TransformRotation)
        requires
            value_ok(degree),
        ensures
            r.axis == (Vec3 { x: Fx { bits: 0 }, y: Fx { bits: fixed::SCALE }, z: Fx { bits: 0 } }),
            r.degree.bits == -degree.bits,
    {
        TransformRotation {
            axis: Vec3 { x: Fx { bits: 0 }, y: Fx { bits: fixed::SCALE }, z: Fx { bits: 0 } },
            degree: Fx { bits: -degree.bits },
        }
    }

    /// Rotates a transform around its local Z axis.
    pub fn z(degree: Fx) -> (r: TransformRotation)
        requires
            value_ok(degree),
        ensures
            r.axis == (Vec3 { x: Fx { bits: 0 }, y: Fx { bits: 0 }, z: Fx { bits: fixed::SCALE } }),
            r.degree.bits == -degree.bits,
    {
        TransformRotation {
            axis: Vec3 { x: Fx { bits: 0 }, y: Fx { bits: 0 }, z: Fx { bits: fixed::SCALE } },
            degree: Fx { bits: -degree.bits },
        }
    }
}

/// Manipulates the color of one section of a text block.
#[derive(Clone, Copy, Debug, PartialEq, Eq, Structural)]
pub struct TextColor {
    /// Target color.
    pub target: Color,
    /// Index of the text section.
    pub section: usize,
}

/// Per-target playback state: the two timers, the playback direction, and
/// the spec the animation was created from.
#[derive(Clone, Copy, Debug)]
pub struct Animation {
    /// The duration timer.
    pub timer: Timer,
    /// The start-delay timer.
    pub delay_timer: Timer,
    /// `1` while playing forward, `-1` while playing backward under yoyo.
    pub direction: i16,
    /// The animation's configuration.
    pub vars: Vars,
}

/// The progress snapshot of one active frame, taken after the duration
/// timer advanced and before any completion handling: raw progress is
/// `elapsed / duration` when `forward`, `1 - elapsed / duration` otherwise.
#[derive(Clone, Copy, Debug, PartialEq, Eq, Structural)]
pub struct Sample {
    /// Milliseconds into the current cycle, clamped to the duration.
    pub elapsed: u64,
    /// The cycle's full runtime in milliseconds; never zero.
    pub duration: u64,
    /// Whether the playhead runs forward this frame.
    pub forward: bool,
}

/// What one frame asks of the host.
#[derive(Clone, Copy, Debug, PartialEq, Eq, Structural)]
pub struct Advance {
    /// Present when property values should be written this frame: the
    /// animation is unpaused, past its delay, and has a nonzero duration.
    pub sample: Option<Sample>,
    /// Whether the duration timer reached its end on this tick; the host
    /// should emit a completion event.
    pub completed: bool,
    /// Whether the animation is over for good (completed without repeat):
    /// the host should drop this state and its baseline after writing the
    /// frame's values.
    pub detach: bool,
}

impl Animation {
    /// The animation's internal invariant.
    pub open spec fn wf(self) -> bool {
        &&& self.timer.wf()
        &&& self.delay_timer.wf()
        &&& self.direction == 1 || self.direction == -1
        &&& self.timer.duration == self.vars.duration
        &&& self.delay_timer.duration == self.vars.delay
    }

    /// Whether a tick of `dt` finds the animation unpaused and past its
    /// start delay, so that the duration timer runs.
    pub open spec fn runs(self, dt: u64) -> bool {
        !self.vars.paused && self.delay_timer.ticked(dt).finished
    }

    /// The animation state and frame request that one tick of `dt`
    /// milliseconds produces; [`Animation::tick`] returns exactly this pair.
    pub open spec fn stepped(self, dt: u64) -> (Animation, Advance) {
        let idle = Advance { sample: None, completed: false, detach: false };
        if self.vars.paused {
            (self, idle)
        } else if !self.delay_timer.ticked(dt).finished {
            (Animation { delay_timer: self.delay_timer.ticked(dt), ..self }, idle)
        } else {
            let t = self.timer.ticked(dt);
            let completed = t.just_finished;
            let adv = Advance {
                sample: if t.duration != 0 {
                    Some(Sample { elapsed: t.elapsed, duration: t.duration, forward: self.direction == 1 })
                } else {
                    None
                },
                completed,
                detach: completed && !self.vars.repeat,
            };
            let direction = if completed && self.vars.repeat && self.vars.yoyo {
                (0 - self.direction) as i16
            } else {
                self.direction
            };
            let timer = if completed && self.vars.repeat {
                Timer { duration: t.duration, elapsed: 0, finished: false, just_finished: false }
            } else {
                t
            };
            (
                Animation {
                    delay_timer: self.delay_timer.ticked(dt),
                    timer,
                    direction,
                    ..self
                },
                adv,
            )
        }
    }

    /// The state a fresh animation starts in: both timers at zero and the
    /// playhead running forward.
    pub open spec fn initial(vars: Vars) -> Animation {
        Animation {
            timer: Timer { duration: vars.duration, elapsed: 0, finished: false, just_finished: false },
            delay_timer: Timer { duration: vars.delay, elapsed: 0, finished: false, just_finished: false },
            direction: 1,
            vars,
        }
    }

    /// Creates a fresh animation from its configuration.
    pub fn new(vars: Vars) -> (a: Animation)
        ensures
            a == Animation::initial(vars),
            a.wf(),
    {
        Animation {
            timer: Timer::new(vars.duration),
            delay_timer: Timer::new(vars.delay),
            direction: 1,
            vars,
        }
    }

    /// Freezes the instance: timers stop advancing and nothing is written.
    pub fn pause(&mut self)
        ensures
            final(self).vars.paused,
            *final(self) == (Animation {
                vars: Vars { paused: true, ..old(self).vars },
                ..*old(self)
            }),
    {
        self.vars.paused = true;
    }

    /// Resumes playing from wherever the playhead currently is.
    pub fn play(&mut self)
        ensures
            !final(self).vars.paused,
            *final(self) == (Animation {
                vars: Vars { paused: false, ..old(self).vars },
                ..*old(self)
            }),
    {
        self.vars.paused = false;
    }

    /// Advances the animation by `dt` milliseconds and reports what the
    /// frame needs: a paused animation is untouched; a delaying one only
    /// accumulates delay; an active one advances its duration timer, yields
    /// a progress snapshot when the duration is nonzero, and on completion
    /// either rewinds for the next cycle (flipping direction under yoyo) or
    /// asks to be detached.
    pub fn tick(&mut self, dt: u64) -> (adv: Advance)
        requires
            old(self).wf(),
        ensures
            final(self).wf(),
            *final(self) == old(self).stepped(dt).0,
            adv == old(self).stepped(dt).1,
            final(self).vars == old(self).vars,
            // paused: both accumulators frozen, nothing requested
            old(self).vars.paused ==> *final(self) == *old(self)
                && adv == (Advance { sample: None::<Sample>, completed: false, detach: false }),
            // unpaused: the delay timer always advances
            !old(self).vars.paused ==> final(self).delay_timer == old(self).delay_timer.ticked(dt),
            // still delaying: the duration timer and direction are untouched
            !old(self).vars.paused && !old(self).runs(dt) ==>
                final(self).timer == old(self).timer
                && final(self).direction == old(self).direction
                && adv == (Advance { sample: None::<Sample>, completed: false, detach: false }),
            // active: completion comes exactly from the timer's edge flag
            old(self).runs(dt) ==> adv.completed == old(self).timer.ticked(dt).just_finished,
            old(self).runs(dt) ==> adv.detach == (adv.completed && !old(self).vars.repeat),
            // active: the snapshot shows the advanced timer, pre-completion
            old(self).runs(dt) ==> adv.sample == (if old(self).timer.duration != 0 {
                Some(Sample {
                    elapsed: old(self).timer.ticked(dt).elapsed,
                    duration: old(self).timer.duration,
                    forward: old(self).direction == 1,
                })
            } else {
                None::<Sample>
            }),
            // active: direction flips exactly on a completion under repeat+yoyo
            old(self).runs(dt) ==> final(self).direction == (
                if adv.completed && old(self).vars.repeat && old(self).vars.yoyo {
                    -old(self).direction as int
                } else {
                    old(self).direction as int
                }
            ),
            // active: a completed repeating cycle rewinds; anything else
            // keeps the advanced timer
            old(self).runs(dt) ==> final(self).timer == (
                if adv.completed && old(self).vars.repeat {
                    Timer {
                        duration: old(self).timer.duration,
                        elapsed: 0,
                        finished: false,
                        just_finished: false,
                    }
                } else {
                    old(self).timer.ticked(dt)
                }
            ),
    {
        if self.vars.paused {
            return Advance { sample: None, completed: false, detach: false };
        }
        self.delay_timer.tick(dt);
        if !self.delay_timer.finished {
            return Advance { sample: None, completed: false, detach: false };
        }
        self.timer.tick(dt);
        let sample = if self.timer.duration != 0 {
            Some(Sample {
                elapsed: self.timer.elapsed,
                duration: self.timer.duration,
                forward: self.direction == 1,
            })
        } else {
            None
        };
        let completed = self.timer.just_finished;
        let mut detach = false;
        if completed {
            if self.vars.repeat {
                if self.vars.yoyo {
                    self.direction = -self.direction;
                }
                self.timer.reset();
            } else {
                detach = true;
            }
        }
        Advance { sample, completed, detach }
    }
}

/// A one-shot animation completes exactly once: the completing tick is the
/// first on which accumulated elapsed time reaches the duration, it asks for
/// detachment in that same tick, and a tick that finds the duration timer
/// already finished never completes or detaches again.
pub proof fn lemma_one_shot_completes_once(a: Animation, dt: u64)
    requires
        a.wf(),
        !a.vars.repeat,
    ensures
        a.stepped(dt).1.completed <==> (a.runs(dt) && !a.timer.finished
            && a.timer.elapsed + dt >= a.timer.duration),
        a.stepped(dt).1.completed ==> a.stepped(dt).0.timer.finished
            && a.stepped(dt).1.detach,
        a.timer.finished ==> !a.stepped(dt).1.completed && !a.stepped(dt).1.detach
            && a.stepped(dt).0.timer.finished,
{
}

/// The animation state after a whole sequence of frames, paired with the
/// number of completions reported along the way.
pub open spec fn run_frames(a: Animation, dts: Seq<u64>) -> (Animation, nat)
    decreases dts.len(),
{
    if dts.len() == 0 {
        (a, 0)
    } else {
        let stepped = a.stepped(dts[0]);
        let rest = run_frames(stepped.0, dts.drop_first());
        (rest.0, rest.1 + if stepped.1.completed { 1nat } else { 0nat })
    }
}

/// A tick preserves the animation's invariant and its configuration.
pub proof fn lemma_stepped_wf(a: Animation, dt: u64)
    requires
        a.wf(),
    ensures
        a.stepped(dt).0.wf(),
        a.stepped(dt).0.vars == a.vars,
{
}

/// Over any whole sequence of frames, a one-shot animation completes at
/// most once; the completion has happened exactly when the duration timer
/// ends up finished, and a spent animation never completes again.
pub proof fn lemma_one_shot_completes_once_over_a_run(a: Animation, dts: Seq<u64>)
    requires
        a.wf(),
        !a.vars.repeat,
    ensures
        run_frames(a, dts).1 <= 1,
        a.timer.finished ==> run_frames(a, dts).1 == 0 && run_frames(a, dts).0.timer.finished,
        run_frames(a, dts).1 == 1 <==> (!a.timer.finished && run_frames(a, dts).0.timer.finished),
    decreases dts.len(),
{
    if dts.len() > 0 {
        let stepped = a.stepped(dts[0]);
        lemma_stepped_wf(a, dts[0]);
        lemma_one_shot_completes_once(a, dts[0]);
        lemma_one_shot_completes_once_over_a_run(stepped.0, dts.drop_first());
    }
}

/// Under repeat with yoyo, the playback direction flips on exactly the
/// completing ticks, alternating between forward and backward.
pub proof fn lemma_yoyo_flips_direction_once_per_completion(a: Animation, dt: u64)
    requires
        a.wf(),
        a.vars.repeat,
        a.vars.yoyo,
    ensures
        a.stepped(dt).1.completed ==> a.stepped(dt).0.direction == -a.direction,
        !a.stepped(dt).1.completed ==> a.stepped(dt).0.direction == a.direction,
        a.stepped(dt).0.direction == 1 || a.stepped(dt).0.direction == -1,
{
}

/// Over any whole sequence of frames, a repeat-with-yoyo animation's
/// direction has flipped once per completion: it still points the starting
/// way after an even number of completions and the opposite way after an
/// odd number.
pub proof fn lemma_yoyo_alternates_over_a_run(a: Animation, dts: Seq<u64>)
    requires
        a.wf(),
        a.vars.repeat,
        a.vars.yoyo,
    ensures
        run_frames(a, dts).0.direction == (if run_frames(a, dts).1 % 2 == 0 {
            a.direction as int
        } else {
            -a.direction as int
        }),
    decreases dts.len(),
{
    if dts.len() > 0 {
        let stepped = a.stepped(dts[0]);
        lemma_stepped_wf(a, dts[0]);
        lemma_yoyo_flips_direction_once_per_completion(a, dts[0]);
        lemma_yoyo_alternates_over_a_run(stepped.0, dts.drop_first());
    }
}

/// A paused animation is frozen exactly: a tick leaves both elapsed-time
/// accumulators and everything else untouched and asks for nothing, so
/// resuming continues from the same progress.
pub proof fn lemma_pause_freezes(a: Animation, dt: u64)
    requires
        a.wf(),
        a.vars.paused,
    ensures
        a.stepped(dt).0 == a,
        a.stepped(dt).1 == (Advance { sample: None::<Sample>, completed: false, detach: false }),
{
}

} // verus!
