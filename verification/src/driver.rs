//! The per-frame update driver.
//!
//! A [`Track`] pairs one target's [`Animation`] with its lazily captured
//! [`Baseline`].  Each frame the host advances the animation
//! ([`Animation::tick`]), and, when the frame asks for property writes,
//! captures the baseline if none exists yet ([`Track::ensure_baseline`]),
//! computes the eased progress scalar and the blended rotations on its own
//! scalar type, and lets [`Track::apply`] blend every targeted property from
//! the baseline and write it back.  [`Animator`] is the registry of live
//! tracks, keyed by target identity.

use vstd::prelude::*;
use crate::Animation;
use crate::Vars;
use crate::fixed::{Fx, delta_ok};
use crate::lerp::{
    Color, Quat, Style, Text, Transform, color_lerped, color_ok, style_lerped, style_ok,
    text_view, transform_lerped, transform_ok,
};

verus! {

/// A target's live property values, read and written in place each frame.
pub struct Props {
    /// The layout style.
    pub style: Style,
    /// The color, if the target has one.
    pub color: Option<Color>,
    /// The transform.
    pub transform: Transform,
    /// The text block's section colors, if the target has text.
    pub text: Option<Text>,
}

/// The property values captured when an animation first becomes active;
/// every later frame blends from these, never from an intermediate value.
pub struct Baseline {
    pub style: Style,
    pub color: Option<Color>,
    pub transform: Transform,
    pub text: Option<Text>,
}

/// The host-blended rotations of one frame: quaternion interpolation is
/// floating-point work, so the driver takes its results as inputs.
pub struct RotationInput {
    /// The spherical blend of baseline and target orientation, present when
    /// the animation targets a transform.
    pub transform: Option<Quat>,
    /// The rotation re-derived from a fixed axis and the blended angle,
    /// present when the animation targets an axis-angle rotation.
    pub axis_angle: Option<Quat>,
}

/// One target's animation state and baseline.
pub struct Track {
    pub animation: Animation,
    pub baseline: Option<Baseline>,
}

/// Whether every color a text block holds is in blending range.
pub open spec fn text_ok(t: Text) -> bool {
    forall|i: int| 0 <= i < t.sections@.len() ==> color_ok(#[trigger] t.sections@[i])
}

/// Whether a property set's values are in blending range.
pub open spec fn props_ok(p: Props) -> bool {
    &&& style_ok(p.style)
    &&& p.color is Some ==> color_ok(p.color->0)
    &&& transform_ok(p.transform)
    &&& p.text is Some ==> text_ok(p.text->0)
}

/// Whether a baseline's values are in blending range.
pub open spec fn baseline_ok(b: Baseline) -> bool {
    &&& style_ok(b.style)
    &&& b.color is Some ==> color_ok(b.color->0)
    &&& transform_ok(b.transform)
    &&& b.text is Some ==> text_ok(b.text->0)
}

/// Whether a spec's target values are in blending range.
pub open spec fn targets_ok(v: Vars) -> bool {
    &&& v.style is Some ==> style_ok(v.style->0)
    &&& v.color is Some ==> color_ok(v.color->0)
    &&& v.transform is Some ==> transform_ok(v.transform->0)
    &&& v.text_color is Some ==> color_ok(v.text_color->0.target)
}

/// An exact copy of a text block.
fn clone_text(t: &Text) -> (r: Text)
    ensures
        r.sections@ == t.sections@,
{
    let mut sections: Vec<Color> = Vec::new();
    let mut i: usize = 0;
    while i < t.sections.len()
        invariant
            i <= t.sections@.len(),
            sections@ == t.sections@.subrange(0, i as int),
        decreases t.sections@.len() - i,
    {
        sections.push(t.sections[i]);
        i = i + 1;
    }
    proof {
        assert(sections@ =~= t.sections@);
    }
    Text { sections }
}

impl Track {
    /// A fresh track: a new animation and no baseline yet.
    pub fn new(vars: Vars) -> (t: Track)
        ensures
            t.animation == Animation::initial(vars),
            t.baseline is None,
            t.animation.wf(),
    {
        Track { animation: Animation::new(vars), baseline: None }
    }

    /// Captures the baseline from the target's current values if none was
    /// captured yet; an existing baseline is never overwritten, so the
    /// animation keeps blending from the original starting values across
    /// every repeat and yoyo cycle.
    pub fn ensure_baseline(&mut self, props: &Props)
        requires
            props_ok(*props),
        ensures
            final(self).animation == old(self).animation,
            old(self).baseline is Some ==> *final(self) == *old(self),
            final(self).baseline is Some,
            old(self).baseline is None ==> {
                let b = final(self).baseline->0;
                &&& b.style == props.style
                &&& b.color == props.color
                &&& b.transform == props.transform
                &&& text_view(b.text) == text_view(props.text)
            },
            old(self).baseline is None ==> baseline_ok(final(self).baseline->0),
    {
        if self.baseline.is_none() {
            let text = match &props.text {
                Some(t) => Some(clone_text(t)),
                None => None,
            };
            self.baseline = Some(Baseline {
                style: props.style,
                color: props.color,
                transform: props.transform,
                text,
            });
        }
    }

    /// Blends every property the animation targets from the baseline toward
    /// its target value by the eased progress `delta`, and writes the result
    /// into `props`; untargeted properties are untouched.  A color or text
    /// write also needs the property present on both the target and the
    /// baseline; otherwise it is skipped.
    pub fn apply(&self, props: &mut Props, delta: Fx, rotation: &RotationInput)
        requires
            self.baseline is Some,
            baseline_ok(self.baseline->0),
            targets_ok(self.animation.vars),
            props_ok(*old(props)),
            delta_ok(delta),
            self.animation.vars.transform is Some ==> rotation.transform is Some,
            self.animation.vars.transform_rotation is Some ==> rotation.axis_angle is Some,
            self.animation.vars.text_color is Some && old(props).text is Some
                && self.baseline->0.text is Some ==> {
                let section = self.animation.vars.text_color->0.section;
                &&& section < self.baseline->0.text->0.sections@.len()
                &&& section < old(props).text->0.sections@.len()
            },
        ensures
            final(props).style == (if self.animation.vars.style is Some {
                style_lerped(self.baseline->0.style, self.animation.vars.style->0, delta)
            } else {
                old(props).style
            }),
            final(props).color == (if self.animation.vars.color is Some
                && old(props).color is Some && self.baseline->0.color is Some {
                Some(color_lerped(self.baseline->0.color->0, self.animation.vars.color->0, delta))
            } else {
                old(props).color
            }),
            final(props).transform == {
                let blended = if self.animation.vars.transform is Some {
                    transform_lerped(
                        self.baseline->0.transform,
                        self.animation.vars.transform->0,
                        delta,
                        rotation.transform->0,
                    )
                } else {
                    old(props).transform
                };
                if self.animation.vars.transform_rotation is Some {
                    Transform { rotation: rotation.axis_angle->0, ..blended }
                } else {
                    blended
                }
            },
            text_view(final(props).text) == (if self.animation.vars.text_color is Some
                && old(props).text is Some && self.baseline->0.text is Some {
                let tc = self.animation.vars.text_color->0;
                let base_color = self.baseline->0.text->0.sections@[tc.section as int];
                Some(text_view(old(props).text)->0.update(
                    tc.section as int,
                    color_lerped(base_color, tc.target, delta),
                ))
            } else {
                text_view(old(props).text)
            }),
    {
        let baseline = match &self.baseline {
            Some(b) => b,
            None => {
                proof {
                    assert(false);
                }
                unreached()
            },
        };
        if let Some(target) = &self.animation.vars.style {
            props.style = baseline.style.lerp(target, delta);
        }
        if let Some(target) = &self.animation.vars.color {
            if props.color.is_some() {
                if let Some(source) = &baseline.color {
                    props.color = Some(source.lerp(target, delta));
                }
            }
        }
        if let Some(target) = &self.animation.vars.transform {
            let rot = match &rotation.transform {
                Some(q) => *q,
                None => {
                    proof {
                        assert(false);
                    }
                    unreached()
                },
            };
            props.transform = baseline.transform.lerp(target, delta, rot);
        }
        if self.animation.vars.transform_rotation.is_some() {
            let rot = match &rotation.axis_angle {
                Some(q) => *q,
                None => {
                    proof {
                        assert(false);
                    }
                    unreached()
                },
            };
            props.transform.rotation = rot;
        }
        if let Some(tc) = &self.animation.vars.text_color {
            if let Some(base_text) = &baseline.text {
                if let Some(text) = &mut props.text {
                    let source = base_text.sections[tc.section];
                    let blended = source.lerp(&tc.target, delta);
                    let slot = &mut text.sections[tc.section];
                    *slot = blended;
                }
            }
        }
    }
}

/// One registry entry: a target's identity and its track.
pub struct Slot {
    pub entity: u64,
    pub track: Track,
}

/// The update driver's registry of live animations, mapping target identity
/// to an animation state and its baseline.  Attaching inserts, a completed
/// one-shot animation is detached, and both the state and the baseline
/// leave the registry together.
pub struct Animator {
    pub slots: Vec<Slot>,
}

/// In a well-formed registry an entry's position is determined by its
/// target identity.
pub proof fn lemma_index_of_unique(a: Animator, entity: u64, i: int)
    requires
        a.wf(),
        0 <= i < a.slots@.len(),
        a.slots@[i].entity == entity,
    ensures
        a.contains(entity),
        a.index_of(entity) == i,
{
    assert(a.contains(entity));
    let k = a.index_of(entity);
    assert(0 <= k < a.slots@.len() && a.slots@[k].entity == entity);
    if k < i {
        assert(a.slots@[k].entity != a.slots@[i].entity);
        assert(false);
    } else if k > i {
        assert(a.slots@[i].entity != a.slots@[k].entity);
        assert(false);
    }
}

impl Animator {
    /// The registry's invariant: each target identity occurs at most once.
    pub open spec fn wf(self) -> bool {
        forall|i: int, j: int|
            0 <= i < j < self.slots@.len() ==> #[trigger] self.slots@[i].entity != #[trigger] self.slots@[j].entity
    }

    /// Whether a target currently has an animation attached.
    pub open spec fn contains(self, entity: u64) -> bool {
        exists|i: int| 0 <= i < self.slots@.len() && #[trigger] self.slots@[i].entity == entity
    }

    /// The position of a target's entry.
    pub open spec fn index_of(self, entity: u64) -> int {
        choose|i: int| 0 <= i < self.slots@.len() && #[trigger] self.slots@[i].entity == entity
    }

    /// An empty registry.
    pub fn new() -> (a: Animator)
        ensures
            a.slots@.len() == 0,
            a.wf(),
    {
        Animator { slots: Vec::new() }
    }

    /// How many animations are live.
    pub fn len(&self) -> (n: usize)
        ensures
            n == self.slots@.len(),
    {
        self.slots.len()
    }

    /// The position of `entity`'s entry, if it has one.
    pub fn find(&self, entity: u64) -> (r: Option<usize>)
        requires
            self.wf(),
        ensures
            r is Some ==> self.contains(entity) && r->0 == self.index_of(entity)
                && r->0 < self.slots@.len() && self.slots@[r->0 as int].entity == entity,
            r is None ==> !self.contains(entity),
    {
        let mut i: usize = 0;
        while i < self.slots.len()
            invariant
                self.wf(),
                i <= self.slots@.len(),
                forall|k: int| 0 <= k < i ==> #[trigger] self.slots@[k].entity != entity,
            decreases self.slots@.len() - i,
        {
            if self.slots[i].entity == entity {
                proof {
                    lemma_index_of_unique(*self, entity, i as int);
                }
                return Some(i);
            }
            i = i + 1;
        }
        None
    }

    /// Attaches an animation to a target.  A target that already had one
    /// gets a fresh animation state in its place; a baseline already
    /// captured for it stays, so the replacement keeps blending from the
    /// original starting values.
    pub fn attach(&mut self, entity: u64, vars: Vars)
        requires
            old(self).wf(),
        ensures
            final(self).wf(),
            final(self).contains(entity),
            !old(self).contains(entity) ==> final(self).slots@ == old(self).slots@.push(
                Slot { entity, track: Track { animation: Animation::initial(vars), baseline: None } },
            ),
            old(self).contains(entity) ==> {
                let i = old(self).index_of(entity);
                final(self).slots@ == old(self).slots@.update(i, Slot {
                    entity,
                    track: Track {
                        animation: Animation::initial(vars),
                        baseline: old(self).slots@[i].track.baseline,
                    },
                })
            },
    {
        match self.find(entity) {
            Some(i) => {
                let slot = &mut self.slots[i];
                slot.track.animation = Animation::new(vars);
                proof {
                    assert(self.slots@[i as int].entity == entity);
                    assert(self.contains(entity));
                    assert forall|p: int, q: int|
                        0 <= p < q < self.slots@.len() implies
                        self.slots@[p].entity != self.slots@[q].entity by {
                        assert(self.slots@[p].entity == old(self).slots@[p].entity);
                        assert(self.slots@[q].entity == old(self).slots@[q].entity);
                    }
                }
            },
            None => {
                self.slots.push(Slot { entity, track: Track::new(vars) });
                proof {
                    assert(self.slots@[self.slots@.len() - 1].entity == entity);
                    assert(self.contains(entity));
                }
            },
        }
    }

    /// Removes a target's animation and its baseline together; reports
    /// whether there was one.
    pub fn detach(&mut self, entity: u64) -> (removed: bool)
        requires
            old(self).wf(),
        ensures
            final(self).wf(),
            removed == old(self).contains(entity),
            !final(self).contains(entity),
            removed ==> final(self).slots@ == old(self).slots@.remove(old(self).index_of(entity)),
            !removed ==> *final(self) == *old(self),
    {
        match self.find(entity) {
            Some(i) => {
                self.slots.remove(i);
                proof {
                    assert forall|p: int, q: int|
                        0 <= p < q < self.slots@.len() implies
                        self.slots@[p].entity != self.slots@[q].entity by {
                        if p < i {
                            assert(self.slots@[p].entity == old(self).slots@[p].entity);
                        } else {
                            assert(self.slots@[p].entity == old(self).slots@[p + 1].entity);
                        }
                        if q < i {
                            assert(self.slots@[q].entity == old(self).slots@[q].entity);
                        } else {
                            assert(self.slots@[q].entity == old(self).slots@[q + 1].entity);
                        }
                    }
                    assert forall|k: int| 0 <= k < self.slots@.len() implies
                        self.slots@[k].entity != entity by {
                        if k < i {
                            assert(self.slots@[k].entity == old(self).slots@[k].entity);
                        } else {
                            assert(self.slots@[k].entity == old(self).slots@[k + 1].entity);
                        }
                    }
                }
                true
            },
            None => false,
        }
    }

    /// Mutable access to the track at position `i`, for advancing and
    /// sampling it; the target identity at `i` cannot change through it.
    pub fn track_at(&mut self, i: usize) -> (t: &mut Track)
        requires
            i < old(self).slots@.len(),
        ensures
            *t == old(self).slots@[i as int].track,
            final(self).slots@ == old(self).slots@.update(i as int, Slot {
                entity: old(self).slots@[i as int].entity,
                track: *final(t),
            }),
    {
        let slot = &mut self.slots[i];
        &mut slot.track
    }

    /// Freezes `entity`'s animation; reports whether it had one.
    pub fn pause(&mut self, entity: u64) -> (found: bool)
        requires
            old(self).wf(),
        ensures
            final(self).wf(),
            found == old(self).contains(entity),
            !found ==> *final(self) == *old(self),
            found ==> {
                let i = old(self).index_of(entity);
                let a = old(self).slots@[i].track.animation;
                final(self).slots@ == old(self).slots@.update(i, Slot {
                    entity,
                    track: Track {
                        animation: Animation {
                            vars: Vars { paused: true, ..a.vars },
                            ..a
                        },
                        baseline: old(self).slots@[i].track.baseline,
                    },
                })
            },
    {
        match self.find(entity) {
            Some(i) => {
                let slot = &mut self.slots[i];
                slot.track.animation.pause();
                proof {
                    assert forall|p: int, q: int|
                        0 <= p < q < self.slots@.len() implies
                        self.slots@[p].entity != self.slots@[q].entity by {
                        assert(self.slots@[p].entity == old(self).slots@[p].entity);
                        assert(self.slots@[q].entity == old(self).slots@[q].entity);
                    }
                }
                true
            },
            None => false,
        }
    }

    /// Resumes `entity`'s animation from wherever its playhead is; reports
    /// whether it had one.
    pub fn play(&mut self, entity: u64) -> (found: bool)
        requires
            old(self).wf(),
        ensures
            final(self).wf(),
            found == old(self).contains(entity),
            !found ==> *final(self) == *old(self),
            found ==> {
                let i = old(self).index_of(entity);
                let a = old(self).slots@[i].track.animation;
                final(self).slots@ == old(self).slots@.update(i, Slot {
                    entity,
                    track: Track {
                        animation: Animation {
                            vars: Vars { paused: false, ..a.vars },
                            ..a
                        },
                        baseline: old(self).slots@[i].track.baseline,
                    },
                })
            },
    {
        match self.find(entity) {
            Some(i) => {
                let slot = &mut self.slots[i];
                slot.track.animation.play();
                proof {
                    assert forall|p: int, q: int|
                        0 <= p < q < self.slots@.len() implies
                        self.slots@[p].entity != self.slots@[q].entity by {
                        assert(self.slots@[p].entity == old(self).slots@[p].entity);
                        assert(self.slots@[q].entity == old(self).slots@[q].entity);
                    }
                }
                true
            },
            None => false,
        }
    }
}

} // verus!
