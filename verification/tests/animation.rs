use ui_animation::driver::{Animator, Props, RotationInput, Track};
use ui_animation::ease::Ease;
use ui_animation::event::CompleteEvent;
use ui_animation::fixed::{Fx, SCALE};
use ui_animation::lerp::{Color, Quat, Text, Transform, Vec3};
use ui_animation::{Animation, TextColor, TransformRotation, Vars};

fn fx(units: i32) -> Fx {
    Fx::whole(units)
}

fn plain_props() -> Props {
    Props {
        style: Default::default(),
        color: Some(Color::default()),
        transform: Transform::default(),
        text: None,
    }
}

fn no_rotation() -> RotationInput {
    RotationInput { transform: None, axis_angle: None }
}

/// The eased delta of the linear curve, straight from raw progress.
fn linear_delta(elapsed: u64, duration: u64, forward: bool) -> Fx {
    let progress = elapsed as f32 / duration as f32;
    let progress = if forward { progress } else { 1.0 - progress };
    Fx { bits: (progress * SCALE as f32).round() as i64 }
}

#[test]
fn default_vars() {
    let vars = Vars::default();
    assert!(vars.style.is_none());
    assert!(vars.color.is_none());
    assert!(vars.transform.is_none());
    assert!(vars.transform_rotation.is_none());
    assert!(vars.text_color.is_none());
    assert_eq!(vars.delay, 0);
    assert_eq!(vars.duration, 500);
    assert!(matches!(vars.ease, Ease::ExpoOut));
    assert!(!vars.repeat);
    assert!(!vars.yoyo);
    assert!(!vars.paused);
}

#[test]
fn rotation_constructors_negate_the_degree() {
    let x = TransformRotation::x(fx(90));
    assert_eq!(x.axis, Vec3 { x: fx(1), y: fx(0), z: fx(0) });
    assert_eq!(x.degree, fx(-90));

    let y = TransformRotation::y(fx(45));
    assert_eq!(y.axis, Vec3 { x: fx(0), y: fx(1), z: fx(0) });
    assert_eq!(y.degree, fx(-45));

    let z = TransformRotation::z(fx(-30));
    assert_eq!(z.axis, Vec3 { x: fx(0), y: fx(0), z: fx(1) });
    assert_eq!(z.degree, fx(30));
}

#[test]
fn one_shot_completes_exactly_once() {
    let mut a = Animation::new(Vars { duration: 2000, ..Default::default() });
    let mut completions: u32 = 0;

    let adv = a.tick(700);
    assert!(!adv.completed && !adv.detach);
    let s = adv.sample.unwrap();
    assert_eq!((s.elapsed, s.duration, s.forward), (700, 2000, true));

    let adv = a.tick(700);
    assert!(!adv.completed && !adv.detach);
    assert_eq!(adv.sample.unwrap().elapsed, 1400);

    // accumulated time first reaches the duration on this tick
    let adv = a.tick(700);
    assert!(adv.completed && adv.detach);
    if adv.completed {
        completions += 1;
    }
    assert_eq!(adv.sample.unwrap().elapsed, 2000);

    // a spent animation never completes again, even if the host keeps it
    for _ in 0..5 {
        let adv = a.tick(700);
        assert!(!adv.completed && !adv.detach);
        if adv.completed {
            completions += 1;
        }
    }
    assert_eq!(completions, 1);
}

#[test]
fn completion_detaches_state_and_baseline_together() {
    let mut animator = Animator::new();
    let entity: u64 = 42;
    animator.attach(entity, Vars { duration: 1000, ..Default::default() });
    assert_eq!(animator.len(), 1);

    let props = plain_props();
    let mut events: Vec<CompleteEvent> = Vec::new();

    let i = animator.find(entity).unwrap();
    let track = animator.track_at(i);
    let adv = track.animation.tick(1000);
    if adv.sample.is_some() {
        track.ensure_baseline(&props);
    }
    assert!(adv.completed && adv.detach);
    if adv.completed {
        events.push(CompleteEvent { entity });
    }
    if adv.detach {
        assert!(animator.detach(entity));
    }

    assert_eq!(animator.len(), 0);
    assert!(animator.find(entity).is_none());
    assert!(!animator.detach(entity));
    assert_eq!(events.len(), 1);
    assert_eq!(events[0].entity, entity);
}

#[test]
fn repeat_yoyo_flips_direction_once_per_completion() {
    let mut a = Animation::new(Vars {
        duration: 1000,
        repeat: true,
        yoyo: true,
        ..Default::default()
    });

    // first cycle plays forward
    let adv = a.tick(400);
    assert!(adv.sample.unwrap().forward);
    let adv = a.tick(600);
    assert!(adv.completed && !adv.detach);
    assert!(adv.sample.unwrap().forward);
    assert_eq!(a.direction, -1);

    // second cycle plays backward, then flips again on its completion
    let adv = a.tick(400);
    assert!(!adv.sample.unwrap().forward);
    assert!(!adv.completed);
    assert_eq!(a.direction, -1);
    let adv = a.tick(600);
    assert!(adv.completed);
    assert_eq!(a.direction, 1);

    // third cycle plays forward again
    let adv = a.tick(400);
    assert!(adv.sample.unwrap().forward);
}

#[test]
fn baseline_is_captured_once_and_kept() {
    let mut track = Track::new(Vars {
        color: Some(Color { red: fx(0), green: fx(0), blue: fx(0), alpha: fx(1) }),
        duration: 1000,
        repeat: true,
        yoyo: true,
        ease: Ease::Linear,
        ..Default::default()
    });
    let mut props = plain_props();

    let adv = track.animation.tick(500);
    let s = adv.sample.unwrap();
    track.ensure_baseline(&props);
    track.apply(&mut props, linear_delta(s.elapsed, s.duration, s.forward), &no_rotation());

    // the live color has moved; the baseline must not follow it
    let moved = props.color.unwrap();
    assert_eq!(moved.red, Fx { bits: SCALE / 2 });

    let adv = track.animation.tick(500);
    let s = adv.sample.unwrap();
    assert!(adv.completed);
    track.ensure_baseline(&props);
    track.apply(&mut props, linear_delta(s.elapsed, s.duration, s.forward), &no_rotation());

    // progress 1 lands exactly on the target, blended from the original white
    assert_eq!(
        props.color.unwrap(),
        Color { red: fx(0), green: fx(0), blue: fx(0), alpha: fx(1) }
    );

    // the reversed cycle blends back toward the original baseline
    let adv = track.animation.tick(500);
    let s = adv.sample.unwrap();
    assert!(!s.forward);
    track.ensure_baseline(&props);
    track.apply(&mut props, linear_delta(s.elapsed, s.duration, s.forward), &no_rotation());
    assert_eq!(props.color.unwrap().red, Fx { bits: SCALE / 2 });
}

#[test]
fn pause_freezes_both_accumulators() {
    let mut a = Animation::new(Vars {
        delay: 500,
        duration: 1000,
        ..Default::default()
    });

    let adv = a.tick(300);
    assert!(adv.sample.is_none());
    assert_eq!(a.delay_timer.elapsed, 300);
    assert_eq!(a.timer.elapsed, 0);

    a.pause();
    for _ in 0..10 {
        let adv = a.tick(250);
        assert!(adv.sample.is_none() && !adv.completed);
    }
    assert_eq!(a.delay_timer.elapsed, 300);
    assert_eq!(a.timer.elapsed, 0);

    // resuming continues from the same point, not from zero
    a.play();
    let adv = a.tick(300);
    assert!(adv.sample.is_some());
    assert_eq!(a.delay_timer.elapsed, 500);
    assert_eq!(a.timer.elapsed, 300);

    a.pause();
    let _ = a.tick(999);
    assert_eq!(a.timer.elapsed, 300);
    a.play();
    let adv = a.tick(400);
    assert_eq!(adv.sample.unwrap().elapsed, 700);
}

#[test]
fn delay_gates_the_start() {
    let mut a = Animation::new(Vars {
        delay: 500,
        duration: 1000,
        ..Default::default()
    });

    let adv = a.tick(499);
    assert!(adv.sample.is_none() && !adv.completed);

    // the tick that finishes the delay also feeds the duration timer
    let adv = a.tick(400);
    assert_eq!(adv.sample.unwrap().elapsed, 400);
}

#[test]
fn repeat_does_not_reapply_the_delay() {
    let mut a = Animation::new(Vars {
        delay: 500,
        duration: 500,
        repeat: true,
        ..Default::default()
    });

    let adv = a.tick(500);
    assert!(adv.sample.is_some());
    let adv = a.tick(500);
    assert!(adv.completed);

    // the next cycle starts at once: no second delay
    let adv = a.tick(250);
    assert_eq!(adv.sample.unwrap().elapsed, 250);
}

#[test]
fn zero_duration_completes_without_interpolating() {
    let mut a = Animation::new(Vars { duration: 0, ..Default::default() });
    let adv = a.tick(16);
    assert!(adv.sample.is_none());
    assert!(adv.completed && adv.detach);
    let adv = a.tick(16);
    assert!(!adv.completed);
}

#[test]
fn linear_color_scenario_reaches_half_blend_midway() {
    // color target red on a white target, duration two seconds, linear curve
    let red = Color::red();
    let mut track = Track::new(Vars {
        color: Some(red),
        duration: 2000,
        ease: Ease::Linear,
        ..Default::default()
    });
    let mut props = plain_props();
    assert_eq!(props.color.unwrap(), Color::default());

    // one second in, the written color is the exact 50% blend of white and red
    let adv = track.animation.tick(1000);
    let s = adv.sample.unwrap();
    assert_eq!((s.elapsed, s.duration), (1000, 2000));
    track.ensure_baseline(&props);
    track.apply(&mut props, linear_delta(s.elapsed, s.duration, s.forward), &no_rotation());

    let written = props.color.unwrap();
    let half = Fx { bits: SCALE / 2 };
    assert_eq!(written, Color { red: fx(1), green: half, blue: half, alpha: fx(1) });
}

#[test]
fn text_section_blend_touches_only_its_section() {
    let red = Color::red();
    let mut track = Track::new(Vars {
        text_color: Some(TextColor { target: red, section: 1 }),
        duration: 1000,
        ease: Ease::Linear,
        ..Default::default()
    });
    let mut props = Props {
        style: Default::default(),
        color: None,
        transform: Transform::default(),
        text: Some(Text { sections: vec![Color::default(), Color::default()] }),
    };

    let adv = track.animation.tick(1000);
    let s = adv.sample.unwrap();
    track.ensure_baseline(&props);
    track.apply(&mut props, linear_delta(s.elapsed, s.duration, s.forward), &no_rotation());

    let sections = &props.text.as_ref().unwrap().sections;
    assert_eq!(sections[0], Color::default());
    assert_eq!(sections[1], red);
}

#[test]
fn axis_rotation_overwrites_only_the_rotation() {
    let mut track = Track::new(Vars {
        transform_rotation: Some(TransformRotation::z(fx(180))),
        duration: 1000,
        ease: Ease::Linear,
        ..Default::default()
    });
    let mut props = plain_props();
    let before = props.transform;

    let adv = track.animation.tick(500);
    let s = adv.sample.unwrap();
    track.ensure_baseline(&props);

    // the host re-derives the rotation from the fixed axis and the blended
    // angle; the driver installs it verbatim
    let quarter = Quat { x: fx(0), y: fx(0), z: Fx { bits: 46341 }, w: Fx { bits: 46341 } };
    let rotation = RotationInput { transform: None, axis_angle: Some(quarter) };
    track.apply(&mut props, linear_delta(s.elapsed, s.duration, s.forward), &rotation);

    assert_eq!(props.transform.rotation, quarter);
    assert_eq!(props.transform.translation, before.translation);
    assert_eq!(props.transform.scale, before.scale);
}

#[test]
fn registry_pause_and_play_by_target() {
    let mut animator = Animator::new();
    animator.attach(7, Vars { duration: 1000, ..Default::default() });
    animator.attach(9, Vars { duration: 1000, ..Default::default() });
    assert_eq!(animator.len(), 2);

    assert!(animator.pause(7));
    assert!(!animator.pause(8));

    let i = animator.find(7).unwrap();
    let adv = animator.track_at(i).animation.tick(400);
    assert!(adv.sample.is_none());

    let j = animator.find(9).unwrap();
    let adv = animator.track_at(j).animation.tick(400);
    assert_eq!(adv.sample.unwrap().elapsed, 400);

    assert!(animator.play(7));
    let i = animator.find(7).unwrap();
    let adv = animator.track_at(i).animation.tick(400);
    assert_eq!(adv.sample.unwrap().elapsed, 400);
}

#[test]
fn reattaching_keeps_a_captured_baseline() {
    let red = Color::red();
    let mut animator = Animator::new();
    animator.attach(3, Vars {
        color: Some(red),
        duration: 1000,
        ease: Ease::Linear,
        ..Default::default()
    });

    let mut props = plain_props();
    let i = animator.find(3).unwrap();
    let track = animator.track_at(i);
    let adv = track.animation.tick(500);
    let s = adv.sample.unwrap();
    track.ensure_baseline(&props);
    track.apply(&mut props, linear_delta(s.elapsed, s.duration, s.forward), &no_rotation());
    assert_eq!(props.color.unwrap().green, Fx { bits: SCALE / 2 });

    // a replacement animation on the same target blends from the original
    // baseline, not from the half-blended live value
    animator.attach(3, Vars {
        color: Some(red),
        duration: 1000,
        ease: Ease::Linear,
        ..Default::default()
    });
    let i = animator.find(3).unwrap();
    let track = animator.track_at(i);
    let adv = track.animation.tick(1000);
    let s = adv.sample.unwrap();
    track.ensure_baseline(&props);
    track.apply(&mut props, linear_delta(s.elapsed, s.duration, s.forward), &no_rotation());
    assert_eq!(props.color.unwrap(), red);
}
