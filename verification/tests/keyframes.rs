use xnb_assets::{Interpolation, VisualEffectProperty, VisualEffectPropertyKeyframe};

fn kf(time: u32, value: f32) -> VisualEffectPropertyKeyframe {
    VisualEffectPropertyKeyframe {
        time,
        value: value.to_bits(),
    }
}

fn interpolate_f32(p: &VisualEffectProperty, current_time: f32, fps: u32) -> f32 {
    let frame = (current_time * fps as f32) as u32;
    match p.interpolate(frame) {
        Interpolation::Value(bits) => f32::from_bits(bits),
        Interpolation::Blend { v0, v1, num, den } => {
            let t = num as f32 / den as f32;
            let a = f32::from_bits(v0);
            let b = f32::from_bits(v1);
            a + (b - a) * t
        }
    }
}

/// Clamped below and above the keyframe range, linear inside it.
#[test]
fn interpolation_boundaries() {
    let p = VisualEffectProperty::Animated(vec![kf(0, 0.0), kf(10, 1.0)]);
    assert_eq!(interpolate_f32(&p, -5.0, 1), 0.0);
    assert_eq!(interpolate_f32(&p, 5.0, 1), 0.5);
    assert_eq!(interpolate_f32(&p, 15.0, 1), 1.0);
}

#[test]
fn interpolation_picks_bracketing_pair() {
    let p = VisualEffectProperty::Animated(vec![kf(0, 0.0), kf(4, 8.0), kf(8, 0.0)]);
    assert_eq!(interpolate_f32(&p, 2.0, 1), 4.0);
    assert_eq!(interpolate_f32(&p, 4.0, 1), 8.0);
    assert_eq!(interpolate_f32(&p, 6.0, 1), 4.0);
}

#[test]
fn constant_is_constant() {
    let p = VisualEffectProperty::Constant(2.5f32.to_bits());
    assert_eq!(interpolate_f32(&p, -100.0, 30), 2.5);
    assert_eq!(interpolate_f32(&p, 100.0, 30), 2.5);
}

/// Unsorted input with duplicate times ends up strictly ascending and
/// duplicate-free, one entry per distinct input time, keeping the first
/// value seen for each time.
#[test]
fn keyframes_sorted_and_deduplicated() {
    let input = vec![kf(5, 1.0), kf(1, 2.0), kf(5, 9.0), kf(3, 4.0), kf(1, 7.0)];
    let p = VisualEffectProperty::animated(&input);
    let ks = match p {
        VisualEffectProperty::Animated(ks) => ks,
        other => panic!("expected an animated property, got {:?}", other),
    };
    assert_eq!(ks.len(), 3);
    assert_eq!(ks[0], kf(1, 2.0));
    assert_eq!(ks[1], kf(3, 4.0));
    assert_eq!(ks[2], kf(5, 1.0));
}

#[test]
fn keyframes_already_sorted_kept() {
    let input = vec![kf(0, 0.0), kf(10, 1.0)];
    let p = VisualEffectProperty::animated(&input);
    match p {
        VisualEffectProperty::Animated(ks) => assert_eq!(ks, input),
        other => panic!("expected an animated property, got {:?}", other),
    }
}
