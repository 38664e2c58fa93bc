use spiral::params::ParameterState;
use spiral::render::{render, Hsla, COLOR_DEN, LINE_WEIGHT, SWEEP_DEN, TOTAL_POINTS};

#[test]
fn default_frame_starts_on_the_axis_and_ends_bright() {
    let s = ParameterState::new();
    let f = render(&s);
    let first = f.segments[0];
    assert_eq!(first.start.sweep, 0);
    // Position of the angle-zero sample, as the presentation side computes it.
    let angle = 2.0 * std::f64::consts::PI * first.start.sweep as f64 / SWEEP_DEN as f64;
    let size = f.shape.spiral_size as f64 / 1000.0;
    let n = f.shape.n as f64 / 1000.0;
    let multiplier = f.shape.multiplier as f64 / 1000.0;
    let radius = size * (1.0 + angle / n);
    let x = radius * angle.cos() * multiplier;
    let y = radius * angle.sin() * multiplier;
    assert!((x - 50.0).abs() < 1e-9);
    assert!(y.abs() < 1e-9);
    let last = f.segments[f.segments.len() - 1];
    assert_eq!(last.color.hue, COLOR_DEN);
    assert_eq!(last.color.lightness * 10, 8 * COLOR_DEN);
    assert!(((last.color.hue as f64) / COLOR_DEN as f64 - 1.0).abs() < 1e-9);
    assert!(((last.color.lightness as f64) / COLOR_DEN as f64 - 0.8).abs() < 1e-9);
}

#[test]
fn frame_has_total_points_segments_for_any_state() {
    let mut s = ParameterState::new();
    assert_eq!(render(&s).segments.len(), 2000);
    for _ in 0..20 {
        s.increase_turns();
        s.decrease_n();
        s.increase_multiplier();
    }
    assert_eq!(render(&s).segments.len(), TOTAL_POINTS as usize);
    for _ in 0..40 {
        s.decrease_turns();
        s.increase_size();
    }
    assert_eq!(render(&s).segments.len(), TOTAL_POINTS as usize);
}

#[test]
fn render_is_deterministic() {
    let mut s = ParameterState::new();
    s.increase_turns();
    s.apply_scroll(2500);
    let a = render(&s);
    let b = render(&s);
    assert_eq!(a, b);
    let copy = s;
    assert_eq!(render(&copy), a);
}

#[test]
fn segments_chain_samples_with_gradient() {
    let s = ParameterState::new();
    let f = render(&s);
    for (k, seg) in f.segments.iter().enumerate() {
        let i = k as u64 + 1;
        assert_eq!(seg.start.sweep, (i - 1) * 4000);
        assert_eq!(seg.end.sweep, i * 4000);
        assert_eq!(seg.weight, LINE_WEIGHT);
        assert_eq!(
            seg.color,
            Hsla { hue: 10 * i, saturation: 14000, lightness: 10000 + 3 * i, alpha: 20000 }
        );
        if k + 1 < f.segments.len() {
            assert_eq!(seg.end, f.segments[k + 1].start);
        }
    }
    // The last sample is `turns` full turns round.
    assert_eq!(f.segments[1999].end.sweep, 4 * SWEEP_DEN);
}

#[test]
fn first_segment_color_and_weight() {
    let f = render(&ParameterState::new());
    assert_eq!(f.segments[0].color, Hsla { hue: 10, saturation: 14000, lightness: 10003, alpha: 20000 });
    assert_eq!(f.segments[0].weight, 2000);
}

#[test]
fn transform_follows_rotation_and_zoom() {
    let mut s = ParameterState::new();
    s.toggle_auto_rotate();
    s.tick();
    s.tick();
    s.apply_scroll(5000);
    let f = render(&s);
    assert_eq!(f.transform.rotation, 20);
    assert_eq!(f.transform.zoom, 1500);
    assert_eq!(f.shape.spiral_size, 5000);
    assert_eq!(f.shape.n, 2000);
    assert_eq!(f.shape.multiplier, 10000);
}

#[test]
fn sweep_follows_turns() {
    let mut s = ParameterState::new();
    for _ in 0..20 {
        s.increase_turns();
    }
    let f = render(&s);
    assert_eq!(f.segments[1999].end.sweep, 10 * SWEEP_DEN);
    for _ in 0..20 {
        s.decrease_turns();
    }
    let f = render(&s);
    assert_eq!(f.segments[1999].end.sweep, SWEEP_DEN);
    assert_eq!(f.segments[0].end.sweep, 1000);
}
