//! Per-frame generation of the spiral's segments from a parameter snapshot.
//!
//! The renderer computes everything about a frame that is exact: the angle of each
//! sample as a fraction of a full turn, the pairing of samples into segments, their
//! colours and weight, and the global transform. What needs `π`, `cos` and `sin`
//! (the Cartesian position of a sample) is left to the presentation side, which
//! applies the curve's formula to the exact values given here:
//!
//! `angle = 2π · sweep / SWEEP_DEN`, `radius = size · (1 + angle / n)`,
//! `(x, y) = (radius · cos(angle) · multiplier, radius · sin(angle) · multiplier)`.
use vstd::prelude::*;
use crate::params::{ParameterState, Params, SCALE, TURNS_MAX};

verus! {

/// Samples per frame, beside the one at angle zero; also the number of segments.
pub const TOTAL_POINTS: u64 = 2000;

/// Stroke weight of every segment, in thousandths (2.0).
pub const LINE_WEIGHT: u64 = 2000;

/// Denominator of a sample's sweep: the sweep of sample `i` is `i · turns`, that is
/// `(i / TOTAL_POINTS) · (turns / SCALE)` full turns.
pub const SWEEP_DEN: u64 = TOTAL_POINTS * SCALE;

/// Colour components are fractions of `COLOR_DEN`; with this denominator every
/// component of every segment is exact.
pub const COLOR_DEN: u64 = 20000;

/// One sample of the curve; its angle is `2π · sweep / SWEEP_DEN` radians.
#[derive(Clone, Copy, Debug, PartialEq, Eq)]
pub struct CurvePoint {
    pub sweep: u64,
}

/// A colour in hue, saturation, lightness and alpha, each over `COLOR_DEN`
/// (a hue of `COLOR_DEN` is a full circle).
#[derive(Clone, Copy, Debug, PartialEq, Eq)]
pub struct Hsla {
    pub hue: u64,
    pub saturation: u64,
    pub lightness: u64,
    pub alpha: u64,
}

/// A straight piece of the curve between two consecutive samples.
#[derive(Clone, Copy, Debug, PartialEq, Eq)]
pub struct Segment {
    pub start: CurvePoint,
    pub end: CurvePoint,
    pub color: Hsla,
    /// Thousandths.
    pub weight: u64,
}

/// The transform applied to the whole drawing: rotate by `rotation` thousandths of a
/// radian, then scale uniformly by `zoom` thousandths.
#[derive(Clone, Copy, Debug, PartialEq, Eq)]
pub struct Transform {
    pub rotation: i64,
    pub zoom: u64,
}

/// The parameters of the curve's radius and scale, in thousandths.
#[derive(Clone, Copy, Debug, PartialEq, Eq)]
pub struct Shape {
    pub spiral_size: u64,
    pub n: u64,
    pub multiplier: u64,
}

/// One frame: a black background, then `segments` in order under `transform`.
#[derive(Debug, PartialEq, Eq)]
pub struct Frame {
    pub transform: Transform,
    pub shape: Shape,
    pub segments: Vec<Segment>,
}

/// The mathematical value of a `Frame`.
pub struct FrameView {
    pub transform: Transform,
    pub shape: Shape,
    pub segments: Seq<Segment>,
}

impl View for Frame {
    type V = FrameView;

    open spec fn view(&self) -> FrameView {
        FrameView { transform: self.transform, shape: self.shape, segments: self.segments@ }
    }
}

/// Sample `i`, at `t = i / TOTAL_POINTS` of the sweep over `turns` full turns.
pub open spec fn sample(p: Params, i: int) -> CurvePoint {
    CurvePoint { sweep: (i * p.turns) as u64 }
}

/// The colour of the segment that ends at sample `i`: hue `i / TOTAL_POINTS`,
/// saturation 0.7, lightness `0.5 + 0.3 · i / TOTAL_POINTS`, alpha 1.
pub open spec fn color_at(i: int) -> Hsla {
    Hsla {
        hue: (i * COLOR_DEN / TOTAL_POINTS as int) as u64,
        saturation: (7 * COLOR_DEN / 10) as u64,
        lightness: (COLOR_DEN / 2 + 3 * COLOR_DEN * i / (10 * TOTAL_POINTS as int)) as u64,
        alpha: COLOR_DEN,
    }
}

/// Segment `k` joins sample `k` to sample `k + 1`.
pub open spec fn segment_at(p: Params, k: int) -> Segment {
    Segment { start: sample(p, k), end: sample(p, k + 1), color: color_at(k + 1), weight: LINE_WEIGHT }
}

/// The frame that a parameter snapshot determines.
pub open spec fn frame_of(p: Params) -> FrameView {
    FrameView {
        transform: Transform { rotation: p.rotation as i64, zoom: p.zoom as u64 },
        shape: Shape { spiral_size: p.spiral_size as u64, n: p.n as u64, multiplier: p.multiplier as u64 },
        segments: Seq::new(TOTAL_POINTS as nat, |k: int| segment_at(p, k)),
    }
}

/// Computes the frame for the current parameters; nothing but `state` decides it.
pub fn render(state: &ParameterState) -> (r: Frame)
    ensures
        r@ == frame_of(state@),
{
    let turns: u64 = state.turns();
    let mut segments: Vec<Segment> = Vec::new();
    let mut i: u64 = 1;
    while i <= TOTAL_POINTS
        invariant
            1 <= i <= TOTAL_POINTS + 1,
            turns == state@.turns,
            turns <= TURNS_MAX,
            segments@.len() == i - 1,
            forall|k: int| 0 <= k < i - 1 ==> segments@[k] == segment_at(state@, k),
        decreases TOTAL_POINTS + 1 - i,
    {
        proof {
            assert((i - 1) * turns <= i * turns <= 2000 * 10000) by (nonlinear_arith)
                requires 1 <= i <= 2000, turns <= 10000;
        }
        let start = CurvePoint { sweep: (i - 1) * turns };
        let end = CurvePoint { sweep: i * turns };
        let color = Hsla {
            hue: i * COLOR_DEN / TOTAL_POINTS,
            saturation: 7 * COLOR_DEN / 10,
            lightness: COLOR_DEN / 2 + 3 * COLOR_DEN * i / (10 * TOTAL_POINTS),
            alpha: COLOR_DEN,
        };
        segments.push(Segment { start, end, color, weight: LINE_WEIGHT });
        i = i + 1;
    }
    assert(segments@ =~= Seq::new(TOTAL_POINTS as nat, |k: int| segment_at(state@, k)));
    Frame {
        transform: Transform { rotation: state.rotation(), zoom: state.zoom() },
        shape: Shape { spiral_size: state.spiral_size(), n: state.n(), multiplier: state.multiplier() },
        segments,
    }
}

} // verus!
