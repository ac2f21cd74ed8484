//! Colors and color gradients.
//!
//! A channel is a fixed-point scalar in `[0, SCALE]`; `SCALE` stands for
//! full intensity.

use vstd::prelude::*;

use crate::fixed::{fp_ok, tdiv, FP_MAX, SCALE};
use crate::rng::ParticleRng;
use crate::sample::{lerp, lerp_exact, RangeOrFixed};

verus! {

/// A color, each channel a fixed-point scalar in `[0, SCALE]`.
#[derive(Clone, Copy, Debug, PartialEq, Eq, Structural)]
pub struct Rgba {
    pub r: i64,
    pub g: i64,
    pub b: i64,
    pub a: i64,
}

/// All four channels lie inside `[0, SCALE]`.
pub open spec fn rgba_ok(c: Rgba) -> bool {
    0 <= c.r <= SCALE && 0 <= c.g <= SCALE && 0 <= c.b <= SCALE && 0 <= c.a <= SCALE
}

/// Channelwise linear interpolation by `d / SCALE`, `d` in `[0, SCALE]`.
pub open spec fn rgba_lerp_exact(a: Rgba, b: Rgba, d: int) -> Rgba {
    Rgba {
        r: lerp_exact(a.r as int, b.r as int, d) as i64,
        g: lerp_exact(a.g as int, b.g as int, d) as i64,
        b: lerp_exact(a.b as int, b.b as int, d) as i64,
        a: lerp_exact(a.a as int, b.a as int, d) as i64,
    }
}

impl Rgba {
    /// Builds a color, clamping each channel into `[0, SCALE]`.
    pub fn new(r: i64, g: i64, b: i64, a: i64) -> (c: Rgba)
        ensures
            rgba_ok(c),
            0 <= r <= SCALE ==> c.r == r,
            0 <= g <= SCALE ==> c.g == g,
            0 <= b <= SCALE ==> c.b == b,
            0 <= a <= SCALE ==> c.a == a,
    {
        Rgba { r: clamp_channel(r), g: clamp_channel(g), b: clamp_channel(b), a: clamp_channel(a) }
    }

    /// Opaque white.
    pub fn white() -> (c: Rgba)
        ensures
            c == (Rgba { r: SCALE, g: SCALE, b: SCALE, a: SCALE }),
            rgba_ok(c),
    {
        Rgba { r: SCALE, g: SCALE, b: SCALE, a: SCALE }
    }

    /// Fully transparent black.
    pub fn none() -> (c: Rgba)
        ensures
            c == (Rgba { r: 0, g: 0, b: 0, a: 0 }),
            rgba_ok(c),
    {
        Rgba { r: 0, g: 0, b: 0, a: 0 }
    }
}

/// A gradient control point.
#[derive(Clone, Copy, Debug, PartialEq, Eq, Structural)]
pub struct GradientPoint {
    /// Position of the point along the gradient.
    pub pos: i64,
    /// Color at that position.
    pub color: Rgba,
}

/// A color gradient: control points at strictly increasing positions.
#[derive(Clone, Debug)]
pub struct ColorGradient {
    points: Vec<GradientPoint>,
}

/// Control points are strictly ordered by position, with valid entries.
pub open spec fn gradient_points_wf(s: Seq<GradientPoint>) -> bool {
    &&& forall|i: int, j: int|
        0 <= i < j < s.len() ==> #[trigger] s[i].pos < #[trigger] s[j].pos
    &&& forall|i: int| 0 <= i < s.len() ==> fp_ok(#[trigger] s[i].pos as int)
    &&& forall|i: int| 0 <= i < s.len() ==> rgba_ok(#[trigger] s[i].color)
}

/// Interpolation over one segment: position is clamped into the segment,
/// then the two colors are mixed by the position's ratio along it.
pub open spec fn segment_eval(p0: GradientPoint, p1: GradientPoint, pos: int) -> Rgba {
    let pc = if pos <= p0.pos {
        p0.pos as int
    } else if pos >= p1.pos {
        p1.pos as int
    } else {
        pos
    };
    let d = tdiv((pc - p0.pos) * SCALE, p1.pos - p0.pos);
    rgba_lerp_exact(p0.color, p1.color, d)
}

/// Evaluation of a gradient from control point `i` on: the first segment
/// whose right end lies beyond `pos` wins; past the end, the last segment.
pub open spec fn gradient_eval(s: Seq<GradientPoint>, i: int, pos: int) -> Rgba
    recommends
        0 <= i,
        i + 2 <= s.len(),
    decreases s.len() - i,
{
    if i + 3 > s.len() {
        segment_eval(s[i], s[i + 1], pos)
    } else if pos < s[i + 1].pos {
        segment_eval(s[i], s[i + 1], pos)
    } else {
        gradient_eval(s, i + 1, pos)
    }
}

/// What `add_point` does, witnessed by the insertion index `i`: all
/// earlier points lie strictly below `pos`, the point at `i` (if any) does
/// not, and the result either replaces the point at `i` (same position) or
/// inserts the new point there, leaving every other point untouched.
pub open spec fn point_added_at(
    before: Seq<GradientPoint>,
    after: Seq<GradientPoint>,
    pos: i64,
    color: Rgba,
    i: int,
) -> bool {
    &&& 0 <= i <= before.len()
    &&& (forall|j: int| 0 <= j < i ==> #[trigger] before[j].pos < pos)
    &&& (i < before.len() ==> before[i].pos >= pos)
    &&& after == (if i < before.len() && before[i].pos == pos {
        before.update(i, GradientPoint { pos, color })
    } else {
        before.insert(i, GradientPoint { pos, color })
    })
}

impl ColorGradient {
    /// The control points, in order.
    pub closed spec fn points_seq(self) -> Seq<GradientPoint> {
        self.points@
    }

    /// A gradient is well formed when its points are.
    pub open spec fn wf(self) -> bool {
        gradient_points_wf(self.points_seq())
    }

    /// An empty gradient.
    pub fn empty() -> (g: ColorGradient)
        ensures
            g.points_seq().len() == 0,
            g.wf(),
    {
        ColorGradient { points: Vec::new() }
    }

    /// How many control points the gradient holds.
    pub fn len(&self) -> (n: usize)
        ensures
            n == self.points_seq().len(),
    {
        self.points.len()
    }

    /// Adds a control point at `pos`; a point already at `pos` is replaced.
    pub fn add_point(self, pos: i64, color: Rgba) -> (g: ColorGradient)
        requires
            self.wf(),
            fp_ok(pos as int),
            rgba_ok(color),
        ensures
            g.wf(),
            g.points_seq().contains(GradientPoint { pos, color }),
            exists|i: int|
                #[trigger] point_added_at(self.points_seq(), g.points_seq(), pos, color, i),
    {
        let mut points = self.points;
        let n = points.len();
        let mut i: usize = 0;
        // Find the first index whose position is not below `pos`.
        while i < n && points[i].pos < pos
            invariant
                0 <= i <= n,
                n == points.len(),
                gradient_points_wf(points@),
                forall|j: int| 0 <= j < i ==> #[trigger] points@[j].pos < pos,
            decreases n - i,
        {
            i = i + 1;
        }
        let point = GradientPoint { pos, color };
        if i < n && points[i].pos == pos {
            points.set(i, point);
            proof {
                assert(points@[i as int] == point);
                assert(points@ == self.points_seq().update(i as int, point));
            }
        } else {
            points.insert(i, point);
            proof {
                assert(points@[i as int] == point);
                assert(points@ == self.points_seq().insert(i as int, point));
            }
        }
        proof {
            assert(point_added_at(self.points_seq(), points@, pos, color, i as int));
        }
        ColorGradient { points }
    }

    /// Evaluates the gradient at `pos`, clamped into the covered range.
    /// Needs at least two control points.
    pub fn evaluate(&self, pos: i64) -> (c: Rgba)
        requires
            self.wf(),
            self.points_seq().len() >= 2,
            fp_ok(pos as int),
        ensures
            c == gradient_eval(self.points_seq(), 0, pos as int),
            rgba_ok(c),
    {
        let n = self.points.len();
        let mut i: usize = 0;
        while n - i > 2 && self.points[i + 1].pos <= pos
            invariant
                0 <= i,
                i + 2 <= n,
                n == self.points_seq().len(),
                self.wf(),
                fp_ok(pos as int),
                gradient_eval(self.points_seq(), 0, pos as int) == gradient_eval(
                    self.points_seq(),
                    i as int,
                    pos as int,
                ),
            decreases n - i,
        {
            i = i + 1;
        }
        let p0 = self.points[i];
        let p1 = self.points[i + 1];
        evaluate_segment(p0, p1, pos)
    }
}

impl ColorGradient {
    /// Mixes two colors by `delta / SCALE`, `delta` clamped into `[0, SCALE]`.
    pub fn sample_color(a: Rgba, b: Rgba, delta: i64) -> (c: Rgba)
        requires
            rgba_ok(a),
            rgba_ok(b),
            fp_ok(delta as int),
        ensures
            c == rgba_lerp_exact(
                a,
                b,
                if delta < 0 {
                    0int
                } else if delta > SCALE {
                    SCALE as int
                } else {
                    delta as int
                },
            ),
            rgba_ok(c),
    {
        let d = if delta < 0 {
            0
        } else if delta > SCALE {
            SCALE
        } else {
            delta
        };
        Rgba {
            r: lerp(a.r, b.r, d),
            g: lerp(a.g, b.g, d),
            b: lerp(a.b, b.b, d),
            a: lerp(a.a, b.a, d),
        }
    }

    /// A gradient running from `start` at position 0 to `end` at `SCALE`.
    pub fn two_color(start: Rgba, end: Rgba) -> (g: ColorGradient)
        requires
            rgba_ok(start),
            rgba_ok(end),
        ensures
            g.wf(),
            g.points_seq() =~= seq![
                GradientPoint { pos: 0, color: start },
                GradientPoint { pos: SCALE, color: end },
            ],
    {
        ColorGradient::empty().add_point_at(0, start).add_point_at(SCALE, end)
    }

    /// A gradient holding `color` everywhere.
    pub fn solid(color: Rgba) -> (g: ColorGradient)
        requires
            rgba_ok(color),
        ensures
            g.wf(),
            g.points_seq() =~= seq![
                GradientPoint { pos: 0, color },
                GradientPoint { pos: SCALE, color },
            ],
    {
        ColorGradient::two_color(color, color)
    }

    /// Solid white fading out to full transparency.
    pub fn white_to_none() -> (g: ColorGradient)
        ensures
            g.wf(),
            g.points_seq().len() == 2,
    {
        ColorGradient::two_color(Rgba::white(), Rgba::none())
    }

    /// White that fades in from transparency and out again.
    pub fn smooth_white() -> (g: ColorGradient)
        ensures
            g.wf(),
            g.points_seq().len() == 3,
    {
        let clear = Rgba { r: SCALE, g: SCALE, b: SCALE, a: 0 };
        ColorGradient::empty().add_point_at(0, clear).add_point_at(SCALE / 2, Rgba::white())
            .add_point_at(SCALE, clear)
    }

    /// A six-stop rainbow.
    pub fn rainbow() -> (g: ColorGradient)
        ensures
            g.wf(),
            g.points_seq().len() == 6,
    {
        let fifth = SCALE / 5;
        ColorGradient::empty().add_point_at(0, Rgba { r: SCALE, g: 0, b: 0, a: SCALE })
            .add_point_at(fifth, Rgba { r: SCALE, g: SCALE, b: 0, a: SCALE }).add_point_at(
            2 * fifth,
            Rgba { r: 0, g: SCALE, b: 0, a: SCALE },
        ).add_point_at(3 * fifth, Rgba { r: 0, g: SCALE, b: SCALE, a: SCALE }).add_point_at(
            4 * fifth,
            Rgba { r: 0, g: 0, b: SCALE, a: SCALE },
        ).add_point_at(SCALE, Rgba { r: SCALE, g: 0, b: SCALE, a: SCALE })
    }

    /// `add_point`, with the stronger promise that an appended point lands
    /// at the end; used by the named constructors.
    fn add_point_at(self, pos: i64, color: Rgba) -> (g: ColorGradient)
        requires
            self.wf(),
            fp_ok(pos as int),
            rgba_ok(color),
            forall|j: int| 0 <= j < self.points_seq().len() ==> #[trigger] self.points_seq()[j].pos
                < pos,
        ensures
            g.wf(),
            g.points_seq() =~= self.points_seq().push(GradientPoint { pos, color }),
    {
        let mut points = self.points;
        let point = GradientPoint { pos, color };
        points.push(point);
        ColorGradient { points }
    }
}

/// Either a fixed color or a color gradient.
#[derive(Clone, Debug)]
pub enum ColorOrGradient {
    /// Single color.
    FixedColor(Rgba),
    /// Color gradient.
    Gradient(ColorGradient),
}

impl ColorOrGradient {
    /// Valid color, or a valid gradient with at least two stops.
    pub open spec fn wf(self) -> bool {
        match self {
            ColorOrGradient::FixedColor(c) => rgba_ok(c),
            ColorOrGradient::Gradient(g) => g.wf() && g.points_seq().len() >= 2,
        }
    }

    /// Evaluates a color at `delta`: a fixed color is returned unchanged,
    /// a gradient is sampled at `delta`.
    pub fn evaluate(&self, delta: i64) -> (c: Rgba)
        requires
            self.wf(),
            fp_ok(delta as int),
        ensures
            (*self) matches ColorOrGradient::FixedColor(f) ==> c == f,
            (*self) matches ColorOrGradient::Gradient(g) ==> c == gradient_eval(
                g.points_seq(),
                0,
                delta as int,
            ),
            rgba_ok(c),
    {
        match self {
            ColorOrGradient::FixedColor(c) => *c,
            ColorOrGradient::Gradient(g) => g.evaluate(delta),
        }
    }
}

impl RangeOrFixed<Rgba> {
    /// A color distribution is well formed when both ends are valid colors.
    pub open spec fn wf(self) -> bool {
        match self {
            RangeOrFixed::Fixed(c) => rgba_ok(c),
            RangeOrFixed::Range { min, max } => rgba_ok(min) && rgba_ok(max),
        }
    }

    /// Draws a color: `Fixed(c)` always returns `c` untouched by the
    /// generator; `Range` draws one scalar and mixes the two ends by it.
    pub fn evaluate(&self, rng: &mut ParticleRng) -> (c: Rgba)
        requires
            self.wf(),
        ensures
            (*self) matches RangeOrFixed::Fixed(f) ==> c == f,
            (*self) is Fixed ==> *final(rng) == *old(rng),
            (*self) matches RangeOrFixed::Range { min, max } ==> (exists|d: int|
                0 <= d <= SCALE && c == rgba_lerp_exact(min, max, d)),
            rgba_ok(c),
    {
        match self {
            RangeOrFixed::Fixed(c) => *c,
            RangeOrFixed::Range { min, max } => {
                let d = rng.next_inclusive_i64(0, SCALE);
                let c = ColorGradient::sample_color(*min, *max, d);
                proof {
                    assert(0 <= d as int <= SCALE && c == rgba_lerp_exact(*min, *max, d as int));
                }
                c
            },
        }
    }
}

/// Clamp one channel into `[0, SCALE]`.
fn clamp_channel(v: i64) -> (r: i64)
    ensures
        0 <= r <= SCALE,
        0 <= v <= SCALE ==> r == v,
{
    if v < 0 {
        0
    } else if v > SCALE {
        SCALE
    } else {
        v
    }
}

/// Interpolation over one segment of a gradient.
fn evaluate_segment(p0: GradientPoint, p1: GradientPoint, pos: i64) -> (c: Rgba)
    requires
        fp_ok(p0.pos as int),
        fp_ok(p1.pos as int),
        fp_ok(pos as int),
        p0.pos < p1.pos,
        rgba_ok(p0.color),
        rgba_ok(p1.color),
    ensures
        c == segment_eval(p0, p1, pos as int),
        rgba_ok(c),
{
    let pc = if pos <= p0.pos {
        p0.pos
    } else if pos >= p1.pos {
        p1.pos
    } else {
        pos
    };
    let d = ratio01(pc - p0.pos, p1.pos - p0.pos);
    Rgba {
        r: lerp(p0.color.r, p1.color.r, d),
        g: lerp(p0.color.g, p1.color.g, d),
        b: lerp(p0.color.b, p1.color.b, d),
        a: lerp(p0.color.a, p1.color.a, d),
    }
}

/// The ratio `num / den` as a fixed-point value in `[0, SCALE]`.
fn ratio01(num: i64, den: i64) -> (r: i64)
    requires
        0 <= num <= den,
        0 < den,
        den <= 2 * FP_MAX,
    ensures
        r as int == tdiv(num * SCALE, den as int),
        0 <= r <= SCALE,
{
    proof {
        crate::fixed::lemma_mul_le(num as int, SCALE as int, den as int, SCALE as int);
        vstd::arithmetic::div_mod::lemma_div_is_ordered(
            (num as int) * (SCALE as int),
            (den as int) * (SCALE as int),
            den as int,
        );
        vstd::arithmetic::div_mod::lemma_div_multiples_vanish(SCALE as int, den as int);
        vstd::arithmetic::div_mod::lemma_div_pos_is_pos((num as int) * (SCALE as int), den as int);
    }
    let q: u128 = ((num as u128) * (SCALE as u128)) / (den as u128);
    q as i64
}

} // verus!
