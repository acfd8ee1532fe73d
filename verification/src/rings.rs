//! Ring geometry in exact arithmetic.
//!
//! A ring's base radius is one third of the canvas extent, scaled down
//! linearly with the ring index: `base_radius(i) = (screen_size / 3) /
//! num_rings * (num_rings - i)`. The library keeps radii as exact rationals:
//! `base_radius(i) == radius numerator / (3 * num_rings)` with numerator
//! `screen_size * (num_rings - i)`.

use vstd::prelude::*;

use crate::tween::{spec_advance, spec_request, Mode, Tween, NUM_TWEEN_FRAMES};

verus! {

/// Canvas extent (width and height) of the default configuration.
pub const SCREEN_SIZE: u32 = 1600;

/// Ring count of the default configuration.
pub const NUM_RINGS: u32 = 40;

/// Samples per ring of the default configuration.
pub const POINTS_PER_LINE: u32 = 250;

/// Angular denominator: sample `j` sits at angle `j / ANGLE_DENOM` turns.
/// Deliberately independent of the sample count, so the default 250 samples
/// cover a little more than one full turn.
pub const ANGLE_DENOM: u32 = 200;

/// Numerator of the per-ring shift on the noise field's second axis, over
/// `OFFSET_MULT_DENOM`: ring `i` samples the field at `y + 0.03 * i`.
pub const OFFSET_MULT_NUMER: u32 = 3;

/// Denominator of the per-ring noise-axis shift.
pub const OFFSET_MULT_DENOM: u32 = 100;

/// Numerator of the temporal speed multiplier, over `SPEED_MULT_DENOM`: the
/// noise field's two time axes move on a circle of radius 0.25.
pub const SPEED_MULT_NUMER: u32 = 1;

/// Denominator of the temporal speed multiplier.
pub const SPEED_MULT_DENOM: u32 = 4;

/// Degrees in a full turn; the temporal phase is the frame counter reduced
/// modulo this, read as an angle in degrees.
pub const DEGREES_PER_TURN: u64 = 360;

/// Number of stroke colors the host cycles through.
pub const NUM_COLORS: u32 = 2;

/// The generator's fixed parameters. Validated once at startup; every later
/// computation relies on `valid()`.
#[derive(Clone, Copy, Debug, PartialEq, Eq, Structural)]
pub struct Config {
    pub screen_size: u32,
    pub num_rings: u32,
    pub points_per_line: u32,
}

/// Numerator of ring `i`'s base radius, over the fixed denominator
/// `3 * num_rings`:
/// `base_radius(i) == base_radius_numer(cfg, i) / (3 * cfg.num_rings)`.
pub open spec fn base_radius_numer(cfg: Config, i: int) -> int {
    cfg.screen_size * (cfg.num_rings - i)
}

/// Denominator shared by every ring's base radius.
pub open spec fn base_radius_denom(cfg: Config) -> int {
    3 * cfg.num_rings
}

impl Config {
    /// A usable configuration: a degenerate canvas, an empty ring set or an
    /// empty sample set are rejected at construction.
    pub open spec fn valid(self) -> bool {
        &&& self.screen_size > 0
        &&& self.num_rings > 0
        &&& self.points_per_line > 0
    }

    /// Validate a configuration once, at startup: `Some` exactly when the
    /// canvas, the ring count and the sample count are all nonzero.
    pub fn new(screen_size: u32, num_rings: u32, points_per_line: u32) -> (r: Option<Config>)
        ensures
            r == if screen_size > 0 && num_rings > 0 && points_per_line > 0 {
                Some(Config { screen_size, num_rings, points_per_line })
            } else {
                None::<Config>
            },
            r is Some <==> (Config { screen_size, num_rings, points_per_line }).valid(),
    {
        if screen_size > 0 && num_rings > 0 && points_per_line > 0 {
            Some(Config { screen_size, num_rings, points_per_line })
        } else {
            None
        }
    }

    /// The fixed configuration of the original visual: a 1600-pixel canvas,
    /// 40 rings, 250 samples per ring.
    pub fn default_config() -> (c: Config)
        ensures
            c == (Config {
                screen_size: SCREEN_SIZE,
                num_rings: NUM_RINGS,
                points_per_line: POINTS_PER_LINE,
            }),
            c.valid(),
    {
        Config { screen_size: SCREEN_SIZE, num_rings: NUM_RINGS, points_per_line: POINTS_PER_LINE }
    }
}

/// Ring 0 is the outermost and radii shrink strictly as the index grows;
/// ring 0's radius is exactly one third of the canvas extent
/// (`numerator / denominator == screen_size / 3`, stated cross-multiplied).
pub proof fn lemma_base_radius_decreasing(cfg: Config, i: int, j: int)
    requires
        cfg.valid(),
        0 <= i < j < cfg.num_rings,
    ensures
        base_radius_numer(cfg, j) < base_radius_numer(cfg, i),
        base_radius_numer(cfg, i) <= cfg.screen_size * cfg.num_rings,
        3 * base_radius_numer(cfg, 0) == cfg.screen_size * base_radius_denom(cfg),
{
    assert(base_radius_numer(cfg, j) < base_radius_numer(cfg, i)) by (nonlinear_arith)
        requires
            cfg.screen_size > 0,
            0 <= i < j < cfg.num_rings,
    ;
    assert(base_radius_numer(cfg, i) <= cfg.screen_size * cfg.num_rings) by (nonlinear_arith)
        requires
            cfg.screen_size > 0,
            0 <= i < cfg.num_rings,
    ;
    assert(3 * (cfg.screen_size * (cfg.num_rings - 0)) == cfg.screen_size * (3 * cfg.num_rings))
        by (nonlinear_arith);
}

/// Exact numerator of ring `i`'s base radius, over the denominator
/// `3 * num_rings`.
pub fn ring_radius_numer(cfg: &Config, i: u32) -> (r: u64)
    requires
        i < cfg.num_rings,
    ensures
        r == base_radius_numer(*cfg, i as int),
{
    proof {
        assert((cfg.screen_size as u64) * ((cfg.num_rings - i) as u64) <= 0xffff_ffff * 0xffff_ffff)
            by (nonlinear_arith)
            requires
                cfg.screen_size <= 0xffff_ffffu32,
                i < cfg.num_rings,
                cfg.num_rings <= 0xffff_ffffu32,
        ;
    }
    (cfg.screen_size as u64) * ((cfg.num_rings - i) as u64)
}

/// How the effective radial offset of every sample in a frame is obtained
/// from that sample's raw noise offset. This is the only way the mode and
/// the tween reach the geometry.
///
/// - `Zero`: the effective offset is 0 — an undistorted circle.
/// - `Raw`: the effective offset is the raw noise offset itself (the noise
///   sample doubled), with no damping.
/// - `Blend { step }`: mid-transition; the effective offset is the linear
///   map of `step` from the interval `[1, NUM_TWEEN_FRAMES]` onto
///   `[1, raw offset]`, i.e. `1 + (step - 1) * (raw - 1) /
///   (NUM_TWEEN_FRAMES - 1)`.
#[derive(Clone, Copy, Debug, PartialEq, Eq, Structural)]
pub enum OffsetRule {
    Zero,
    Raw,
    Blend { step: u32 },
}

/// The offset rule a tween state dictates: idle circles are undistorted,
/// idle noise applies the raw offset, and a running transition blends with
/// `step` counting down toward `Circles` (`step == frames`) and up toward
/// `Noise` (`step == NUM_TWEEN_FRAMES - frames`).
pub open spec fn spec_offset_rule(t: Tween) -> OffsetRule {
    if t.frames == 0 {
        if t.mode_to == Mode::Circles {
            OffsetRule::Zero
        } else {
            OffsetRule::Raw
        }
    } else {
        if t.mode_to == Mode::Circles {
            OffsetRule::Blend { step: t.frames }
        } else {
            OffsetRule::Blend { step: (NUM_TWEEN_FRAMES - t.frames) as u32 }
        }
    }
}

/// Resolve the offset rule for the current frame from the tween state.
/// While idle in `Circles` the offset is exactly zero, and while idle in
/// `Noise` it is exactly the raw noise offset — no damping in either case.
pub fn offset_rule(t: &Tween) -> (r: OffsetRule)
    requires
        t.wf(),
    ensures
        r == spec_offset_rule(*t),
        t.frames == 0 && t.mode_to == Mode::Circles ==> r == OffsetRule::Zero,
        t.frames == 0 && t.mode_to == Mode::Noise ==> r == OffsetRule::Raw,
        t.frames > 0 ==> r is Blend,
{
    if t.frames == 0 {
        if t.mode_to == Mode::Circles {
            OffsetRule::Zero
        } else {
            OffsetRule::Raw
        }
    } else {
        if t.mode_to == Mode::Circles {
            OffsetRule::Blend { step: t.frames }
        } else {
            OffsetRule::Blend { step: NUM_TWEEN_FRAMES - t.frames }
        }
    }
}

/// Everything that determines ring `i`'s samples, in exact arithmetic:
/// its base radius is `radius_numer / (3 * num_rings)` and it samples the
/// noise field's second axis shifted by `shift_numer / OFFSET_MULT_DENOM`.
#[derive(Clone, Copy, Debug, PartialEq, Eq, Structural)]
pub struct RingPlan {
    pub index: u32,
    pub radius_numer: u64,
    pub shift_numer: u64,
}

/// `rp` is ring `i`'s plan under `cfg`.
pub open spec fn ring_plan_ok(cfg: Config, i: int, rp: RingPlan) -> bool {
    &&& rp.index == i
    &&& rp.radius_numer == base_radius_numer(cfg, i)
    &&& rp.shift_numer == OFFSET_MULT_NUMER * i
}

/// One frame of the animation, in exact arithmetic. Sample `j` of ring `i`
/// sits in direction `(cos θ, sin θ)` with `θ = j / ANGLE_DENOM` turns; its
/// raw noise offset is twice the noise field sampled at that direction,
/// shifted on the second axis by the ring's `shift_numer / OFFSET_MULT_DENOM`
/// and driven on the two time axes by the phase angle `phase_index` degrees
/// scaled by the speed multiplier; the sample's distance from the origin is
/// the ring's base radius times one plus the effective offset that `rule`
/// yields. Every ring of the frame shares one alpha, derived from the last
/// ring's completion `completion_numer / num_rings`.
pub struct FramePlan {
    pub phase_index: u32,
    pub rule: OffsetRule,
    pub rings: Vec<RingPlan>,
    pub points_per_line: u32,
    pub completion_numer: u32,
}

/// `fp` is the frame plan that configuration `cfg`, tween state `t` and
/// frame counter `frame` determine.
pub open spec fn frame_plan_ok(cfg: Config, t: Tween, frame: u64, fp: FramePlan) -> bool {
    &&& fp.phase_index == frame % DEGREES_PER_TURN
    &&& fp.rule == spec_offset_rule(t)
    &&& fp.rings@.len() == cfg.num_rings
    &&& forall|i: int| 0 <= i < cfg.num_rings ==> ring_plan_ok(cfg, i, #[trigger] fp.rings@[i])
    &&& fp.points_per_line == cfg.points_per_line
    &&& fp.completion_numer == cfg.num_rings - 1
}

/// The generator: fixed configuration plus the tween state machine. Rings
/// hold no state of their own across frames; each frame's plan is recomputed
/// in full from the configuration, the tween and the frame counter.
pub struct RingAnimator {
    pub config: Config,
    pub tween: Tween,
}

impl RingAnimator {
    /// A usable animator: a validated configuration and a bounded countdown.
    pub open spec fn wf(self) -> bool {
        self.config.valid() && self.tween.wf()
    }

    /// Start idle in the circular mode.
    pub fn new(config: Config) -> (a: RingAnimator)
        requires
            config.valid(),
        ensures
            a.config == config,
            a.tween.frames == 0,
            a.tween.mode_to == Mode::Circles,
            a.wf(),
    {
        RingAnimator { config, tween: Tween::new() }
    }

    /// Forward a discrete mode-switch request to the tween: accepted only
    /// while idle and only for a different mode, in which case a fresh
    /// countdown of `NUM_TWEEN_FRAMES` frames starts; otherwise a no-op.
    pub fn request_mode(&mut self, target: Mode)
        ensures
            final(self).config == old(self).config,
            final(self).tween == spec_request(old(self).tween, target),
            old(self).wf() ==> final(self).wf(),
    {
        self.tween.request_mode(target);
    }

    /// Compute the plan of one frame, then advance the tween by one frame.
    /// The plan is a function of the configuration, the tween state before
    /// the call and the frame counter alone.
    pub fn update(&mut self, frame: u64) -> (fp: FramePlan)
        requires
            old(self).wf(),
        ensures
            frame_plan_ok(old(self).config, old(self).tween, frame, fp),
            final(self).config == old(self).config,
            final(self).tween == spec_advance(old(self).tween),
            final(self).wf(),
    {
        let cfg = self.config;
        let rule = offset_rule(&self.tween);
        let phase_index: u32 = (frame % DEGREES_PER_TURN) as u32;
        let mut ring_plans: Vec<RingPlan> = Vec::new();
        let mut i: u32 = 0;
        while i < cfg.num_rings
            invariant
                i <= cfg.num_rings,
                ring_plans@.len() == i as int,
                forall|k: int| 0 <= k < i as int ==> ring_plan_ok(cfg, k, #[trigger] ring_plans@[k]),
            decreases cfg.num_rings - i,
        {
            let radius_numer = ring_radius_numer(&cfg, i);
            proof {
                assert((OFFSET_MULT_NUMER as u64) * (i as u64) <= 3 * 0xffff_ffff)
                    by (nonlinear_arith)
                    requires
                        i <= 0xffff_ffffu32,
                ;
            }
            let shift_numer = (OFFSET_MULT_NUMER as u64) * (i as u64);
            ring_plans.push(RingPlan { index: i, radius_numer, shift_numer });
            i = i + 1;
        }
        self.tween.advance();
        FramePlan {
            phase_index,
            rule,
            rings: ring_plans,
            points_per_line: cfg.points_per_line,
            completion_numer: cfg.num_rings - 1,
        }
    }
}

/// Determinism: two frame plans computed from the same configuration, the
/// same tween state and the same frame counter agree in every part — the
/// plan is a function of those three values alone.
pub proof fn lemma_plan_deterministic(
    cfg: Config,
    t: Tween,
    frame: u64,
    fp1: FramePlan,
    fp2: FramePlan,
)
    requires
        frame_plan_ok(cfg, t, frame, fp1),
        frame_plan_ok(cfg, t, frame, fp2),
    ensures
        fp1.phase_index == fp2.phase_index,
        fp1.rule == fp2.rule,
        fp1.points_per_line == fp2.points_per_line,
        fp1.completion_numer == fp2.completion_numer,
        fp1.rings@ == fp2.rings@,
{
    assert(fp1.rings@ =~= fp2.rings@);
}

/// Index of the stroke color the host uses for a completion-derived index:
/// the palette is cycled.
pub fn color_index(i: u32) -> (r: u32)
    ensures
        r == i % NUM_COLORS,
        r < NUM_COLORS,
{
    i % NUM_COLORS
}

} // verus!
