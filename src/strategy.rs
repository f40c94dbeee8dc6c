//! The strategy table: the five pluggable rules a render pass is configured
//! with, and their selection from numeric mode indices.
//!
//! Each rule is a tag; the numeric work behind a tag is carried out by the
//! caller.
use vstd::prelude::*;

verus! {

/// The family of complex maps iterated per sample.
#[derive(Clone, Copy, Debug, PartialEq, Eq, Structural)]
pub enum Fractal {
    /// `z^2 + c`.
    Mandelbrot,
    /// `(|re z| + i|im z|)^2 + c`.
    BurningShip,
    /// One Mandelbrot step, one burning-ship step, then two Mandelbrot steps.
    Hybrid,
    /// `(z c)^(z / c) + z / c`.
    PowerQuotient,
}

/// The iteration rule: a map family, and whether the added constant is the
/// sampled point (Mandelbrot form) or the Julia constant (Julia form).
#[derive(Clone, Copy, Debug, PartialEq, Eq, Structural)]
pub struct IterationRule {
    pub family: Fractal,
    pub julia: bool,
}

/// The rule for the seed of an orbit.
#[derive(Clone, Copy, Debug, PartialEq, Eq, Structural)]
pub enum InitRule {
    /// The orbit starts at the configured initial value, whatever the sample.
    Configured,
}

/// The pre-map applied to a sampled plane coordinate before iteration.
#[derive(Clone, Copy, Debug, PartialEq, Eq, Structural)]
pub enum DomainMap {
    /// `c`.
    Identity,
    /// `1 / c`.
    Circle,
    /// With `n = im c + i re c`: `(n + 1) / (1 - n / 1.25)`.
    Swapped,
    /// `(c - 1) / (c + 1)`.
    Cayley,
}

/// The color function applied to the terminal state of an orbit.
#[derive(Clone, Copy, Debug, PartialEq, Eq, Structural)]
pub enum ColorRule {
    /// A hue taken from the smooth iteration count.
    Hue,
    /// A hue from the smooth count, shaded by the derivative's normal.
    NormalMap,
    /// A cosine palette with saturation and value bands, shaded.
    Miles,
    /// The cosine palette without bands, shaded.
    MilesFlat,
    /// A lookup into a texture by angle and log-radius, shaded.
    Texture,
}

/// The bailout predicate: the orbit goes on while it holds.
#[derive(Clone, Copy, Debug, PartialEq, Eq, Structural)]
pub enum BailRule {
    /// `|z|^2 < bail`.
    Norm,
    /// `|z| < bail`.
    Magnitude,
    /// `|s^2|^2 < derbail` and `|z|^4 < bail`, with `s` the derivative sum.
    Derivative,
}

pub open spec fn fractal_of(mode: usize) -> Fractal {
    if mode == 1 {
        Fractal::BurningShip
    } else if mode == 2 {
        Fractal::Hybrid
    } else if mode == 3 {
        Fractal::PowerQuotient
    } else {
        Fractal::Mandelbrot
    }
}

pub open spec fn color_rule_of(mode: usize) -> ColorRule {
    if mode == 1 {
        ColorRule::NormalMap
    } else if mode == 2 {
        ColorRule::Miles
    } else if mode == 3 {
        ColorRule::MilesFlat
    } else {
        ColorRule::Hue
    }
}

pub open spec fn bail_rule_of(mode: usize) -> BailRule {
    if mode == 1 {
        BailRule::Magnitude
    } else if mode == 2 {
        BailRule::Derivative
    } else {
        BailRule::Norm
    }
}

/// Selection of the strategy rules from mode indices. An index out of range
/// selects the default rule of its slot.
pub struct Functions;

impl Functions {
    /// Fractal modes 0 to 3 select Mandelbrot, burning ship, hybrid and
    /// power-quotient; any other mode selects Mandelbrot.
    pub fn fractal(mode: usize, julia: bool) -> (r: IterationRule)
        ensures
            r.family == fractal_of(mode),
            r.julia == julia,
    {
        let family = if mode == 1 {
            Fractal::BurningShip
        } else if mode == 2 {
            Fractal::Hybrid
        } else if mode == 3 {
            Fractal::PowerQuotient
        } else {
            Fractal::Mandelbrot
        };
        IterationRule { family, julia }
    }

    /// Color modes 0 to 3 select hue, normal map, banded cosine palette and
    /// flat cosine palette; any other mode selects hue.
    pub fn coloring(mode: usize) -> (r: ColorRule)
        ensures
            r == color_rule_of(mode),
    {
        if mode == 1 {
            ColorRule::NormalMap
        } else if mode == 2 {
            ColorRule::Miles
        } else if mode == 3 {
            ColorRule::MilesFlat
        } else {
            ColorRule::Hue
        }
    }

    /// Bailout modes 0 to 2 select squared norm, magnitude and derivative
    /// bailout; any other mode selects squared norm.
    pub fn bailout(mode: usize) -> (r: BailRule)
        ensures
            r == bail_rule_of(mode),
    {
        if mode == 1 {
            BailRule::Magnitude
        } else if mode == 2 {
            BailRule::Derivative
        } else {
            BailRule::Norm
        }
    }
}

/// The five strategy slots of a renderer.
#[derive(Clone, Copy, Debug, PartialEq, Eq, Structural)]
pub struct Functs {
    pub iter_funct: IterationRule,
    pub init_funct: InitRule,
    pub cmap_funct: DomainMap,
    pub color_funct: ColorRule,
    pub conditional: BailRule,
}

impl Functs {
    pub fn new(a: IterationRule, b: InitRule, c: DomainMap, d: ColorRule, e: BailRule) -> (r: Functs)
        ensures
            r.iter_funct == a,
            r.init_funct == b,
            r.cmap_funct == c,
            r.color_funct == d,
            r.conditional == e,
    {
        Functs { iter_funct: a, init_funct: b, cmap_funct: c, color_funct: d, conditional: e }
    }

    /// The table selected by the three mode indices, with the configured seed
    /// and the identity domain map.
    pub fn from_modes(fractal_mode: usize, julia: bool, color_mode: usize, bail_mode: usize) -> (r:
        Functs)
        ensures
            r.iter_funct.family == fractal_of(fractal_mode),
            r.iter_funct.julia == julia,
            r.init_funct == InitRule::Configured,
            r.cmap_funct == DomainMap::Identity,
            r.color_funct == color_rule_of(color_mode),
            r.conditional == bail_rule_of(bail_mode),
    {
        Functs::new(
            Functions::fractal(fractal_mode, julia),
            InitRule::Configured,
            DomainMap::Identity,
            Functions::coloring(color_mode),
            Functions::bailout(bail_mode),
        )
    }
}

} // verus!
