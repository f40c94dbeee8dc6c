//! Colorspace tags and the rules that decide how a color moves between them.
//!
//! The channel arithmetic itself is done by the caller; this module decides
//! which conversions run, in which order, and which transfer curve each
//! channel goes through.
use vstd::prelude::*;

verus! {

/// The three colorspaces a color value can be tagged with.
///
/// `Rgba` is linear RGB with alpha, `SRgba` is gamma-encoded RGB with alpha,
/// and `Hsva` is hue, saturation, value with alpha.
#[derive(Clone, Copy, Debug, PartialEq, Eq, Structural)]
pub enum ColorType {
    Rgba,
    SRgba,
    Hsva,
}

/// A single conversion step exists between two distinct colorspaces exactly
/// when one of them is linear RGB.
pub open spec fn direct(a: ColorType, b: ColorType) -> bool {
    a != b && (a == ColorType::Rgba || b == ColorType::Rgba)
}

/// The colorspaces a color passes through, after its own, on its way from
/// `from` to `to`: nothing when they agree, one direct step where one exists,
/// and otherwise a detour through linear RGB.
pub open spec fn route(from: ColorType, to: ColorType) -> Seq<ColorType> {
    if from == to {
        seq![]
    } else if direct(from, to) {
        seq![to]
    } else {
        seq![ColorType::Rgba, to]
    }
}

/// Every step of `path`, starting at `from`, is a direct conversion.
pub open spec fn is_chain(from: ColorType, path: Seq<ColorType>) -> bool {
    forall|i: int|
        0 <= i < path.len() ==> direct(
            if i == 0 {
                from
            } else {
                path[i - 1]
            },
            #[trigger] path[i],
        )
}

/// The sequence of conversions that turns a color tagged `from` into one
/// tagged `to`. Each step is a direct conversion, the last one lands on `to`,
/// and no shorter sequence of direct conversions exists.
pub fn conversion_route(from: ColorType, to: ColorType) -> (r: Vec<ColorType>)
    ensures
        r@ == route(from, to),
        is_chain(from, r@),
        r@.len() == 0 <==> from == to,
        r@.len() > 0 ==> r@.last() == to,
        r@.len() == 1 <==> direct(from, to),
        r@.len() <= 2,
{
    let mut r: Vec<ColorType> = Vec::new();
    if from != to {
        if from != ColorType::Rgba && to != ColorType::Rgba {
            r.push(ColorType::Rgba);
        }
        r.push(to);
    }
    r
}

/// Whether channel `channel` goes through the decoding (gamma to linear)
/// branch of the transfer curve when a color is decoded (`inverse`) or
/// encoded. The alpha channel, index 3, always takes the decoding branch.
pub fn transfer_inverse(channel: usize, inverse: bool) -> (r: bool)
    requires
        channel < 4,
    ensures
        r == (inverse || channel == 3),
{
    inverse || channel == 3
}

/// The sector offset used by the hue fold for the red, green and blue output
/// channels (indices 0, 1, 2): 5, 3 and 1.
pub fn hue_fold_offset(channel: usize) -> (r: u8)
    requires
        channel < 3,
    ensures
        r == 5 - 2 * channel,
{
    if channel == 0 {
        5
    } else if channel == 1 {
        3
    } else {
        1
    }
}

/// The hue base, in sixths of the circle, chosen by which channel holds the
/// maximum: 0 for red, 2 for green, 4 for blue. When several channels hold
/// the maximum the first of red, green, blue wins.
pub fn hue_base(max_is_red: bool, max_is_green: bool) -> (r: u8)
    ensures
        r == if max_is_red {
            0u8
        } else if max_is_green {
            2u8
        } else {
            4u8
        },
{
    if max_is_red {
        0
    } else if max_is_green {
        2
    } else {
        4
    }
}

} // verus!
