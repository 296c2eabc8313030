use vstd::prelude::*;

verus! {

/// A colour as four premultiplied channels: red, green, blue and alpha.
#[derive(Clone, Copy, Debug, PartialEq, Eq, Structural)]
pub struct Rgba {
    pub r: u8,
    pub g: u8,
    pub b: u8,
    pub a: u8,
}

/// A channel `c` premultiplied by the alpha `a`: `c * a / 255`, rounded to
/// the nearest integer (the exact quotient is never halfway).
pub open spec fn premultiply_channel(c: u8, a: u8) -> u8 {
    ((c as int * a as int + 127) / 255) as u8
}

/// Premultiplying by full alpha keeps a channel, and by zero alpha clears it.
pub proof fn lemma_premultiply_extremes(c: u8)
    ensures
        premultiply_channel(c, 255) == c,
        premultiply_channel(c, 0) == 0,
{
    assert((c as int * 255 + 127) / 255 == c as int) by (nonlinear_arith);
}

/// Builds the colour with `egui::Color32::from_rgba_unmultiplied` and reads its
/// four channels back.  By the source of `ecolor`, alpha 0 gives all zeros,
/// alpha 255 keeps the channels, and any other alpha keeps alpha and rounds
/// each channel times `a / 255` to the nearest integer.  In every case the
/// channels are `premultiply_channel` of the inputs.
#[verifier::external_body]
fn egui_premultiply(r: u8, g: u8, b: u8, a: u8) -> (res: (u8, u8, u8, u8))
    ensures
        res == (
            premultiply_channel(r, a),
            premultiply_channel(g, a),
            premultiply_channel(b, a),
            a,
        ),
{
    let c = egui::Color32::from_rgba_unmultiplied(r, g, b, a);
    (c.r(), c.g(), c.b(), c.a())
}

impl Rgba {
    /// An opaque colour: alpha 255.
    pub fn from_rgb(r: u8, g: u8, b: u8) -> (c: Rgba)
        ensures
            c == (Rgba { r, g, b, a: 255 }),
    {
        Rgba { r, g, b, a: 255 }
    }

    /// An opaque gray of the given lightness.
    pub fn from_gray(l: u8) -> (c: Rgba)
        ensures
            c == (Rgba { r: l, g: l, b: l, a: 255 }),
    {
        Rgba { r: l, g: l, b: l, a: 255 }
    }

    /// The fully transparent colour.
    pub fn transparent() -> (c: Rgba)
        ensures
            c == (Rgba { r: 0, g: 0, b: 0, a: 0 }),
    {
        Rgba { r: 0, g: 0, b: 0, a: 0 }
    }

    /// An sRGB colour with a separate alpha, premultiplied as egui stores it.
    pub fn from_rgba_unmultiplied(r: u8, g: u8, b: u8, a: u8) -> (c: Rgba)
        ensures
            c == (Rgba {
                r: premultiply_channel(r, a),
                g: premultiply_channel(g, a),
                b: premultiply_channel(b, a),
                a,
            }),
            a == 255 ==> c == (Rgba { r, g, b, a: 255 }),
            a == 0 ==> c == (Rgba { r: 0, g: 0, b: 0, a: 0 }),
    {
        proof {
            lemma_premultiply_extremes(r);
            lemma_premultiply_extremes(g);
            lemma_premultiply_extremes(b);
        }
        let (pr, pg, pb, pa) = egui_premultiply(r, g, b, a);
        Rgba { r: pr, g: pg, b: pb, a: pa }
    }
}

/// Premultiplying rounds `c * a / 255` to the nearest integer: the result
/// times 255 is within 127 of `c * a`, and the result never exceeds `c`.
pub proof fn law_premultiply_rounds_to_nearest(c: u8, a: u8)
    ensures
        -127 <= 255 * (premultiply_channel(c, a) as int) - c as int * a as int <= 127,
        premultiply_channel(c, a) <= c,
{
    let ca = c as int * a as int;
    assert(0 <= ca <= 255 * 255) by (nonlinear_arith)
        requires
            ca == c as int * a as int,
            0 <= c <= 255,
            0 <= a <= 255,
    ;
    let q = (ca + 127) / 255;
    assert(255 * q <= ca + 127 < 255 * q + 255);
    assert(q <= 255);
    assert(premultiply_channel(c, a) as int == q);
    assert(q <= c as int) by (nonlinear_arith)
        requires
            255 * q <= ca + 127,
            ca == c as int * a as int,
            0 <= c <= 255,
            0 <= a <= 255,
    ;
}

} // verus!
