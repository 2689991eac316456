use vstd::prelude::*;

verus! {

/// Lengths, colour components and factors are whole numbers of thousandths,
/// so that all layout arithmetic is exact integer arithmetic.
pub const THOUSANDTHS: u64 = 1000;

/// Pixels in one rem at the base font size.
pub const BASE_REM_SIZE_IN_PX: u64 = 16;

/// A length in thousandths of a pixel.
#[derive(Clone, Copy, Debug, PartialEq, Eq, Structural)]
pub struct Pixels(pub u64);

/// A length in thousandths of a rem, the root font size.
#[derive(Clone, Copy, Debug, PartialEq, Eq, Structural)]
pub struct Rems(pub u64);

/// A length that does not depend on its container.
#[derive(Clone, Copy, Debug, PartialEq, Eq, Structural)]
pub enum AbsoluteLength {
    Pixels(Pixels),
    Rems(Rems),
}

/// The smaller of `n` and the largest length that can be held.
pub open spec fn saturated(n: int) -> u64 {
    if n > u64::MAX {
        u64::MAX
    } else {
        n as u64
    }
}

/// `whole` pixels.
pub fn px(whole: u32) -> (r: Pixels)
    ensures
        r.0 == whole * 1000,
{
    Pixels((whole as u64) * THOUSANDTHS)
}

/// The length in rems that is `px` at the base font size, rounded down to a
/// thousandth.
pub fn rems_from_px(px: Pixels) -> (r: Rems)
    ensures
        r.0 == px.0 / 16,
{
    Rems(px.0 / BASE_REM_SIZE_IN_PX)
}

impl Pixels {
    /// The sum of two lengths; the largest length if the sum cannot be held.
    pub fn plus(self, other: Pixels) -> (r: Pixels)
        ensures
            r.0 == saturated(self.0 + other.0),
    {
        if self.0 > u64::MAX - other.0 {
            Pixels(u64::MAX)
        } else {
            Pixels(self.0 + other.0)
        }
    }

    /// Twice the length; the largest length if that cannot be held.
    pub fn doubled(self) -> (r: Pixels)
        ensures
            r.0 == saturated(2 * self.0),
    {
        self.plus(self)
    }
}

impl Rems {
    /// The length in pixels when one rem is `rem_size`, rounded down to a
    /// thousandth of a pixel; the largest length if that cannot be held.
    pub fn to_pixels(self, rem_size: Pixels) -> (r: Pixels)
        ensures
            r.0 == saturated((self.0 * rem_size.0) / 1000),
    {
        let a: u128 = self.0 as u128;
        let b: u128 = rem_size.0 as u128;
        assert(a * b <= 0xffff_ffff_ffff_ffff * 0xffff_ffff_ffff_ffff) by (nonlinear_arith)
            requires
                0 <= a <= 0xffff_ffff_ffff_ffff,
                0 <= b <= 0xffff_ffff_ffff_ffff,
        ;
        let wide: u128 = a * b / 1000;
        if wide > u64::MAX as u128 {
            Pixels(u64::MAX)
        } else {
            Pixels(wide as u64)
        }
    }
}

impl AbsoluteLength {
    /// The length in pixels when one rem is `rem_size`.
    pub fn to_pixels(self, rem_size: Pixels) -> (r: Pixels)
        ensures
            r == match self {
                AbsoluteLength::Pixels(pixels) => pixels,
                AbsoluteLength::Rems(rems) => Pixels(
                    saturated((rems.0 * rem_size.0) / 1000),
                ),
            },
    {
        match self {
            AbsoluteLength::Pixels(pixels) => pixels,
            AbsoluteLength::Rems(rems) => rems.to_pixels(rem_size),
        }
    }
}

/// A colour by hue, saturation, lightness and opacity, each in thousandths
/// of its full range.
#[derive(Clone, Copy, Debug, PartialEq, Eq, Structural)]
pub struct Hsla {
    pub h: u16,
    pub s: u16,
    pub l: u16,
    pub a: u16,
}

/// `n`, but no more than the full range of a colour component.
pub open spec fn clamped(n: u16) -> u16 {
    if n > 1000 {
        1000
    } else {
        n
    }
}

fn clamp(n: u16) -> (r: u16)
    ensures
        r == clamped(n),
{
    if n > 1000 {
        1000
    } else {
        n
    }
}

/// The colour with the given components, each cut off at its full range.
pub fn hsla(h: u16, s: u16, l: u16, a: u16) -> (r: Hsla)
    ensures
        r == (Hsla { h: clamped(h), s: clamped(s), l: clamped(l), a: clamped(a) }),
{
    Hsla { h: clamp(h), s: clamp(s), l: clamp(l), a: clamp(a) }
}

/// A point of the plane.
#[derive(Clone, Copy, Debug, PartialEq, Eq, Structural)]
pub struct Point {
    pub x: Pixels,
    pub y: Pixels,
}

/// The extent of a rectangle.
#[derive(Clone, Copy, Debug, PartialEq, Eq, Structural)]
pub struct Size {
    pub width: Pixels,
    pub height: Pixels,
}

/// A rectangle by its origin and its extent.
#[derive(Clone, Copy, Debug, PartialEq, Eq, Structural)]
pub struct Bounds {
    pub origin: Point,
    pub size: Size,
}

/// What is done to a drawing before it is painted: scaled, moved, turned.
#[derive(Clone, Copy, Debug, PartialEq, Eq, Structural)]
pub struct Transformation {
    /// Factor by width, in thousandths.
    pub scale_x: u64,
    /// Factor by height, in thousandths.
    pub scale_y: u64,
    pub translate: Point,
    /// Clockwise turn in thousandths of a radian.
    pub rotate: u64,
}

impl Default for Transformation {
    /// The transformation that changes nothing.
    fn default() -> (r: Transformation)
        ensures
            r == (Transformation {
                scale_x: 1000,
                scale_y: 1000,
                translate: Point { x: Pixels(0), y: Pixels(0) },
                rotate: 0,
            }),
    {
        Transformation {
            scale_x: 1000,
            scale_y: 1000,
            translate: Point { x: Pixels(0), y: Pixels(0) },
            rotate: 0,
        }
    }
}

} // verus!
