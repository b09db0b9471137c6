//! Which way the color scale bars run.

use vstd::prelude::*;
use crate::measure::Measure;

verus! {

/// The color scale bars' orientation for the whole map panel, remembered across
/// frames so that it has hysteresis instead of a bare threshold.
#[derive(Clone, Copy, Debug, PartialEq, Eq, Structural)]
pub struct ColorScaleOrientation {
    horizontal: Option<bool>,
}

/// Height over width, in hundredths, above which bars that run along the side
/// move to the bottom.
pub const HORIZONTAL_ENTER: i64 = 135;

/// Height over width, in hundredths, above which bars along the bottom stay.
pub const HORIZONTAL_EXIT: i64 = 105;

/// Height over width, in hundredths, that decides the first panel.
pub const SEED: i64 = 120;

/// Whether a panel has a shape at all: two finite sides, both above zero.
pub open spec fn laid_out(width: Measure, height: Measure) -> bool {
    width.finite() && height.finite() && width.micro() > 0 && height.micro() > 0
}

/// Whether height over width is more than `hundredths` of one.
pub open spec fn taller_than(width: Measure, height: Measure, hundredths: int) -> bool {
    height.micro() * 100 > width.micro() * hundredths
}

/// The orientation of a panel, given what is remembered.
pub open spec fn resolved(remembered: Option<bool>, width: Measure, height: Measure) -> bool {
    if !laid_out(width, height) {
        remembered.unwrap_or(false)
    } else {
        taller_than(
            width,
            height,
            match remembered {
                None => SEED as int,
                Some(true) => HORIZONTAL_EXIT as int,
                Some(false) => HORIZONTAL_ENTER as int,
            },
        )
    }
}

/// What is remembered once a panel has been seen: its orientation, where it had a
/// shape.
pub open spec fn remembering(
    remembered: Option<bool>,
    width: Measure,
    height: Measure,
) -> Option<bool> {
    if laid_out(width, height) {
        Some(resolved(remembered, width, height))
    } else {
        remembered
    }
}

impl Default for ColorScaleOrientation {
    fn default() -> (r: Self)
        ensures
            r.remembered() is None,
    {
        ColorScaleOrientation { horizontal: None }
    }
}

impl ColorScaleOrientation {
    /// The last orientation, or `None` until a usable panel has been seen.
    pub closed spec fn remembered(self) -> Option<bool> {
        self.horizontal
    }

    /// Resolve the orientation for a panel of this width and height, and
    /// remember it. `true` is bars along the bottom edge. A panel that is not
    /// laid out yet reports what is remembered and changes nothing.
    pub fn resolve(&mut self, width: Measure, height: Measure) -> (r: bool)
        ensures
            r == resolved(old(self).remembered(), width, height),
            final(self).remembered() == remembering(old(self).remembered(), width, height),
            final(self).remembered() == if laid_out(width, height) {
                Some(r)
            } else {
                old(self).remembered()
            },
    {
        let (w, h): (i64, i64) = match (width, height) {
            (Measure::Micro(w), Measure::Micro(h)) => (w, h),
            _ => {
                return self.horizontal.unwrap_or(false);
            },
        };
        if w <= 0 || h <= 0 {
            return self.horizontal.unwrap_or(false);
        }
        let hundredths: i64 = match self.horizontal {
            None => SEED,
            Some(true) => HORIZONTAL_EXIT,
            Some(false) => HORIZONTAL_ENTER,
        };
        assert(w * hundredths <= 0x8000_0000_0000_0000 * 200) by (nonlinear_arith)
            requires
                0 < w <= 0x8000_0000_0000_0000,
                0 <= hundredths <= 200,
        {}
        assert(w * hundredths >= 0) by (nonlinear_arith)
            requires
                0 < w,
                0 <= hundredths,
        {}
        let horizontal: bool = (h as i128) * 100 > (w as i128) * (hundredths as i128);
        self.horizontal = Some(horizontal);
        horizontal
    }
}

/// Between the two edges of the band a remembered orientation stands, whichever
/// it is.
pub proof fn law_band_keeps_orientation(remembered: bool, width: Measure, height: Measure)
    requires
        laid_out(width, height),
        taller_than(width, height, HORIZONTAL_EXIT as int),
        !taller_than(width, height, HORIZONTAL_ENTER as int),
    ensures
        resolved(Some(remembered), width, height) == remembered,
{
}

/// Outside the band the panel's shape decides, whatever is remembered.
pub proof fn law_shape_decides_outside_band(
    remembered: Option<bool>,
    width: Measure,
    height: Measure,
)
    requires
        laid_out(width, height),
    ensures
        taller_than(width, height, HORIZONTAL_ENTER as int) ==> resolved(
            remembered,
            width,
            height,
        ),
        !taller_than(width, height, HORIZONTAL_EXIT as int) ==> !resolved(
            remembered,
            width,
            height,
        ),
{
    let w = width.micro();
    assert(w * HORIZONTAL_EXIT <= w * SEED <= w * HORIZONTAL_ENTER) by (nonlinear_arith)
        requires w > 0, HORIZONTAL_EXIT <= SEED <= HORIZONTAL_ENTER,
    {}
}

/// The first panel's bars run along the bottom where it is more than a fifth
/// higher than wide; from then on they move there above 1.35 and leave below 1.05.
/// A panel without a shape keeps what was remembered, and starts along the side.
pub proof fn law_orientation_goes_by_the_shape(width: i64, height: i64, remembered: Option<bool>)
    ensures
        ({
            let across = Measure::Micro(width);
            let down = Measure::Micro(height);
            let r = resolved(remembered, across, down);
            if width > 0 && height > 0 {
                &&& remembered is None ==> r == (height * 100 > width * 120)
                &&& remembered == Some(false) ==> r == (height * 100 > width * 135)
                &&& remembered == Some(true) ==> r == (height * 100 > width * 105)
                &&& laid_out(across, down)
            } else {
                &&& r == (remembered == Some(true))
                &&& !laid_out(across, down)
            }
        }),
        !laid_out(Measure::NotFinite, Measure::Micro(height)),
        !laid_out(Measure::Micro(width), Measure::NotFinite),
        resolved(remembered, Measure::NotFinite, Measure::Micro(height)) == (remembered == Some(
            true,
        )),
        resolved(remembered, Measure::Micro(width), Measure::NotFinite) == (remembered == Some(
            true,
        )),
{
}

/// A panel that only grows higher never takes its bars away from the bottom.
pub proof fn law_a_higher_panel_keeps_its_bars_below(
    remembered: Option<bool>,
    width: i64,
    height: i64,
    higher: i64,
)
    requires
        0 < width,
        0 < height <= higher,
        resolved(remembered, Measure::Micro(width), Measure::Micro(height)),
    ensures
        resolved(Some(true), Measure::Micro(width), Measure::Micro(higher)),
{
    law_orientation_goes_by_the_shape(width, height, remembered);
    law_orientation_goes_by_the_shape(width, higher, Some(true));
}

/// A panel seen twice is drawn the same way twice, and one without a shape leaves nothing to
/// remember.
pub proof fn law_orientation_settles(remembered: Option<bool>, width: i64, height: i64)
    ensures
        ({
            let across = Measure::Micro(width);
            let down = Measure::Micro(height);
            let after = remembering(remembered, across, down);
            &&& width > 0 && height > 0 ==> after is Some && resolved(after, across, down)
                == resolved(remembered, across, down) && after->0 == resolved(
                remembered,
                across,
                down,
            )
            &&& width <= 0 || height <= 0 ==> after == remembered
        }),
{
    law_orientation_goes_by_the_shape(width, height, remembered);
    law_orientation_goes_by_the_shape(width, height, Some(true));
    law_orientation_goes_by_the_shape(width, height, Some(false));
}

} // verus!
