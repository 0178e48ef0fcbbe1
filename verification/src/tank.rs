//! Tank geometry and the derivation of a fill level from a distance
//! reading.
//!
//! A cuboid tank is described by its inner length, width and height in
//! millimetres. A level snapshot is derived from the median distance
//! reported by the rangefinder: the calibration offset is subtracted, the
//! rest is clamped to the tank height, and filled height, volume and
//! percentage follow by pure arithmetic. One millilitre is one cubic
//! millimetre divided by one thousand, so no unit table is needed.

use vstd::prelude::*;

verus! {

/// Largest accepted tank dimension in millimetres (one hundred metres).
/// Keeping every dimension under this bound keeps all volume arithmetic
/// inside `u64`.
pub const MAX_DIMENSION_MM: u64 = 100_000;

/// Inner dimensions of a cuboid tank, fixed at startup.
pub struct CuboidTank {
    length_mm: u64,
    width_mm: u64,
    height_mm: u64,
}

impl CuboidTank {
    /// Inner length in millimetres, for contracts.
    pub closed spec fn spec_length(&self) -> u64 {
        self.length_mm
    }

    /// Inner width in millimetres, for contracts.
    pub closed spec fn spec_width(&self) -> u64 {
        self.width_mm
    }

    /// Inner height in millimetres, for contracts.
    pub closed spec fn spec_height(&self) -> u64 {
        self.height_mm
    }

    /// Dimensions that the level derivation accepts: positive and small
    /// enough that `length * width * height` stays below `u64::MAX`.
    pub open spec fn valid_dimensions(length_mm: u64, width_mm: u64, height_mm: u64) -> bool {
        0 < length_mm <= MAX_DIMENSION_MM && 0 < width_mm <= MAX_DIMENSION_MM && 0 < height_mm
            <= MAX_DIMENSION_MM
    }

    /// Whether this tank's dimensions are accepted by the level derivation.
    pub open spec fn valid(&self) -> bool {
        Self::valid_dimensions(self.spec_length(), self.spec_width(), self.spec_height())
    }

    pub fn new(length_mm: u64, width_mm: u64, height_mm: u64) -> (tank: Self)
        requires
            Self::valid_dimensions(length_mm, width_mm, height_mm),
        ensures
            tank.valid(),
            tank.spec_length() == length_mm,
            tank.spec_width() == width_mm,
            tank.spec_height() == height_mm,
    {
        CuboidTank { length_mm, width_mm, height_mm }
    }

    /// Inner length in millimetres.
    pub fn length(&self) -> (r: u64)
        ensures
            r == self.spec_length(),
    {
        self.length_mm
    }

    /// Inner width in millimetres.
    pub fn width(&self) -> (r: u64)
        ensures
            r == self.spec_width(),
    {
        self.width_mm
    }

    /// Inner height in millimetres.
    pub fn height(&self) -> (r: u64)
        ensures
            r == self.spec_height(),
    {
        self.height_mm
    }

    /// Volume of a filled slab of the given height, in millilitres,
    /// rounded down.
    pub open spec fn slab_volume_ml(&self, filled_height_mm: u64) -> u64
        recommends
            self.valid(),
            filled_height_mm <= self.spec_height(),
    {
        ((self.spec_length() * self.spec_width() * filled_height_mm) / 1000) as u64
    }

    /// Total volume of the tank in millilitres, rounded down.
    pub fn volume(&self) -> (v: u64)
        requires
            self.valid(),
        ensures
            v == self.slab_volume_ml(self.spec_height()),
    {
        proof {
            lemma_volume_fits(self.length_mm, self.width_mm, self.height_mm, self.height_mm);
        }
        self.length_mm * self.width_mm * self.height_mm / 1000
    }
}

/// A fill level derived from one median distance reading: never cached,
/// always within the tank's bounds.
#[derive(Clone, Copy, Debug, PartialEq, Eq, Structural)]
pub struct LevelSnapshot {
    /// Height of the liquid column in millimetres.
    pub filled_height_mm: u64,
    /// Volume of the liquid in millilitres, rounded down.
    pub volume_ml: u64,
    /// Fill grade in hundredths of a percent, rounded half up.
    pub percent_hundredths: u64,
}

impl LevelSnapshot {
    /// Volume of the liquid in millilitres.
    pub fn volume(&self) -> (r: u64)
        ensures
            r == self.volume_ml,
    {
        self.volume_ml
    }

    /// Fill grade in hundredths of a percent.
    pub fn percentage(&self) -> (r: u64)
        ensures
            r == self.percent_hundredths,
    {
        self.percent_hundredths
    }
}

/// Height of the liquid column for a raw distance reading: the
/// calibration offset is subtracted from the distance and the rest is
/// clamped to `[0, height]`, so readings below the offset count as full
/// and readings beyond `offset + height` count as empty.
pub open spec fn filled_height_spec(tank: &CuboidTank, distance_mm: u64, offset_mm: u64) -> u64 {
    if distance_mm <= offset_mm {
        tank.spec_height()
    } else if distance_mm - offset_mm >= tank.spec_height() {
        0
    } else {
        (tank.spec_height() - (distance_mm - offset_mm)) as u64
    }
}

/// Fill grade in hundredths of a percent, rounded half up.
pub open spec fn percent_hundredths_spec(filled_height_mm: u64, height_mm: u64) -> u64
    recommends
        0 < height_mm,
        filled_height_mm <= height_mm,
{
    ((filled_height_mm * 20000 + height_mm) / (2 * height_mm)) as u64
}

/// The whole snapshot a distance reading derives to, as one value.
pub open spec fn level_spec(tank: &CuboidTank, distance_mm: u64, offset_mm: u64) -> LevelSnapshot {
    let filled = filled_height_spec(tank, distance_mm, offset_mm);
    (LevelSnapshot {
        filled_height_mm: filled,
        volume_ml: tank.slab_volume_ml(filled),
        percent_hundredths: percent_hundredths_spec(filled, tank.spec_height()),
    })
}

/// Derives a level snapshot from a median distance reading. Deterministic
/// and total: any distance is accepted, out-of-range readings clamp to
/// the full or empty bound.
pub fn compute(median_distance_mm: u64, tank: &CuboidTank, offset_mm: u64) -> (snap: LevelSnapshot)
    requires
        tank.valid(),
    ensures
        snap == level_spec(tank, median_distance_mm, offset_mm),
        snap.filled_height_mm == filled_height_spec(tank, median_distance_mm, offset_mm),
        snap.volume_ml == tank.slab_volume_ml(snap.filled_height_mm),
        snap.percent_hundredths == percent_hundredths_spec(snap.filled_height_mm, tank.spec_height()),
        snap.filled_height_mm <= tank.spec_height(),
        snap.volume_ml <= tank.slab_volume_ml(tank.spec_height()),
        snap.percent_hundredths <= 10000,
{
    let height = tank.height();
    let filled: u64 = if median_distance_mm <= offset_mm {
        height
    } else if median_distance_mm - offset_mm >= height {
        0
    } else {
        height - (median_distance_mm - offset_mm)
    };
    proof {
        lemma_volume_fits(tank.spec_length(), tank.spec_width(), tank.spec_height(), filled);
        lemma_volume_monotonic(tank, filled);
        lemma_percent_bound(filled, height);
    }
    let volume_ml = tank.length() * tank.width() * filled / 1000;
    let percent_hundredths = (filled * 20000 + height) / (2 * height);
    LevelSnapshot { filled_height_mm: filled, volume_ml, percent_hundredths }
}

/// A reading at or below the calibration offset clamps to a full tank,
/// and a reading at or beyond the offset plus the tank height clamps to
/// an empty one: the derived level never leaves `[0, height]` or
/// `[0, 100%]`.
pub proof fn lemma_level_clamping(tank: &CuboidTank, distance_mm: u64, offset_mm: u64)
    requires
        tank.valid(),
    ensures
        distance_mm <= offset_mm ==> filled_height_spec(tank, distance_mm, offset_mm)
            == tank.spec_height(),
        distance_mm <= offset_mm ==> percent_hundredths_spec(
            filled_height_spec(tank, distance_mm, offset_mm),
            tank.spec_height(),
        ) == 10000,
        offset_mm + tank.spec_height() <= distance_mm ==> filled_height_spec(
            tank,
            distance_mm,
            offset_mm,
        ) == 0,
        offset_mm + tank.spec_height() <= distance_mm ==> percent_hundredths_spec(
            filled_height_spec(tank, distance_mm, offset_mm),
            tank.spec_height(),
        ) == 0,
{
    let h = tank.spec_height() as int;
    vstd::arithmetic::div_mod::lemma_fundamental_div_mod_converse(
        h * 20000 + h,
        2 * h,
        10000,
        h,
    );
    vstd::arithmetic::div_mod::lemma_fundamental_div_mod_converse(h, 2 * h, 0, h);
}

/// The volume of a partial fill never exceeds the volume of the full tank.
proof fn lemma_volume_monotonic(tank: &CuboidTank, filled_mm: u64)
    requires
        tank.valid(),
        filled_mm <= tank.spec_height(),
    ensures
        tank.slab_volume_ml(filled_mm) <= tank.slab_volume_ml(tank.spec_height()),
{
    let l = tank.spec_length();
    let w = tank.spec_width();
    let h = tank.spec_height();
    lemma_volume_fits(l, w, h, filled_mm);
    lemma_volume_fits(l, w, h, h);
    assert(l * w * filled_mm <= l * w * h) by (nonlinear_arith)
        requires
            0 < l,
            0 < w,
            filled_mm <= h,
    ;
    vstd::arithmetic::div_mod::lemma_div_is_ordered(
        (l * w * filled_mm) as int,
        (l * w * h) as int,
        1000,
    );
}

/// The rounded percentage of a fill that does not exceed the height stays
/// at or below one hundred percent.
proof fn lemma_percent_bound(filled_mm: u64, height_mm: u64)
    requires
        0 < height_mm,
        filled_mm <= height_mm,
    ensures
        percent_hundredths_spec(filled_mm, height_mm) <= 10000,
{
    assert((filled_mm * 20000 + height_mm) / (2 * height_mm) <= 10000) by (nonlinear_arith)
        requires
            0 < height_mm,
            filled_mm <= height_mm,
    ;
}

/// The product of valid dimensions stays below `u64::MAX`.
proof fn lemma_volume_fits(length_mm: u64, width_mm: u64, height_mm: u64, filled_mm: u64)
    requires
        CuboidTank::valid_dimensions(length_mm, width_mm, height_mm),
        filled_mm <= height_mm,
    ensures
        length_mm * width_mm <= MAX_DIMENSION_MM * MAX_DIMENSION_MM,
        length_mm * width_mm * filled_mm <= MAX_DIMENSION_MM * MAX_DIMENSION_MM * MAX_DIMENSION_MM,
{
    assert(length_mm * width_mm <= MAX_DIMENSION_MM * MAX_DIMENSION_MM && length_mm * width_mm
        * filled_mm <= MAX_DIMENSION_MM * MAX_DIMENSION_MM * MAX_DIMENSION_MM) by (nonlinear_arith)
        requires
            0 < length_mm <= MAX_DIMENSION_MM,
            0 < width_mm <= MAX_DIMENSION_MM,
            filled_mm <= MAX_DIMENSION_MM,
    ;
}

} // verus!
