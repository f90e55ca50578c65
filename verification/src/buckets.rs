//! Named weight and width buckets for `OS/2.usWeightClass` and
//! `usWidthClass`.
//!
//! The mapping is a fixed lookup, not a formula: the canonical values
//! 100..900 (weight) and 1..9 (width) name one bucket each, and any other
//! value falls back to the nearest named bucket by absolute distance, a tie
//! broken toward the lower bucket.

use vstd::prelude::*;

verus! {

/// The nine named weight buckets, for usWeightClass 100, 200, ... 900.
#[derive(Debug, Clone, Copy, PartialEq, Eq, Structural)]
pub enum WeightBucket {
    Thin,
    ExtraLight,
    Light,
    Normal,
    Medium,
    SemiBold,
    Bold,
    ExtraBold,
    Black,
}

/// The nine named width buckets, for usWidthClass 1 through 9.
#[derive(Debug, Clone, Copy, PartialEq, Eq, Structural)]
pub enum WidthBucket {
    UltraCondensed,
    ExtraCondensed,
    Condensed,
    SemiCondensed,
    Normal,
    SemiExpanded,
    Expanded,
    ExtraExpanded,
    UltraExpanded,
}

/// The canonical usWeightClass of a bucket: 100 for Thin up to 900 for
/// Black.
pub open spec fn weight_bucket_value(b: WeightBucket) -> int {
    match b {
        WeightBucket::Thin => 100,
        WeightBucket::ExtraLight => 200,
        WeightBucket::Light => 300,
        WeightBucket::Normal => 400,
        WeightBucket::Medium => 500,
        WeightBucket::SemiBold => 600,
        WeightBucket::Bold => 700,
        WeightBucket::ExtraBold => 800,
        WeightBucket::Black => 900,
    }
}

/// The bucket whose canonical value is `100 * k`, for `k` in 1..9.
pub open spec fn weight_bucket_of_index(k: int) -> WeightBucket {
    if k <= 1 {
        WeightBucket::Thin
    } else if k == 2 {
        WeightBucket::ExtraLight
    } else if k == 3 {
        WeightBucket::Light
    } else if k == 4 {
        WeightBucket::Normal
    } else if k == 5 {
        WeightBucket::Medium
    } else if k == 6 {
        WeightBucket::SemiBold
    } else if k == 7 {
        WeightBucket::Bold
    } else if k == 8 {
        WeightBucket::ExtraBold
    } else {
        WeightBucket::Black
    }
}

/// The bucket a usWeightClass maps to: round to the nearest multiple of
/// 100, half down, then clamp to 100..900.
pub open spec fn spec_weight_bucket(v: u16) -> WeightBucket {
    weight_bucket_of_index(((v as int) + 49) / 100)
}

/// The canonical usWidthClass of a bucket: 1 for UltraCondensed up to 9 for
/// UltraExpanded.
pub open spec fn width_bucket_value(b: WidthBucket) -> int {
    match b {
        WidthBucket::UltraCondensed => 1,
        WidthBucket::ExtraCondensed => 2,
        WidthBucket::Condensed => 3,
        WidthBucket::SemiCondensed => 4,
        WidthBucket::Normal => 5,
        WidthBucket::SemiExpanded => 6,
        WidthBucket::Expanded => 7,
        WidthBucket::ExtraExpanded => 8,
        WidthBucket::UltraExpanded => 9,
    }
}

/// The bucket whose canonical value is `k`, for `k` in 1..9.
pub open spec fn width_bucket_of_index(k: int) -> WidthBucket {
    if k <= 1 {
        WidthBucket::UltraCondensed
    } else if k == 2 {
        WidthBucket::ExtraCondensed
    } else if k == 3 {
        WidthBucket::Condensed
    } else if k == 4 {
        WidthBucket::SemiCondensed
    } else if k == 5 {
        WidthBucket::Normal
    } else if k == 6 {
        WidthBucket::SemiExpanded
    } else if k == 7 {
        WidthBucket::Expanded
    } else if k == 8 {
        WidthBucket::ExtraExpanded
    } else {
        WidthBucket::UltraExpanded
    }
}

/// The bucket a usWidthClass maps to: the named value itself for 1..9, the
/// nearest end of the scale outside it.
pub open spec fn spec_width_bucket(v: u16) -> WidthBucket {
    width_bucket_of_index(v as int)
}

/// Maps usWeightClass to its named bucket.
pub fn weight_bucket(v: u16) -> (r: WeightBucket)
    ensures
        r == spec_weight_bucket(v),
{
    let k: u32 = ((v as u32) + 49) / 100;
    if k <= 1 {
        WeightBucket::Thin
    } else if k == 2 {
        WeightBucket::ExtraLight
    } else if k == 3 {
        WeightBucket::Light
    } else if k == 4 {
        WeightBucket::Normal
    } else if k == 5 {
        WeightBucket::Medium
    } else if k == 6 {
        WeightBucket::SemiBold
    } else if k == 7 {
        WeightBucket::Bold
    } else if k == 8 {
        WeightBucket::ExtraBold
    } else {
        WeightBucket::Black
    }
}

/// Maps usWidthClass to its named bucket.
pub fn width_bucket(v: u16) -> (r: WidthBucket)
    ensures
        r == spec_width_bucket(v),
{
    if v <= 1 {
        WidthBucket::UltraCondensed
    } else if v == 2 {
        WidthBucket::ExtraCondensed
    } else if v == 3 {
        WidthBucket::Condensed
    } else if v == 4 {
        WidthBucket::SemiCondensed
    } else if v == 5 {
        WidthBucket::Normal
    } else if v == 6 {
        WidthBucket::SemiExpanded
    } else if v == 7 {
        WidthBucket::Expanded
    } else if v == 8 {
        WidthBucket::ExtraExpanded
    } else {
        WidthBucket::UltraExpanded
    }
}

/// The absolute distance between a usWeightClass and a bucket index's
/// canonical value `100 * k`.
pub open spec fn weight_distance(v: int, k: int) -> int {
    if v >= 100 * k {
        v - 100 * k
    } else {
        100 * k - v
    }
}

/// The chosen weight bucket is the nearest named one: no other bucket lies
/// strictly closer to the value, and among equally close buckets the chosen
/// one is the lower.
pub proof fn lemma_weight_bucket_nearest(v: u16, k: int)
    requires
        1 <= k <= 9,
    ensures
        ({
            let c = weight_bucket_value(spec_weight_bucket(v)) / 100;
            weight_distance(v as int, c) < weight_distance(v as int, k) || (weight_distance(
                v as int,
                c,
            ) == weight_distance(v as int, k) && c <= k)
        }),
{
    let q = ((v as int) + 49) / 100;
    assert(100 * q <= (v as int) + 49 < 100 * (q + 1)) by (nonlinear_arith)
        requires
            q == ((v as int) + 49) / 100,
            0 <= v < 0x10000,
    {
    }
    let c = weight_bucket_value(spec_weight_bucket(v)) / 100;
    if q <= 1 {
        assert(c == 1);
    } else if q >= 9 {
        assert(c == 9);
    } else {
        assert(c == q);
    }
}

} // verus!
