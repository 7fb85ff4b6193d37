//! The attack scoring model: a fixed table from (back-to-back tier, clear
//! category, clamped combo) to an attack value, with a plateau for very long
//! combos on the two weakest tier-0 rows and a linear extrapolation for
//! back-to-back tiers past the tabulated range.
//!
//! Clear categories are indexed 0 through 8: Single, Double, Triple, Quad,
//! T-Spin-Mini-Single, T-Spin-Single, T-Spin-Mini-Double, T-Spin-Double,
//! T-Spin-Triple.

use vstd::prelude::*;

verus! {

/// The back-to-back tier of a raw streak count: the tier steps up at streak
/// counts 1, 3, 8, 24, 67, 185, 504 and 1370, and is capped at 8.
pub open spec fn spec_btb_level(btb: int) -> int {
    if btb < 1 {
        0
    } else if btb < 3 {
        1
    } else if btb < 8 {
        2
    } else if btb < 24 {
        3
    } else if btb < 67 {
        4
    } else if btb < 185 {
        5
    } else if btb < 504 {
        6
    } else if btb < 1370 {
        7
    } else {
        8
    }
}

/// The distinct rows of the attack table, one ladder of tabulated combo
/// scalings: row k holds the table's literal values, entry by entry, for
/// the clamped combo index `m`, 0 through 20. Row k starts at value k.
pub open spec fn spec_ladder_row(k: int, m: int) -> int {
    if k == 0 {
        // the Single row
        if m == 0 {
            0
        } else if m == 1 {
            0
        } else if m == 2 {
            1
        } else if m == 3 {
            1
        } else if m == 4 {
            1
        } else if m == 5 {
            1
        } else if m == 6 {
            2
        } else if m == 7 {
            2
        } else if m == 8 {
            2
        } else if m == 9 {
            2
        } else if m == 10 {
            2
        } else if m == 11 {
            2
        } else if m == 12 {
            2
        } else if m == 13 {
            2
        } else if m == 14 {
            2
        } else if m == 15 {
            2
        } else if m == 16 {
            3
        } else if m == 17 {
            3
        } else if m == 18 {
            3
        } else if m == 19 {
            3
        } else {
            3
        }
    } else if k == 1 {
        // the Double row
        if m == 0 {
            1
        } else if m == 1 {
            1
        } else if m == 2 {
            1
        } else if m == 3 {
            1
        } else if m == 4 {
            2
        } else if m == 5 {
            2
        } else if m == 6 {
            2
        } else if m == 7 {
            2
        } else if m == 8 {
            3
        } else if m == 9 {
            3
        } else if m == 10 {
            3
        } else if m == 11 {
            3
        } else if m == 12 {
            4
        } else if m == 13 {
            4
        } else if m == 14 {
            4
        } else if m == 15 {
            4
        } else if m == 16 {
            5
        } else if m == 17 {
            5
        } else if m == 18 {
            5
        } else if m == 19 {
            5
        } else {
            6
        }
    } else if k == 2 {
        // the Triple row
        if m == 0 {
            2
        } else if m == 1 {
            2
        } else if m == 2 {
            3
        } else if m == 3 {
            3
        } else if m == 4 {
            4
        } else if m == 5 {
            4
        } else if m == 6 {
            5
        } else if m == 7 {
            5
        } else if m == 8 {
            6
        } else if m == 9 {
            6
        } else if m == 10 {
            7
        } else if m == 11 {
            7
        } else if m == 12 {
            8
        } else if m == 13 {
            8
        } else if m == 14 {
            9
        } else if m == 15 {
            9
        } else if m == 16 {
            10
        } else if m == 17 {
            10
        } else if m == 18 {
            11
        } else if m == 19 {
            11
        } else {
            12
        }
    } else if k == 3 {
        // the row starting at 3
        if m == 0 {
            3
        } else if m == 1 {
            3
        } else if m == 2 {
            4
        } else if m == 3 {
            5
        } else if m == 4 {
            6
        } else if m == 5 {
            6
        } else if m == 6 {
            7
        } else if m == 7 {
            8
        } else if m == 8 {
            9
        } else if m == 9 {
            9
        } else if m == 10 {
            10
        } else if m == 11 {
            11
        } else if m == 12 {
            12
        } else if m == 13 {
            12
        } else if m == 14 {
            13
        } else if m == 15 {
            14
        } else if m == 16 {
            15
        } else if m == 17 {
            15
        } else if m == 18 {
            16
        } else if m == 19 {
            17
        } else {
            18
        }
    } else if k == 4 {
        // the Quad row
        if m == 0 {
            4
        } else if m == 1 {
            5
        } else if m == 2 {
            6
        } else if m == 3 {
            7
        } else if m == 4 {
            8
        } else if m == 5 {
            9
        } else if m == 6 {
            10
        } else if m == 7 {
            11
        } else if m == 8 {
            12
        } else if m == 9 {
            13
        } else if m == 10 {
            14
        } else if m == 11 {
            15
        } else if m == 12 {
            16
        } else if m == 13 {
            17
        } else if m == 14 {
            18
        } else if m == 15 {
            19
        } else if m == 16 {
            20
        } else if m == 17 {
            21
        } else if m == 18 {
            22
        } else if m == 19 {
            23
        } else {
            24
        }
    } else if k == 5 {
        // the row starting at 5
        if m == 0 {
            5
        } else if m == 1 {
            6
        } else if m == 2 {
            7
        } else if m == 3 {
            8
        } else if m == 4 {
            10
        } else if m == 5 {
            11
        } else if m == 6 {
            12
        } else if m == 7 {
            13
        } else if m == 8 {
            15
        } else if m == 9 {
            16
        } else if m == 10 {
            17
        } else if m == 11 {
            18
        } else if m == 12 {
            20
        } else if m == 13 {
            21
        } else if m == 14 {
            22
        } else if m == 15 {
            23
        } else if m == 16 {
            25
        } else if m == 17 {
            26
        } else if m == 18 {
            27
        } else if m == 19 {
            28
        } else {
            30
        }
    } else if k == 6 {
        // the row starting at 6
        if m == 0 {
            6
        } else if m == 1 {
            7
        } else if m == 2 {
            9
        } else if m == 3 {
            10
        } else if m == 4 {
            12
        } else if m == 5 {
            13
        } else if m == 6 {
            15
        } else if m == 7 {
            16
        } else if m == 8 {
            18
        } else if m == 9 {
            19
        } else if m == 10 {
            21
        } else if m == 11 {
            22
        } else if m == 12 {
            24
        } else if m == 13 {
            25
        } else if m == 14 {
            27
        } else if m == 15 {
            28
        } else if m == 16 {
            30
        } else if m == 17 {
            31
        } else if m == 18 {
            33
        } else if m == 19 {
            34
        } else {
            36
        }
    } else if k == 7 {
        // the row starting at 7
        if m == 0 {
            7
        } else if m == 1 {
            8
        } else if m == 2 {
            10
        } else if m == 3 {
            12
        } else if m == 4 {
            14
        } else if m == 5 {
            15
        } else if m == 6 {
            17
        } else if m == 7 {
            19
        } else if m == 8 {
            21
        } else if m == 9 {
            22
        } else if m == 10 {
            24
        } else if m == 11 {
            26
        } else if m == 12 {
            28
        } else if m == 13 {
            29
        } else if m == 14 {
            31
        } else if m == 15 {
            33
        } else if m == 16 {
            35
        } else if m == 17 {
            36
        } else if m == 18 {
            38
        } else if m == 19 {
            40
        } else {
            42
        }
    } else if k == 8 {
        // the row starting at 8
        if m == 0 {
            8
        } else if m == 1 {
            10
        } else if m == 2 {
            12
        } else if m == 3 {
            14
        } else if m == 4 {
            16
        } else if m == 5 {
            18
        } else if m == 6 {
            20
        } else if m == 7 {
            22
        } else if m == 8 {
            24
        } else if m == 9 {
            26
        } else if m == 10 {
            28
        } else if m == 11 {
            30
        } else if m == 12 {
            32
        } else if m == 13 {
            34
        } else if m == 14 {
            36
        } else if m == 15 {
            38
        } else if m == 16 {
            40
        } else if m == 17 {
            42
        } else if m == 18 {
            44
        } else if m == 19 {
            46
        } else {
            48
        }
    } else if k == 9 {
        // the row starting at 9
        if m == 0 {
            9
        } else if m == 1 {
            11
        } else if m == 2 {
            13
        } else if m == 3 {
            15
        } else if m == 4 {
            18
        } else if m == 5 {
            20
        } else if m == 6 {
            22
        } else if m == 7 {
            24
        } else if m == 8 {
            27
        } else if m == 9 {
            29
        } else if m == 10 {
            31
        } else if m == 11 {
            33
        } else if m == 12 {
            36
        } else if m == 13 {
            38
        } else if m == 14 {
            40
        } else if m == 15 {
            42
        } else if m == 16 {
            45
        } else if m == 17 {
            47
        } else if m == 18 {
            49
        } else if m == 19 {
            51
        } else {
            54
        }
    } else {
        // the row starting at 10
        if m == 0 {
            10
        } else if m == 1 {
            12
        } else if m == 2 {
            15
        } else if m == 3 {
            17
        } else if m == 4 {
            20
        } else if m == 5 {
            22
        } else if m == 6 {
            25
        } else if m == 7 {
            27
        } else if m == 8 {
            30
        } else if m == 9 {
            32
        } else if m == 10 {
            35
        } else if m == 11 {
            37
        } else if m == 12 {
            40
        } else if m == 13 {
            42
        } else if m == 14 {
            45
        } else if m == 15 {
            47
        } else if m == 16 {
            50
        } else if m == 17 {
            52
        } else if m == 18 {
            55
        } else if m == 19 {
            57
        } else {
            60
        }
    }
}

/// The tabulated attack value for a tier 0 through 4, a category 0 through 8
/// and a clamped combo index 0 through 20. Single, Double and Triple score
/// zero on every tier past 0; the back-to-back-scaled categories climb the
/// ladder one row per tier, each from its own starting row.
pub open spec fn spec_table(tier: int, cat: int, m: int) -> int {
    if cat == 0 {
        if tier == 0 {
            spec_ladder_row(0, m)
        } else {
            0
        }
    } else if cat == 1 {
        if tier == 0 {
            spec_ladder_row(1, m)
        } else {
            0
        }
    } else if cat == 2 {
        if tier == 0 {
            spec_ladder_row(2, m)
        } else {
            0
        }
    } else if cat == 3 {
        spec_ladder_row(4 + tier, m)
    } else if cat == 4 {
        spec_ladder_row(tier, m)
    } else if cat == 5 {
        spec_ladder_row(2 + tier, m)
    } else if cat == 6 {
        spec_ladder_row(1 + tier, m)
    } else if cat == 7 {
        spec_ladder_row(4 + tier, m)
    } else {
        spec_ladder_row(6 + tier, m)
    }
}

/// A combo count clamped to the table's 21 columns.
pub open spec fn spec_clamped_combo(combo: int) -> int {
    if combo < 21 {
        combo
    } else {
        20
    }
}

/// The attack value of a clear: the tabulated value at the streak's tier for
/// tiers up to 4 — except the flat plateau of 4 for combos of 43 and more on
/// tier 0 of Single and T-Spin-Mini-Single — and, past tier 4, the tier-4
/// value plus one for every tier above 4.
pub open spec fn spec_attack(cat: int, combo: int, btb: int) -> int {
    let tier = spec_btb_level(btb);
    if tier <= 4 {
        if tier == 0 && (cat == 0 || cat == 4) && combo >= 43 {
            4
        } else {
            spec_table(tier, cat, spec_clamped_combo(combo))
        }
    } else {
        spec_table(4, cat, spec_clamped_combo(combo)) + (tier - 4)
    }
}

/// Maps a raw back-to-back streak count to its tier, 0 through 8.
pub fn btb_level(btb: usize) -> (r: usize)
    ensures
        r == spec_btb_level(btb as int),
{
    if btb < 1 {
        0
    } else if btb < 3 {
        1
    } else if btb < 8 {
        2
    } else if btb < 24 {
        3
    } else if btb < 67 {
        4
    } else if btb < 185 {
        5
    } else if btb < 504 {
        6
    } else if btb < 1370 {
        7
    } else {
        8
    }
}

/// One ladder row of the table, computed by the row's cadence — every fourth
/// combo, every second, every one — and proved equal to the tabulated values.
fn ladder_row(k: usize, m: usize) -> (r: usize)
    requires
        k < 11,
        m < 21,
    ensures
        r == spec_ladder_row(k as int, m as int),
        r <= 60,
{
    if k == 0 {
        if m < 2 {
            0
        } else if m < 6 {
            1
        } else if m < 16 {
            2
        } else {
            3
        }
    } else if k == 1 {
        1 + m / 4
    } else if k == 2 {
        2 + m / 2
    } else if k == 3 {
        3 + m - (m + 3) / 4
    } else if k == 4 {
        4 + m
    } else if k == 5 {
        5 + m + m / 4
    } else if k == 6 {
        6 + m + m / 2
    } else if k == 7 {
        7 + 2 * m - (m + 3) / 4
    } else if k == 8 {
        8 + 2 * m
    } else if k == 9 {
        9 + 2 * m + m / 4
    } else {
        10 + 2 * m + m / 2
    }
}

/// One tabulated entry, executed.
fn table_value(tier: usize, cat: usize, m: usize) -> (r: usize)
    requires
        tier <= 4,
        cat < 9,
        m < 21,
    ensures
        r == spec_table(tier as int, cat as int, m as int),
        r <= 60,
{
    if cat == 0 {
        if tier == 0 {
            ladder_row(0, m)
        } else {
            0
        }
    } else if cat == 1 {
        if tier == 0 {
            ladder_row(1, m)
        } else {
            0
        }
    } else if cat == 2 {
        if tier == 0 {
            ladder_row(2, m)
        } else {
            0
        }
    } else if cat == 3 {
        ladder_row(4 + tier, m)
    } else if cat == 4 {
        ladder_row(tier, m)
    } else if cat == 5 {
        ladder_row(2 + tier, m)
    } else if cat == 6 {
        ladder_row(1 + tier, m)
    } else {
        if cat == 7 {
            ladder_row(4 + tier, m)
        } else {
            ladder_row(6 + tier, m)
        }
    }
}

/// Gets the attack amount of a clear from the attack table, given the clear's
/// category index, the running combo count and the back-to-back streak count.
pub fn get_indexed_attack(clear_type_index: usize, combo: usize, btb: usize) -> (r: usize)
    requires
        clear_type_index < 9,
    ensures
        r == spec_attack(clear_type_index as int, combo as int, btb as int),
        r <= 64,
{
    let tier = btb_level(btb);
    let m = if combo < 21 {
        combo
    } else {
        20
    };
    if tier <= 4 {
        if tier == 0 && (clear_type_index == 0 || clear_type_index == 4) && combo >= 43 {
            4
        } else {
            table_value(tier, clear_type_index, m)
        }
    } else {
        table_value(4, clear_type_index, m) + (tier - 4)
    }
}

/// Every attack value is between 0 and 64: the table never exceeds 60 and the
/// extrapolation past tier 4 adds at most 4.
pub proof fn lemma_attack_bounded(cat: int, combo: int, btb: int)
    requires
        0 <= cat < 9,
        0 <= combo,
        0 <= btb,
    ensures
        0 <= spec_attack(cat, combo, btb) <= 64,
{
}

/// Table coverage: for every streak whose tier is at most 4 and every combo
/// inside the table's 21 columns, the score is exactly the tabulated value.
pub proof fn lemma_table_coverage(cat: int, combo: int, btb: int)
    requires
        0 <= cat < 9,
        0 <= combo <= 20,
        0 <= btb,
        spec_btb_level(btb) <= 4,
    ensures
        spec_attack(cat, combo, btb) == spec_table(spec_btb_level(btb), cat, combo),
{
}

/// Combo clamping: past the table's last column the score stays at the
/// column-20 value, except the documented plateau of 4 from combo 43 on for
/// tier 0 of Single and T-Spin-Mini-Single.
pub proof fn lemma_combo_clamp(cat: int, combo: int, btb: int)
    requires
        0 <= cat < 9,
        combo >= 21,
        0 <= btb,
        spec_btb_level(btb) <= 4,
    ensures
        (spec_btb_level(btb) == 0 && (cat == 0 || cat == 4) && combo >= 43) ==> spec_attack(
            cat,
            combo,
            btb,
        ) == 4,
        !(spec_btb_level(btb) == 0 && (cat == 0 || cat == 4) && combo >= 43) ==> spec_attack(
            cat,
            combo,
            btb,
        ) == spec_table(spec_btb_level(btb), cat, 20),
{
}

/// Tier extrapolation: past tier 4, the score equals the score of any streak
/// sitting at tier 4 plus one for every tier above 4.
pub proof fn lemma_tier_extrapolation(cat: int, combo: int, btb: int, streak_at_tier_4: int)
    requires
        0 <= cat < 9,
        0 <= combo,
        0 <= btb,
        spec_btb_level(btb) > 4,
        spec_btb_level(streak_at_tier_4) == 4,
    ensures
        spec_attack(cat, combo, btb) == spec_attack(cat, combo, streak_at_tier_4) + (spec_btb_level(
            btb,
        ) - 4),
{
}

} // verus!
