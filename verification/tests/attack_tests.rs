//! The attack table held against its literal tabulated values, tier by tier,
//! plus the combo clamp, the long-combo plateau and the tier extrapolation.

use tetra_analysis::attack::{btb_level, get_indexed_attack};

/// The tabulated attack values: [tier][category][combo], categories in order
/// Single, Double, Triple, Quad, T-Spin-Mini-Single, T-Spin-Single,
/// T-Spin-Mini-Double, T-Spin-Double, T-Spin-Triple.
const TABLE: [[[usize; 21]; 9]; 5] = [
    [
        [0, 0, 1, 1, 1, 1, 2, 2, 2, 2, 2, 2, 2, 2, 2, 2, 3, 3, 3, 3, 3],
        [1, 1, 1, 1, 2, 2, 2, 2, 3, 3, 3, 3, 4, 4, 4, 4, 5, 5, 5, 5, 6],
        [2, 2, 3, 3, 4, 4, 5, 5, 6, 6, 7, 7, 8, 8, 9, 9, 10, 10, 11, 11, 12],
        [4, 5, 6, 7, 8, 9, 10, 11, 12, 13, 14, 15, 16, 17, 18, 19, 20, 21, 22, 23, 24],
        [0, 0, 1, 1, 1, 1, 2, 2, 2, 2, 2, 2, 2, 2, 2, 2, 3, 3, 3, 3, 3],
        [2, 2, 3, 3, 4, 4, 5, 5, 6, 6, 7, 7, 8, 8, 9, 9, 10, 10, 11, 11, 12],
        [1, 1, 1, 1, 2, 2, 2, 2, 3, 3, 3, 3, 4, 4, 4, 4, 5, 5, 5, 5, 6],
        [4, 5, 6, 7, 8, 9, 10, 11, 12, 13, 14, 15, 16, 17, 18, 19, 20, 21, 22, 23, 24],
        [6, 7, 9, 10, 12, 13, 15, 16, 18, 19, 21, 22, 24, 25, 27, 28, 30, 31, 33, 34, 36],
    ],
    [
        [0; 21],
        [0; 21],
        [0; 21],
        [5, 6, 7, 8, 10, 11, 12, 13, 15, 16, 17, 18, 20, 21, 22, 23, 25, 26, 27, 28, 30],
        [1, 1, 1, 1, 2, 2, 2, 2, 3, 3, 3, 3, 4, 4, 4, 4, 5, 5, 5, 5, 6],
        [3, 3, 4, 5, 6, 6, 7, 8, 9, 9, 10, 11, 12, 12, 13, 14, 15, 15, 16, 17, 18],
        [2, 2, 3, 3, 4, 4, 5, 5, 6, 6, 7, 7, 8, 8, 9, 9, 10, 10, 11, 11, 12],
        [5, 6, 7, 8, 10, 11, 12, 13, 15, 16, 17, 18, 20, 21, 22, 23, 25, 26, 27, 28, 30],
        [7, 8, 10, 12, 14, 15, 17, 19, 21, 22, 24, 26, 28, 29, 31, 33, 35, 36, 38, 40, 42],
    ],
    [
        [0; 21],
        [0; 21],
        [0; 21],
        [6, 7, 9, 10, 12, 13, 15, 16, 18, 19, 21, 22, 24, 25, 27, 28, 30, 31, 33, 34, 36],
        [2, 2, 3, 3, 4, 4, 5, 5, 6, 6, 7, 7, 8, 8, 9, 9, 10, 10, 11, 11, 12],
        [4, 5, 6, 7, 8, 9, 10, 11, 12, 13, 14, 15, 16, 17, 18, 19, 20, 21, 22, 23, 24],
        [3, 3, 4, 5, 6, 6, 7, 8, 9, 9, 10, 11, 12, 12, 13, 14, 15, 15, 16, 17, 18],
        [6, 7, 9, 10, 12, 13, 15, 16, 18, 19, 21, 22, 24, 25, 27, 28, 30, 31, 33, 34, 36],
        [8, 10, 12, 14, 16, 18, 20, 22, 24, 26, 28, 30, 32, 34, 36, 38, 40, 42, 44, 46, 48],
    ],
    [
        [0; 21],
        [0; 21],
        [0; 21],
        [7, 8, 10, 12, 14, 15, 17, 19, 21, 22, 24, 26, 28, 29, 31, 33, 35, 36, 38, 40, 42],
        [3, 3, 4, 5, 6, 6, 7, 8, 9, 9, 10, 11, 12, 12, 13, 14, 15, 15, 16, 17, 18],
        [5, 6, 7, 8, 10, 11, 12, 13, 15, 16, 17, 18, 20, 21, 22, 23, 25, 26, 27, 28, 30],
        [4, 5, 6, 7, 8, 9, 10, 11, 12, 13, 14, 15, 16, 17, 18, 19, 20, 21, 22, 23, 24],
        [7, 8, 10, 12, 14, 15, 17, 19, 21, 22, 24, 26, 28, 29, 31, 33, 35, 36, 38, 40, 42],
        [9, 11, 13, 15, 18, 20, 22, 24, 27, 29, 31, 33, 36, 38, 40, 42, 45, 47, 49, 51, 54],
    ],
    [
        [0; 21],
        [0; 21],
        [0; 21],
        [8, 10, 12, 14, 16, 18, 20, 22, 24, 26, 28, 30, 32, 34, 36, 38, 40, 42, 44, 46, 48],
        [4, 5, 6, 7, 8, 9, 10, 11, 12, 13, 14, 15, 16, 17, 18, 19, 20, 21, 22, 23, 24],
        [6, 7, 9, 10, 12, 13, 15, 16, 18, 19, 21, 22, 24, 25, 27, 28, 30, 31, 33, 34, 36],
        [5, 6, 7, 8, 10, 11, 12, 13, 15, 16, 17, 18, 20, 21, 22, 23, 25, 26, 27, 28, 30],
        [8, 10, 12, 14, 16, 18, 20, 22, 24, 26, 28, 30, 32, 34, 36, 38, 40, 42, 44, 46, 48],
        [10, 12, 15, 17, 20, 22, 25, 27, 30, 32, 35, 37, 40, 42, 45, 47, 50, 52, 55, 57, 60],
    ],
];

/// A streak count sitting at each tier 0 through 4.
const STREAK_AT_TIER: [usize; 5] = [0, 1, 3, 8, 24];

#[test]
fn table_coverage_all_entries() {
    for tier in 0..5 {
        for cat in 0..9 {
            for combo in 0..21 {
                assert_eq!(
                    get_indexed_attack(cat, combo, STREAK_AT_TIER[tier]),
                    TABLE[tier][cat][combo],
                    "tier {} cat {} combo {}",
                    tier,
                    cat,
                    combo
                );
            }
        }
    }
}

#[test]
fn combo_clamp_and_plateau() {
    for tier in 0..5 {
        for cat in 0..9 {
            for combo in 21..60 {
                let expected = if tier == 0 && (cat == 0 || cat == 4) && combo >= 43 {
                    4
                } else {
                    TABLE[tier][cat][20]
                };
                assert_eq!(get_indexed_attack(cat, combo, STREAK_AT_TIER[tier]), expected);
            }
        }
    }
}

#[test]
fn tier_extrapolation() {
    // streaks sitting at tiers 5 through 8
    let high = [(67usize, 5usize), (185, 6), (504, 7), (1370, 8), (999999, 8)];
    for &(streak, tier) in high.iter() {
        for cat in 0..9 {
            for combo in 0..25 {
                let base = get_indexed_attack(cat, combo, 24);
                assert_eq!(get_indexed_attack(cat, combo, streak), base + (tier - 4));
            }
        }
    }
}

#[test]
fn btb_level_thresholds() {
    let cases = [
        (0usize, 0usize),
        (1, 1),
        (2, 1),
        (3, 2),
        (7, 2),
        (8, 3),
        (23, 3),
        (24, 4),
        (66, 4),
        (67, 5),
        (184, 5),
        (185, 6),
        (503, 6),
        (504, 7),
        (1369, 7),
        (1370, 8),
        (1000000, 8),
    ];
    for &(streak, level) in cases.iter() {
        assert_eq!(btb_level(streak), level);
    }
}

#[test]
fn quad_scores_concrete() {
    // a fresh Quad with no streak, then the same Quad one streak in
    assert_eq!(get_indexed_attack(3, 0, 0), 4);
    assert_eq!(get_indexed_attack(3, 0, 1), 5);
}
