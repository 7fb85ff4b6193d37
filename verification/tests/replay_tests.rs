//! Decoding of clear types and cell states from their wire codes, and the
//! two clear-type predicates.

use tetra_analysis::replay_response::{ClearType, MinoType, OutOfBoundsError};

#[test]
fn clear_type_codes_decode() {
    let expected = [
        ClearType::NoClear,
        ClearType::TspinMini,
        ClearType::Tspin,
        ClearType::TspinMiniSingle,
        ClearType::TspinSingle,
        ClearType::Single,
        ClearType::TspinMiniDouble,
        ClearType::TspinDouble,
        ClearType::Double,
        ClearType::TspinTriple,
        ClearType::Triple,
        ClearType::TspinQuad,
        ClearType::Quad,
        ClearType::TspinPenta,
        ClearType::Penta,
        ClearType::PerfectClear,
    ];
    for code in 0u8..16 {
        assert_eq!(ClearType::try_from(code), Ok(expected[code as usize]));
    }
    assert_eq!(ClearType::try_from(16), Err(OutOfBoundsError(16)));
    assert_eq!(ClearType::try_from(255), Err(OutOfBoundsError(255)));
}

#[test]
fn mino_type_codes_decode() {
    let expected = [
        MinoType::Z,
        MinoType::L,
        MinoType::O,
        MinoType::S,
        MinoType::I,
        MinoType::J,
        MinoType::T,
        MinoType::Garbage,
        MinoType::Empty,
    ];
    for code in 0u8..9 {
        assert_eq!(MinoType::try_from(code), Ok(expected[code as usize]));
    }
    assert_eq!(MinoType::try_from(9), Err(OutOfBoundsError(9)));
    assert_eq!(MinoType::try_from(200), Err(OutOfBoundsError(200)));
}

#[test]
fn multipliable_clears() {
    let yes = [ClearType::TspinDouble, ClearType::TspinTriple, ClearType::Quad];
    for code in 0u8..16 {
        let c = ClearType::try_from(code).unwrap();
        assert_eq!(c.is_multipliable(), yes.contains(&c), "{:?}", c);
    }
}

#[test]
fn btb_clears() {
    let yes = [
        ClearType::TspinDouble,
        ClearType::TspinTriple,
        ClearType::Quad,
        ClearType::TspinSingle,
        ClearType::TspinMiniSingle,
        ClearType::TspinMiniDouble,
    ];
    for code in 0u8..16 {
        let c = ClearType::try_from(code).unwrap();
        assert_eq!(c.is_btb_clear(), yes.contains(&c), "{:?}", c);
    }
}
