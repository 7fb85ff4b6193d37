//! The cell and clear-type vocabulary of a replay: the nine cell states of a
//! board, the sixteen clear classifications a replay reports, and the decoding
//! of both from their wire codes.

use vstd::prelude::*;

verus! {

/// One cell of a board: one of the seven piece colors, garbage, or empty.
#[derive(Clone, Copy, Debug, PartialEq, Eq, Structural, Hash)]
pub enum MinoType {
    Z,
    L,
    O,
    S,
    I,
    J,
    T,
    Garbage,
    Empty,
}

/// A board is a 10 x 40 grid of cells in row-major order, row 0 at the top.
pub type Board = Vec<MinoType>;

/// How a replay classifies the line clear (or its absence) of one placement.
#[derive(Clone, Copy, Debug, PartialEq, Eq, Structural, Hash)]
pub enum ClearType {
    NoClear,
    TspinMini,
    Tspin,
    TspinMiniSingle,
    TspinSingle,
    Single,
    TspinMiniDouble,
    TspinDouble,
    Double,
    TspinTriple,
    Triple,
    TspinQuad,
    Quad,
    TspinPenta,
    Penta,
    PerfectClear,
}

/// A wire code that names no clear type or cell state.
#[derive(Clone, Copy, Debug, PartialEq, Eq, Structural)]
pub struct OutOfBoundsError(pub u8);

/// The clear type a wire code names, for codes 0 through 15.
pub open spec fn spec_clear_type(value: u8) -> ClearType {
    match value {
        0u8 => ClearType::NoClear,
        1u8 => ClearType::TspinMini,
        2u8 => ClearType::Tspin,
        3u8 => ClearType::TspinMiniSingle,
        4u8 => ClearType::TspinSingle,
        5u8 => ClearType::Single,
        6u8 => ClearType::TspinMiniDouble,
        7u8 => ClearType::TspinDouble,
        8u8 => ClearType::Double,
        9u8 => ClearType::TspinTriple,
        10u8 => ClearType::Triple,
        11u8 => ClearType::TspinQuad,
        12u8 => ClearType::Quad,
        13u8 => ClearType::TspinPenta,
        14u8 => ClearType::Penta,
        _ => ClearType::PerfectClear,
    }
}

/// The cell state a wire code names, for codes 0 through 8.
pub open spec fn spec_mino_type(value: u8) -> MinoType {
    match value {
        0u8 => MinoType::Z,
        1u8 => MinoType::L,
        2u8 => MinoType::O,
        3u8 => MinoType::S,
        4u8 => MinoType::I,
        5u8 => MinoType::J,
        6u8 => MinoType::T,
        7u8 => MinoType::Garbage,
        _ => MinoType::Empty,
    }
}

impl ClearType {
    /// Whether this clear type multiplies combo damage: T-Spin-Double,
    /// T-Spin-Triple and Quad do.
    pub fn is_multipliable(&self) -> (r: bool)
        ensures
            r <==> (*self == ClearType::TspinDouble || *self == ClearType::TspinTriple
                || *self == ClearType::Quad),
    {
        *self == ClearType::TspinDouble || *self == ClearType::TspinTriple || *self
            == ClearType::Quad
    }

    /// Whether this clear type keeps a back-to-back chain alive: Quad and
    /// every T-Spin clear do.
    pub fn is_btb_clear(&self) -> (r: bool)
        ensures
            r <==> (*self == ClearType::TspinDouble || *self == ClearType::TspinTriple || *self
                == ClearType::Quad || *self == ClearType::TspinSingle || *self
                == ClearType::TspinMiniSingle || *self == ClearType::TspinMiniDouble),
    {
        *self == ClearType::TspinDouble || *self == ClearType::TspinTriple || *self
            == ClearType::Quad || *self == ClearType::TspinSingle || *self
            == ClearType::TspinMiniSingle || *self == ClearType::TspinMiniDouble
    }

    /// Decodes a wire code into a clear type; codes above 15 name none.
    pub fn try_from(value: u8) -> (r: Result<ClearType, OutOfBoundsError>)
        ensures
            value <= 15 ==> r == Ok::<ClearType, OutOfBoundsError>(spec_clear_type(value)),
            value > 15 ==> r == Err::<ClearType, OutOfBoundsError>(OutOfBoundsError(value)),
    {
        match value {
            0u8 => Ok(ClearType::NoClear),
            1u8 => Ok(ClearType::TspinMini),
            2u8 => Ok(ClearType::Tspin),
            3u8 => Ok(ClearType::TspinMiniSingle),
            4u8 => Ok(ClearType::TspinSingle),
            5u8 => Ok(ClearType::Single),
            6u8 => Ok(ClearType::TspinMiniDouble),
            7u8 => Ok(ClearType::TspinDouble),
            8u8 => Ok(ClearType::Double),
            9u8 => Ok(ClearType::TspinTriple),
            10u8 => Ok(ClearType::Triple),
            11u8 => Ok(ClearType::TspinQuad),
            12u8 => Ok(ClearType::Quad),
            13u8 => Ok(ClearType::TspinPenta),
            14u8 => Ok(ClearType::Penta),
            15u8 => Ok(ClearType::PerfectClear),
            _ => Err(OutOfBoundsError(value)),
        }
    }
}

impl MinoType {
    /// Decodes a wire code into a cell state; codes above 8 name none.
    pub fn try_from(value: u8) -> (r: Result<MinoType, OutOfBoundsError>)
        ensures
            value <= 8 ==> r == Ok::<MinoType, OutOfBoundsError>(spec_mino_type(value)),
            value > 8 ==> r == Err::<MinoType, OutOfBoundsError>(OutOfBoundsError(value)),
    {
        match value {
            0u8 => Ok(MinoType::Z),
            1u8 => Ok(MinoType::L),
            2u8 => Ok(MinoType::O),
            3u8 => Ok(MinoType::S),
            4u8 => Ok(MinoType::I),
            5u8 => Ok(MinoType::J),
            6u8 => Ok(MinoType::T),
            7u8 => Ok(MinoType::Garbage),
            8u8 => Ok(MinoType::Empty),
            _ => Err(OutOfBoundsError(value)),
        }
    }
}

} // verus!
