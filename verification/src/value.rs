//! Values as batches hold them, values as the host takes them, and the
//! conversion from one to the other under a column's declared type.

use vstd::prelude::*;

verus! {

/// Type identifier of the host's boolean type.
pub const BOOL_OID: u32 = 16;

/// Type identifier of the host's 64-bit integer type.
pub const INT8_OID: u32 = 20;

/// Type identifier of the host's 16-bit integer type.
pub const INT2_OID: u32 = 21;

/// Type identifier of the host's 32-bit integer type.
pub const INT4_OID: u32 = 23;

/// Type identifier of the host's unbounded text type.
pub const TEXT_OID: u32 = 25;

/// Type identifier of the host's length-limited text type.
pub const VARCHAR_OID: u32 = 1043;

/// One value of a batch column.
#[derive(Debug, Clone, PartialEq, Eq)]
pub enum Datum {
    Null,
    Bool(bool),
    Int(i64),
    Text(String),
}

/// What a [`Datum`] stands for.
pub ghost enum DatumView {
    Null,
    Bool(bool),
    Int(int),
    Text(Seq<char>),
}

impl View for Datum {
    type V = DatumView;

    open spec fn view(&self) -> DatumView {
        match self {
            Datum::Null => DatumView::Null,
            Datum::Bool(b) => DatumView::Bool(*b),
            Datum::Int(i) => DatumView::Int(*i as int),
            Datum::Text(s) => DatumView::Text(s@),
        }
    }
}

/// One value in the host's row representation.
#[derive(Debug, Clone, PartialEq, Eq)]
pub enum Cell {
    Bool(bool),
    I16(i16),
    I32(i32),
    I64(i64),
    Text(String),
}

/// What a [`Cell`] stands for.
pub ghost enum CellView {
    Bool(bool),
    I16(int),
    I32(int),
    I64(int),
    Text(Seq<char>),
}

impl View for Cell {
    type V = CellView;

    open spec fn view(&self) -> CellView {
        match self {
            Cell::Bool(b) => CellView::Bool(*b),
            Cell::I16(i) => CellView::I16(*i as int),
            Cell::I32(i) => CellView::I32(*i as int),
            Cell::I64(i) => CellView::I64(*i as int),
            Cell::Text(s) => CellView::Text(s@),
        }
    }
}

/// Why a value could not be handed to the host under a declared type.
#[derive(Debug, Clone, Copy, PartialEq, Eq, Structural)]
pub enum ConversionFault {
    /// The host type is not one this bridge converts to.
    UnsupportedType,
    /// The value is of another kind than the host type.
    Mismatch,
    /// The integer does not fit the host type.
    OutOfRange,
}

/// Whether the bridge converts to the host type `type_oid`.
pub open spec fn is_supported_type(type_oid: u32) -> bool {
    type_oid == BOOL_OID || type_oid == INT2_OID || type_oid == INT4_OID || type_oid == INT8_OID
        || type_oid == TEXT_OID || type_oid == VARCHAR_OID
}

/// The host cell for `datum` under `type_oid`: `None` for a null, a fault
/// where the type is unsupported, the kinds differ or an integer does not fit.
pub open spec fn converted(datum: DatumView, type_oid: u32) -> Result<
    Option<CellView>,
    ConversionFault,
> {
    if !is_supported_type(type_oid) {
        Err(ConversionFault::UnsupportedType)
    } else {
        match datum {
            DatumView::Null => Ok(None),
            DatumView::Bool(b) => if type_oid == BOOL_OID {
                Ok(Some(CellView::Bool(b)))
            } else {
                Err(ConversionFault::Mismatch)
            },
            DatumView::Int(i) => if type_oid == INT2_OID {
                if i16::MIN <= i <= i16::MAX {
                    Ok(Some(CellView::I16(i)))
                } else {
                    Err(ConversionFault::OutOfRange)
                }
            } else if type_oid == INT4_OID {
                if i32::MIN <= i <= i32::MAX {
                    Ok(Some(CellView::I32(i)))
                } else {
                    Err(ConversionFault::OutOfRange)
                }
            } else if type_oid == INT8_OID {
                Ok(Some(CellView::I64(i)))
            } else {
                Err(ConversionFault::Mismatch)
            },
            DatumView::Text(s) => if type_oid == TEXT_OID || type_oid == VARCHAR_OID {
                Ok(Some(CellView::Text(s)))
            } else {
                Err(ConversionFault::Mismatch)
            },
        }
    }
}

/// The views of an optional cell and of a conversion's outcome.
pub open spec fn cell_view(cell: Option<Cell>) -> Option<CellView> {
    match cell {
        Some(c) => Some(c@),
        None => None,
    }
}

pub open spec fn outcome_view(outcome: Result<Option<Cell>, ConversionFault>) -> Result<
    Option<CellView>,
    ConversionFault,
> {
    match outcome {
        Ok(cell) => Ok(cell_view(cell)),
        Err(fault) => Err(fault),
    }
}

/// Converts one batch value to the host's representation of `type_oid`.
pub fn convert_datum(datum: &Datum, type_oid: u32) -> (outcome: Result<
    Option<Cell>,
    ConversionFault,
>)
    ensures
        outcome_view(outcome) == converted(datum@, type_oid),
{
    if !(type_oid == BOOL_OID || type_oid == INT2_OID || type_oid == INT4_OID || type_oid
        == INT8_OID || type_oid == TEXT_OID || type_oid == VARCHAR_OID) {
        return Err(ConversionFault::UnsupportedType);
    }
    match datum {
        Datum::Null => Ok(None),
        Datum::Bool(b) => {
            if type_oid == BOOL_OID {
                Ok(Some(Cell::Bool(*b)))
            } else {
                Err(ConversionFault::Mismatch)
            }
        },
        Datum::Int(i) => {
            let value: i64 = *i;
            if type_oid == INT2_OID {
                if -32768 <= value && value <= 32767 {
                    Ok(Some(Cell::I16(value as i16)))
                } else {
                    Err(ConversionFault::OutOfRange)
                }
            } else if type_oid == INT4_OID {
                if -2147483648 <= value && value <= 2147483647 {
                    Ok(Some(Cell::I32(value as i32)))
                } else {
                    Err(ConversionFault::OutOfRange)
                }
            } else if type_oid == INT8_OID {
                Ok(Some(Cell::I64(value)))
            } else {
                Err(ConversionFault::Mismatch)
            }
        },
        Datum::Text(s) => {
            if type_oid == TEXT_OID || type_oid == VARCHAR_OID {
                Ok(Some(Cell::Text(s.clone())))
            } else {
                Err(ConversionFault::Mismatch)
            }
        },
    }
}

} // verus!
