//! Errors of a scan.

use vstd::prelude::*;
use crate::value::ConversionFault;

verus! {

/// Why a scan call failed.
#[derive(Debug, Clone, PartialEq, Eq)]
pub enum ScanError {
    /// The scan has no stream: it was not begun, or it was ended.
    StreamNotFound,
    /// The catalog holds no such table.
    TableNotFound,
    /// The plan could not be built or executed; the text says why.
    Plan(String),
    /// The producer failed while making the next batch; the text says why.
    Stream(String),
    /// The batch lacks the requested column at this position of the projection.
    ColumnNotFound(usize),
    /// The value under the requested column at this position could not be converted.
    Conversion(usize, ConversionFault),
}

/// What a [`ScanError`] stands for.
pub ghost enum ScanErrorView {
    StreamNotFound,
    TableNotFound,
    Plan(Seq<char>),
    Stream(Seq<char>),
    ColumnNotFound(int),
    Conversion(int, ConversionFault),
}

impl View for ScanError {
    type V = ScanErrorView;

    open spec fn view(&self) -> ScanErrorView {
        match self {
            ScanError::StreamNotFound => ScanErrorView::StreamNotFound,
            ScanError::TableNotFound => ScanErrorView::TableNotFound,
            ScanError::Plan(text) => ScanErrorView::Plan(text@),
            ScanError::Stream(text) => ScanErrorView::Stream(text@),
            ScanError::ColumnNotFound(at) => ScanErrorView::ColumnNotFound(*at as int),
            ScanError::Conversion(at, fault) => ScanErrorView::Conversion(*at as int, *fault),
        }
    }
}

impl ScanError {
    /// A line of text for the host's error report.
    pub fn message(&self) -> (text: String)
        ensures
            self matches ScanError::StreamNotFound ==> text@ == "stream not found"@,
            self matches ScanError::TableNotFound ==> text@ == "table not found"@,
            self matches ScanError::Plan(cause) ==> text@ == cause@,
            self matches ScanError::Stream(cause) ==> text@ == cause@,
            self matches ScanError::ColumnNotFound(_) ==> text@
                == "requested column is missing from the batch"@,
            self matches ScanError::Conversion(_, fault) ==> text@ == fault_text(*fault)@,
    {
        match self {
            ScanError::StreamNotFound => "stream not found".to_owned(),
            ScanError::TableNotFound => "table not found".to_owned(),
            ScanError::Plan(cause) => cause.clone(),
            ScanError::Stream(cause) => cause.clone(),
            ScanError::ColumnNotFound(_) => "requested column is missing from the batch".to_owned(),
            ScanError::Conversion(_, fault) => fault_str(*fault).to_owned(),
        }
    }
}

/// The text that describes a conversion fault.
pub open spec fn fault_text(fault: ConversionFault) -> &'static str {
    match fault {
        ConversionFault::UnsupportedType => "column type is not supported",
        ConversionFault::Mismatch => "value does not match the column type",
        ConversionFault::OutOfRange => "integer does not fit the column type",
    }
}

fn fault_str(fault: ConversionFault) -> (text: &'static str)
    ensures
        text == fault_text(fault),
{
    match fault {
        ConversionFault::UnsupportedType => "column type is not supported",
        ConversionFault::Mismatch => "value does not match the column type",
        ConversionFault::OutOfRange => "integer does not fit the column type",
    }
}

} // verus!
