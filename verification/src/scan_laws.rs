//! What holds of every scan, proved from the model of `iter_scan` and
//! `end_scan`.

use vstd::prelude::*;
use crate::batch::{
    column_position, first_failure_from, lemma_first_named, projected_cell, projected_row,
    BatchView, ColumnView, RowView,
};
use crate::error::ScanErrorView;
use crate::scan::{ScanPhase, ScanView};
use crate::stream::{first_substantial_from, is_empty_batch, lemma_first_substantial, StreamItemView};
use crate::value::{converted, CellView, ConversionFault};

verus! {

/// Closing twice is closing once: the second `end_scan` changes nothing.
pub proof fn lemma_end_scan_idempotent(scan: ScanView)
    ensures
        scan.closed().closed() == scan.closed(),
        scan.closed().well_formed(),
{
}

/// A closed scan hands out no row: `iter_scan` reports the missing stream
/// and leaves the scan closed.
pub proof fn lemma_closed_scan_has_no_stream(scan: ScanView)
    ensures
        scan.closed().step() == (
            scan.closed(),
            Err::<Option<RowView>, ScanErrorView>(
                ScanErrorView::StreamNotFound,
            ),
        ),
{
}

/// Every requested column at or after `from` can be produced when the
/// search for a failure runs to the end.
proof fn lemma_no_failure(batch: BatchView, row: int, columns: Seq<ColumnView>, from: int)
    requires
        0 <= from <= columns.len(),
        first_failure_from(batch, row, columns, from) >= columns.len(),
    ensures
        forall|i: int| from <= i < columns.len() ==> projected_cell(batch, row, columns[i], i) is Ok,
    decreases columns.len() - from,
{
    if from < columns.len() {
        lemma_no_failure(batch, row, columns, from + 1);
    }
}

/// `cell` is the value of row `row` in the first column of `batch` that is
/// called as `column` is, converted to `column`'s host type.
pub open spec fn holds_converted(
    batch: BatchView,
    row: int,
    column: ColumnView,
    cell: Option<CellView>,
) -> bool {
    let p = column_position(batch, column.name);
    &&& 0 <= p < batch.names.len()
    &&& batch.names[p] == column.name
    &&& converted(batch.columns[p][row], column.type_oid) == Ok::<Option<CellView>, ConversionFault>(
        cell,
    )
}

/// A row holds the requested columns and no others, in the requested
/// order: its names are the projection's names, and the cell at each
/// position is the converted value of the batch column of that name,
/// wherever that column stands in the batch.
pub proof fn lemma_projection_fidelity(batch: BatchView, row: int, columns: Seq<ColumnView>)
    requires
        projected_row(batch, row, columns) is Ok,
    ensures
        ({
            let made = projected_row(batch, row, columns)->Ok_0;
            &&& made.cols.len() == columns.len()
            &&& made.cells.len() == columns.len()
            &&& forall|i: int| 0 <= i < columns.len() ==> #[trigger] made.cols[i] == columns[i].name
            &&& forall|i: int|
                0 <= i < columns.len() ==> holds_converted(
                    batch,
                    row,
                    columns[i],
                    #[trigger] made.cells[i],
                )
        }),
{
    lemma_no_failure(batch, row, columns, 0);
    let made = projected_row(batch, row, columns)->Ok_0;
    assert forall|i: int| 0 <= i < columns.len() implies holds_converted(
        batch,
        row,
        columns[i],
        #[trigger] made.cells[i],
    ) by {
        lemma_first_named(batch.names, columns[i].name, 0);
    }
}

/// Two batches that hold the same values under every requested name give
/// the same row, in whatever order each keeps its columns.
pub proof fn lemma_projection_ignores_column_order(
    first: BatchView,
    second: BatchView,
    row: int,
    columns: Seq<ColumnView>,
)
    requires
        forall|i: int|
            0 <= i < columns.len() ==> {
                let p = column_position(first, (#[trigger] columns[i]).name);
                let q = column_position(second, columns[i].name);
                &&& (p < first.names.len()) == (q < second.names.len())
                &&& p < first.names.len() ==> first.columns[p][row] == second.columns[q][row]
            },
    ensures
        projected_row(first, row, columns) == projected_row(second, row, columns),
{
    assert forall|i: int| 0 <= i < columns.len() implies projected_cell(first, row, columns[i], i)
        == projected_cell(second, row, columns[i], i) by {}
    lemma_same_failure(first, second, row, columns, 0);
    let stop = first_failure_from(first, row, columns, 0);
    if stop >= columns.len() {
        let a = projected_row(first, row, columns)->Ok_0;
        let b = projected_row(second, row, columns)->Ok_0;
        assert(a.cells =~= b.cells);
    } else {
        lemma_failure_bounds(first, row, columns, 0);
    }
}

proof fn lemma_failure_bounds(batch: BatchView, row: int, columns: Seq<ColumnView>, from: int)
    requires
        0 <= from <= columns.len(),
    ensures
        from <= first_failure_from(batch, row, columns, from) <= columns.len(),
    decreases columns.len() - from,
{
    if from < columns.len() {
        lemma_failure_bounds(batch, row, columns, from + 1);
    }
}

proof fn lemma_same_failure(
    first: BatchView,
    second: BatchView,
    row: int,
    columns: Seq<ColumnView>,
    from: int,
)
    requires
        0 <= from <= columns.len(),
        forall|i: int|
            0 <= i < columns.len() ==> projected_cell(first, row, columns[i], i) == projected_cell(
                second,
                row,
                columns[i],
                i,
            ),
    ensures
        first_failure_from(first, row, columns, from) == first_failure_from(
            second,
            row,
            columns,
            from,
        ),
    decreases columns.len() - from,
{
    if from < columns.len() {
        lemma_same_failure(first, second, row, columns, from + 1);
    }
}

/// The rows held by the items at or after `from`.
pub open spec fn rows_from(items: Seq<StreamItemView>, from: int) -> nat
    decreases items.len() - from,
{
    if from < 0 || from >= items.len() {
        0
    } else {
        (match items[from] {
            StreamItemView::Batch(b) => b.num_rows,
            StreamItemView::Failure(_) => 0nat,
        }) + rows_from(items, from + 1)
    }
}

/// The rows a scan has still to hand out: those left in the buffered
/// batch and those of the stream.
pub open spec fn pending_rows(scan: ScanView) -> nat {
    (match scan.batch {
        Some(b) => if scan.index < b.num_rows {
            (b.num_rows - scan.index) as nat
        } else {
            0nat
        },
        None => 0nat,
    }) + (match scan.stream {
        Some(items) => rows_from(items, 0),
        None => 0nat,
    })
}

/// Every row of `batch` can be produced under `columns`.
pub open spec fn projects_cleanly(batch: BatchView, columns: Seq<ColumnView>) -> bool {
    forall|row: int| 0 <= row < batch.num_rows ==> (#[trigger] projected_row(batch, row, columns)) is Ok
}

/// The producer never fails and every row it delivers, or has delivered
/// into the buffer, can be produced under the projection.
pub open spec fn faultless(scan: ScanView) -> bool {
    &&& scan.batch matches Some(b) ==> projects_cleanly(b, scan.columns)
    &&& scan.stream matches Some(items) ==> forall|i: int|
        0 <= i < items.len() ==> (#[trigger] items[i] matches StreamItemView::Batch(b)
            && projects_cleanly(b, scan.columns))
}

/// The next call of `iter_scan` returns a row.
pub open spec fn hands_out_row(scan: ScanView) -> bool {
    scan.step().1 matches Ok(Some(_))
}

/// The state after `calls` calls of `iter_scan`.
pub open spec fn after(scan: ScanView, calls: nat) -> ScanView
    decreases calls,
{
    if calls == 0 {
        scan
    } else {
        after(scan, (calls - 1) as nat).step().0
    }
}

proof fn lemma_rows_skip(items: Seq<StreamItemView>, from: int)
    requires
        0 <= from <= items.len(),
    ensures
        rows_from(items.skip(from), 0) == rows_from(items, from),
    decreases items.len() - from,
{
    let rest = items.skip(from);
    if from < items.len() {
        lemma_rows_skip(items, from + 1);
        lemma_rows_skip(rest, 1);
        assert(rest.skip(1) =~= items.skip(from + 1));
    }
}

proof fn lemma_rows_before_substantial(items: Seq<StreamItemView>, from: int)
    requires
        0 <= from <= items.len(),
    ensures
        rows_from(items, from) == rows_from(items, first_substantial_from(items, from)),
    decreases items.len() - from,
{
    if from < items.len() && is_empty_batch(items[from]) {
        lemma_rows_before_substantial(items, from + 1);
    }
}

/// One call on a well-formed, faultless scan that is open: with rows
/// pending it hands out a row and one row fewer is pending; with none
/// pending it reports the end and the scan is exhausted. Either way the
/// scan stays well-formed and faultless.
pub proof fn lemma_step_hands_out_one(scan: ScanView)
    requires
        scan.well_formed(),
        faultless(scan),
        scan.phase != ScanPhase::Closed,
    ensures
        scan.step().0.well_formed(),
        faultless(scan.step().0),
        scan.step().0.phase != ScanPhase::Closed,
        pending_rows(scan) > 0 ==> hands_out_row(scan) && pending_rows(scan.step().0)
            == pending_rows(scan) - 1,
        pending_rows(scan) == 0 ==> scan.step().1 == Ok::<
            Option<RowView>,
            ScanErrorView,
        >(None) && scan.step().0.phase == ScanPhase::Exhausted,
{
    if scan.phase != ScanPhase::Exhausted && !scan.has_buffered_row() {
        let items = scan.stream->Some_0;
        let k = first_substantial_from(items, 0);
        lemma_first_substantial(items, 0);
        lemma_rows_before_substantial(items, 0);
        if k < items.len() {
            lemma_rows_skip(items, k + 1);
            let rest = items.skip(k + 1);
            assert forall|i: int| 0 <= i < rest.len() implies (#[trigger] rest[i] matches StreamItemView::Batch(
                b,
            ) && projects_cleanly(b, scan.columns)) by {}
        }
    }
}

/// A faultless scan hands out exactly its pending rows, one with each
/// call, and reports the end with every call after that: a batch without
/// rows neither ends the scan nor counts as a row.
pub proof fn lemma_exhaustion(scan: ScanView, calls: nat)
    requires
        scan.well_formed(),
        faultless(scan),
        scan.phase != ScanPhase::Closed,
    ensures
        after(scan, calls).well_formed(),
        faultless(after(scan, calls)),
        after(scan, calls).phase != ScanPhase::Closed,
        calls <= pending_rows(scan) ==> pending_rows(after(scan, calls)) == pending_rows(scan)
            - calls,
        calls > pending_rows(scan) ==> pending_rows(after(scan, calls)) == 0,
        calls < pending_rows(scan) ==> hands_out_row(after(scan, calls)),
        calls >= pending_rows(scan) ==> after(scan, calls).step().1 == Ok::<
            Option<RowView>,
            ScanErrorView,
        >(None),
    decreases calls,
{
    if calls > 0 {
        lemma_exhaustion(scan, (calls - 1) as nat);
        lemma_step_hands_out_one(after(scan, (calls - 1) as nat));
    }
    lemma_step_hands_out_one(after(scan, calls));
}


/// A starved scan reports the end of the stream with its next call, and
/// a scan with a stream that is neither starved nor exhausted does not: it
/// hands out a row or reports an error.
pub proof fn lemma_starved_scan_ends(scan: ScanView)
    requires
        scan.phase != ScanPhase::Exhausted,
        scan.stream is Some,
    ensures
        scan.starved() <==> scan.step().1 == Ok::<Option<RowView>, ScanErrorView>(None),
        scan.starved() ==> scan.step().0.phase == ScanPhase::Exhausted,
{
    if !scan.has_buffered_row() {
        lemma_first_substantial(scan.stream->Some_0, 0);
    }
}


/// The projection is fixed for the life of a scan: no call of `iter_scan`
/// changes it, however many are made.
pub proof fn lemma_projection_is_fixed(scan: ScanView, calls: nat)
    ensures
        scan.step().0.columns == scan.columns,
        after(scan, calls).columns == scan.columns,
    decreases calls,
{
    if calls > 0 {
        lemma_projection_is_fixed(scan, (calls - 1) as nat);
        lemma_projection_is_fixed(after(scan, (calls - 1) as nat), 0);
    }
}


/// With every row that is handed out the index moves on by one: after a
/// row out of the buffered batch it is one more than before, and after the
/// first row of a batch that was just buffered it is one. The index never
/// passes the end of the buffered batch.
pub proof fn lemma_index_moves_with_each_row(scan: ScanView)
    requires
        hands_out_row(scan),
    ensures
        ({
            let next = scan.step().0;
            &&& next.batch is Some
            &&& 1 <= next.index <= next.batch->Some_0.num_rows
            &&& scan.has_buffered_row() ==> next.batch == scan.batch && next.index == scan.index + 1
            &&& !scan.has_buffered_row() ==> next.index == 1
        }),
{
    if scan.phase != ScanPhase::Exhausted && !scan.has_buffered_row() {
        lemma_first_substantial(scan.stream->Some_0, 0);
    }
}


/// The rows handed out by the first `calls` calls of `iter_scan`.
pub open spec fn handed_out(scan: ScanView, calls: nat) -> nat
    decreases calls,
{
    if calls == 0 {
        0
    } else {
        handed_out(scan, (calls - 1) as nat) + if hands_out_row(after(scan, (calls - 1) as nat)) {
            1nat
        } else {
            0nat
        }
    }
}

/// A call never adds to the rows that are pending, and a call that hands
/// out a row takes one of them.
pub proof fn lemma_step_uses_up_a_row(scan: ScanView)
    ensures
        hands_out_row(scan) ==> pending_rows(scan.step().0) + 1 <= pending_rows(scan),
        pending_rows(scan.step().0) <= pending_rows(scan),
{
    if scan.phase != ScanPhase::Exhausted && !scan.has_buffered_row() && scan.stream is Some {
        let items = scan.stream->Some_0;
        let k = first_substantial_from(items, 0);
        lemma_first_substantial(items, 0);
        lemma_rows_before_substantial(items, 0);
        if k < items.len() {
            lemma_rows_skip(items, k + 1);
        }
    }
}

/// A scan hands out no more rows than were delivered to it, whatever the
/// producer delivered and however often the scan is called: where the
/// engine keeps to a limit in what it delivers, so does the scan in what
/// it hands out.
pub proof fn lemma_rows_are_bounded_by_delivery(scan: ScanView, calls: nat, limit: nat)
    ensures
        handed_out(scan, calls) + pending_rows(after(scan, calls)) <= pending_rows(scan),
        pending_rows(scan) <= limit ==> handed_out(scan, calls) <= limit,
    decreases calls,
{
    if calls > 0 {
        lemma_rows_are_bounded_by_delivery(scan, (calls - 1) as nat, limit);
        lemma_step_uses_up_a_row(after(scan, (calls - 1) as nat));
    }
}

} // verus!
