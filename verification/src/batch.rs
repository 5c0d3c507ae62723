//! Columnar batches, the projection a scan was asked for, and the rows
//! cut out of a batch under that projection.

use vstd::prelude::*;
use crate::error::{ScanError, ScanErrorView};
use crate::text::str_equal;
use crate::value::{cell_view, convert_datum, converted, Cell, CellView, Datum, DatumView};

verus! {

/// A column the host asked for.
#[derive(Debug, Clone, PartialEq, Eq)]
pub struct Column {
    /// The column's name.
    pub name: String,
    /// The column's number in its table, counted from one.
    pub num: usize,
    /// The host type the column's values are handed over in.
    pub type_oid: u32,
}

/// What a [`Column`] stands for.
pub ghost struct ColumnView {
    pub name: Seq<char>,
    pub num: nat,
    pub type_oid: u32,
}

impl View for Column {
    type V = ColumnView;

    open spec fn view(&self) -> ColumnView {
        ColumnView { name: self.name@, num: self.num as nat, type_oid: self.type_oid }
    }
}

/// The views of a list of columns, in order.
pub open spec fn columns_view(columns: Seq<Column>) -> Seq<ColumnView> {
    columns.map_values(|c: Column| c@)
}

/// One named column of a batch.
#[derive(Debug, Clone, PartialEq, Eq)]
pub struct BatchColumn {
    pub name: String,
    pub values: Vec<Datum>,
}

/// What a batch stands for: its column names, the values of each column,
/// and the number of rows.
pub ghost struct BatchView {
    pub names: Seq<Seq<char>>,
    pub columns: Seq<Seq<DatumView>>,
    pub num_rows: nat,
}

impl BatchView {
    /// Every column has a name and exactly `num_rows` values.
    pub open spec fn well_formed(self) -> bool {
        &&& self.names.len() == self.columns.len()
        &&& forall|c: int| 0 <= c < self.columns.len() ==> #[trigger] self.columns[c].len() == self.num_rows
    }
}

/// The views of a column's values.
pub open spec fn datums_view(values: Seq<Datum>) -> Seq<DatumView> {
    values.map_values(|d: Datum| d@)
}

/// What a list of batch columns stands for, given the number of rows.
pub open spec fn batch_view(columns: Seq<BatchColumn>, num_rows: nat) -> BatchView {
    BatchView {
        names: columns.map_values(|c: BatchColumn| c.name@),
        columns: columns.map_values(|c: BatchColumn| datums_view(c.values@)),
        num_rows,
    }
}

/// A columnar chunk of results: named columns of equal length.
#[derive(Debug)]
pub struct Batch {
    columns: Vec<BatchColumn>,
    num_rows: usize,
}

impl View for Batch {
    type V = BatchView;

    closed spec fn view(&self) -> BatchView {
        batch_view(self.columns@, self.num_rows as nat)
    }
}

/// Index of the first name at or after `from` that equals `name`, or the
/// number of names when none does.
pub open spec fn first_named_from(names: Seq<Seq<char>>, name: Seq<char>, from: int) -> int
    decreases names.len() - from,
{
    if from < 0 || from >= names.len() {
        names.len() as int
    } else if names[from] == name {
        from
    } else {
        first_named_from(names, name, from + 1)
    }
}

/// Index of the first column called `name`, or the number of columns.
pub open spec fn column_position(batch: BatchView, name: Seq<char>) -> int {
    first_named_from(batch.names, name, 0)
}

pub proof fn lemma_first_named(names: Seq<Seq<char>>, name: Seq<char>, from: int)
    requires
        0 <= from <= names.len(),
    ensures
        from <= first_named_from(names, name, from) <= names.len(),
        first_named_from(names, name, from) < names.len() ==> names[first_named_from(
            names,
            name,
            from,
        )] == name,
        forall|j: int| from <= j < first_named_from(names, name, from) ==> names[j] != name,
    decreases names.len() - from,
{
    if from < names.len() && names[from] != name {
        lemma_first_named(names, name, from + 1);
    }
}

/// The host cell for row `row` of `batch` under the requested column
/// `column`, which stands at `at` in the projection: the value of the first
/// batch column of that name, converted to the column's host type.
pub open spec fn projected_cell(batch: BatchView, row: int, column: ColumnView, at: int) -> Result<
    Option<CellView>,
    ScanErrorView,
> {
    let p = column_position(batch, column.name);
    if p >= batch.names.len() {
        Err(ScanErrorView::ColumnNotFound(at))
    } else {
        match converted(batch.columns[p][row], column.type_oid) {
            Ok(cell) => Ok(cell),
            Err(fault) => Err(ScanErrorView::Conversion(at, fault)),
        }
    }
}

/// Position of the first requested column at or after `from` whose cell
/// cannot be produced, or the number of requested columns when all can.
pub open spec fn first_failure_from(
    batch: BatchView,
    row: int,
    columns: Seq<ColumnView>,
    from: int,
) -> int
    decreases columns.len() - from,
{
    if from < 0 || from >= columns.len() {
        columns.len() as int
    } else if projected_cell(batch, row, columns[from], from) is Err {
        from
    } else {
        first_failure_from(batch, row, columns, from + 1)
    }
}

/// What a row stands for: the names and the cells, position by position.
pub ghost struct RowView {
    pub cols: Seq<Seq<char>>,
    pub cells: Seq<Option<CellView>>,
}

/// A row in the host's representation.
#[derive(Debug, Clone, PartialEq, Eq)]
pub struct Row {
    /// The names of the row's columns.
    pub cols: Vec<String>,
    /// The row's cells, one for each name; `None` is a null.
    pub cells: Vec<Option<Cell>>,
}

impl View for Row {
    type V = RowView;

    open spec fn view(&self) -> RowView {
        RowView {
            cols: self.cols@.map_values(|s: String| s@),
            cells: self.cells@.map_values(|c: Option<Cell>| cell_view(c)),
        }
    }
}

/// Row `row` of `batch` under the projection `columns`: exactly the
/// requested columns, in the requested order, or the error of the first
/// requested column that cannot be produced.
pub open spec fn projected_row(batch: BatchView, row: int, columns: Seq<ColumnView>) -> Result<
    RowView,
    ScanErrorView,
> {
    let stop = first_failure_from(batch, row, columns, 0);
    if stop < columns.len() {
        Err(projected_cell(batch, row, columns[stop], stop)->Err_0)
    } else {
        Ok(
            RowView {
                cols: Seq::new(columns.len(), |i: int| columns[i].name),
                cells: Seq::new(
                    columns.len(),
                    |i: int| projected_cell(batch, row, columns[i], i)->Ok_0,
                ),
            },
        )
    }
}

pub open spec fn row_result_view(outcome: Result<Row, ScanError>) -> Result<RowView, ScanErrorView> {
    match outcome {
        Ok(row) => Ok(row@),
        Err(e) => Err(e@),
    }
}


impl Batch {
    #[verifier::type_invariant]
    spec fn columns_are_even(self) -> bool {
        forall|c: int|
            0 <= c < self.columns@.len() ==> (#[trigger] self.columns@[c]).values@.len()
                == self.num_rows
    }

    /// A batch of `num_rows` rows, if every column holds that many values.
    pub fn try_new(columns: Vec<BatchColumn>, num_rows: usize) -> (made: Option<Batch>)
        ensures
            made is Some <==> batch_view(columns@, num_rows as nat).well_formed(),
            made matches Some(batch) ==> batch@ == batch_view(columns@, num_rows as nat),
    {
        let ghost whole = batch_view(columns@, num_rows as nat);
        let mut c: usize = 0;
        while c < columns.len()
            invariant
                c <= columns@.len(),
                whole == batch_view(columns@, num_rows as nat),
                forall|j: int| 0 <= j < c ==> (#[trigger] columns@[j]).values@.len() == num_rows,
            decreases columns@.len() - c,
        {
            if columns[c].values.len() != num_rows {
                assert(whole.columns[c as int].len() != whole.num_rows);
                return None;
            }
            c += 1;
        }
        assert forall|j: int| 0 <= j < whole.columns.len() implies #[trigger] whole.columns[j].len()
            == whole.num_rows by {}
        Some(Batch { columns, num_rows })
    }

    /// The number of rows.
    pub fn num_rows(&self) -> (n: usize)
        ensures
            n == self@.num_rows,
            self@.well_formed(),
    {
        proof {
            use_type_invariant(self);
            assert forall|j: int| 0 <= j < self@.columns.len() implies #[trigger] self@.columns[j].len()
                == self@.num_rows by {}
        }
        self.num_rows
    }

    /// The number of columns.
    pub fn num_columns(&self) -> (n: usize)
        ensures
            n == self@.columns.len(),
            n == self@.names.len(),
    {
        self.columns.len()
    }

    /// Position of the first column called `name`, if there is one.
    pub fn find_column(&self, name: &str) -> (found: Option<usize>)
        ensures
            match found {
                Some(p) => p < self@.names.len() && p == column_position(self@, name@),
                None => column_position(self@, name@) >= self@.names.len(),
            },
    {
        let ghost names = self@.names;
        let mut p: usize = 0;
        while p < self.columns.len()
            invariant
                p <= self.columns@.len(),
                names == self@.names,
                names.len() == self.columns@.len(),
                first_named_from(names, name@, 0) == first_named_from(names, name@, p as int),
            decreases self.columns@.len() - p,
        {
            if str_equal(self.columns[p].name.as_str(), name) {
                return Some(p);
            }
            p += 1;
        }
        None
    }

    /// The cell of row `row` under the requested column `column`, which
    /// stands at `at` in the projection.
    pub fn cell(&self, row: usize, column: &Column, at: usize) -> (outcome: Result<
        Option<Cell>,
        ScanError,
    >)
        requires
            row < self@.num_rows,
        ensures
            match outcome {
                Ok(cell) => projected_cell(self@, row as int, column@, at as int) == Ok::<
                    Option<CellView>,
                    ScanErrorView,
                >(cell_view(cell)),
                Err(e) => projected_cell(self@, row as int, column@, at as int) == Err::<
                    Option<CellView>,
                    ScanErrorView,
                >(e@),
            },
    {
        proof {
            use_type_invariant(self);
        }
        match self.find_column(column.name.as_str()) {
            None => Err(ScanError::ColumnNotFound(at)),
            Some(p) => {
                match convert_datum(&self.columns[p].values[row], column.type_oid) {
                    Ok(cell) => Ok(cell),
                    Err(fault) => Err(ScanError::Conversion(at, fault)),
                }
            },
        }
    }

    /// Row `row` under the projection `columns`.
    pub fn project_row(&self, row: usize, columns: &Vec<Column>) -> (outcome: Result<Row, ScanError>)
        requires
            row < self@.num_rows,
        ensures
            row_result_view(outcome) == projected_row(self@, row as int, columns_view(columns@)),
    {
        let ghost wanted = columns_view(columns@);
        let mut cols: Vec<String> = Vec::new();
        let mut cells: Vec<Option<Cell>> = Vec::new();
        let mut i: usize = 0;
        while i < columns.len()
            invariant
                i <= columns@.len(),
                row < self@.num_rows,
                wanted == columns_view(columns@),
                cols@.len() == i,
                cells@.len() == i,
                first_failure_from(self@, row as int, wanted, 0) == first_failure_from(
                    self@,
                    row as int,
                    wanted,
                    i as int,
                ),
                forall|j: int| 0 <= j < i ==> (#[trigger] cols@[j])@ == wanted[j].name,
                forall|j: int|
                    0 <= j < i ==> projected_cell(self@, row as int, wanted[j], j) == Ok::<
                        Option<CellView>,
                        ScanErrorView,
                    >(cell_view(#[trigger] cells@[j])),
            decreases columns@.len() - i,
        {
            match self.cell(row, &columns[i], i) {
                Err(e) => {
                    return Err(e);
                },
                Ok(cell) => {
                    cols.push(columns[i].name.clone());
                    cells.push(cell);
                },
            }
            i += 1;
        }
        let made = Row { cols, cells };
        proof {
            let expected = projected_row(self@, row as int, wanted);
            assert(made@.cols =~= expected->Ok_0.cols);
            assert(made@.cells =~= expected->Ok_0.cells);
        }
        Ok(made)
    }
}

} // verus!
