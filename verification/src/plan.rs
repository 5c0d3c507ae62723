//! What a scan asks of the query engine: the table's location, the
//! requested columns as positions in the table, and the limit.

use vstd::prelude::*;
use crate::batch::{columns_view, first_named_from, Column, ColumnView};
use crate::catalog::{
    create_table, creation, has_schema, has_table, schema_position, table_position, well_formed,
    Catalog, RelationInfo, RelationView, SchemaView, StorageOutcome, StorageOutcomeView, TableView,
};
use crate::catalog_laws::lemma_durability_gate_admits;
use crate::durability::RELPERSISTENCE_PERMANENT;
use crate::directory::{table_location, TableLocation};
use crate::error::{ScanError, ScanErrorView};
use crate::text::str_equal;

verus! {

/// The plan of one scan.
#[derive(Debug, Clone, PartialEq, Eq)]
pub struct ScanPlan {
    /// Where the table is stored.
    pub location: TableLocation,
    /// For each requested column, in the requested order, its position
    /// among the table's columns.
    pub projection: Vec<usize>,
    /// The greatest number of rows asked for, if the host gave one. The
    /// engine may return more: the limit is a hint.
    pub limit: Option<usize>,
}

/// What a [`ScanPlan`] stands for.
pub ghost struct ScanPlanView {
    pub location: TableLocation,
    pub projection: Seq<int>,
    pub limit: Option<usize>,
}

impl View for ScanPlan {
    type V = ScanPlanView;

    open spec fn view(&self) -> ScanPlanView {
        ScanPlanView {
            location: self.location,
            projection: self.projection@.map_values(|p: usize| p as int),
            limit: self.limit,
        }
    }
}

/// The names of a list of columns, in order.
pub open spec fn column_names(columns: Seq<ColumnView>) -> Seq<Seq<char>> {
    columns.map_values(|c: ColumnView| c.name)
}

/// Position among `stored` of the column called `name`, or the number of
/// stored columns.
pub open spec fn stored_position(stored: Seq<ColumnView>, name: Seq<char>) -> int {
    first_named_from(column_names(stored), name, 0)
}

/// Index of the first requested column at or after `from` that the table
/// does not have, or the number of requested columns.
pub open spec fn first_unknown_from(
    stored: Seq<ColumnView>,
    requested: Seq<ColumnView>,
    from: int,
) -> int
    decreases requested.len() - from,
{
    if from < 0 || from >= requested.len() {
        requested.len() as int
    } else if stored_position(stored, requested[from].name) >= stored.len() {
        from
    } else {
        first_unknown_from(stored, requested, from + 1)
    }
}

/// The plan for a scan of the table `table` of the schema `schema`, or
/// why there is none: the table is not in the catalog, or a requested
/// column, the first such by position, is not in the table.
pub open spec fn planned(
    schemas: Seq<SchemaView>,
    schema: Seq<char>,
    table: Seq<char>,
    requested: Seq<ColumnView>,
    limit: Option<usize>,
) -> Result<ScanPlanView, ScanErrorView> {
    let s = schema_position(schemas, schema);
    if !has_schema(schemas, schema) || !has_table(schemas[s], table) {
        Err(ScanErrorView::TableNotFound)
    } else {
        let stored: TableView = schemas[s].tables[table_position(schemas[s], table)];
        let unknown = first_unknown_from(stored.columns, requested, 0);
        if unknown < requested.len() {
            Err(ScanErrorView::ColumnNotFound(unknown))
        } else {
            Ok(
                ScanPlanView {
                    location: table_location(schemas[s].identifier, stored.identifier),
                    projection: Seq::new(
                        requested.len(),
                        |i: int| stored_position(stored.columns, requested[i].name),
                    ),
                    limit,
                },
            )
        }
    }
}

pub open spec fn plan_result_view(outcome: Result<ScanPlan, ScanError>) -> Result<
    ScanPlanView,
    ScanErrorView,
> {
    match outcome {
        Ok(plan) => Ok(plan@),
        Err(e) => Err(e@),
    }
}

/// Position among `stored` of the column called `name`, if there is one.
fn find_stored(stored: &Vec<Column>, name: &str) -> (found: Option<usize>)
    ensures
        match found {
            Some(p) => p < stored@.len() && p == stored_position(columns_view(stored@), name@),
            None => stored_position(columns_view(stored@), name@) >= stored@.len(),
        },
{
    let ghost names = column_names(columns_view(stored@));
    let mut p: usize = 0;
    while p < stored.len()
        invariant
            p <= stored@.len(),
            names == column_names(columns_view(stored@)),
            names.len() == stored@.len(),
            first_named_from(names, name@, 0) == first_named_from(names, name@, p as int),
        decreases stored@.len() - p,
    {
        if str_equal(stored[p].name.as_str(), name) {
            return Some(p);
        }
        p += 1;
    }
    None
}

impl Catalog {
    /// Plans a scan of the table `table` of the schema `schema` for the
    /// requested columns and the limit.
    pub fn plan_scan(&self, schema: &str, table: &str, columns: &[Column], limit: Option<usize>) -> (outcome:
        Result<ScanPlan, ScanError>)
        ensures
            plan_result_view(outcome) == planned(
                self@,
                schema@,
                table@,
                columns_view(columns@),
                limit,
            ),
    {
        let at: usize = match self.find_schema(schema) {
            None => {
                return Err(ScanError::TableNotFound);
            },
            Some(at) => at,
        };
        let provider = self.provider(at);
        let t: usize = match provider.find_table(table) {
            None => {
                return Err(ScanError::TableNotFound);
            },
            Some(t) => t,
        };
        let stored = provider.table(t).columns();
        let ghost have = columns_view(stored@);
        let ghost want = columns_view(columns@);
        let mut projection: Vec<usize> = Vec::new();
        let mut i: usize = 0;
        while i < columns.len()
            invariant
                i <= columns@.len(),
                have == columns_view(stored@),
                want == columns_view(columns@),
                has_schema(self@, schema@),
                at == schema_position(self@, schema@),
                has_table(self@[at as int], table@),
                t == table_position(self@[at as int], table@),
                have == self@[at as int].tables[t as int].columns,
                projection@.len() == i,
                first_unknown_from(have, want, 0) == first_unknown_from(have, want, i as int),
                forall|j: int|
                    0 <= j < i ==> (#[trigger] projection@[j]) as int == stored_position(
                        have,
                        want[j].name,
                    ),
            decreases columns@.len() - i,
        {
            match find_stored(stored, columns[i].name.as_str()) {
                None => {
                    return Err(ScanError::ColumnNotFound(i));
                },
                Some(p) => {
                    projection.push(p);
                },
            }
            i += 1;
        }
        let plan = ScanPlan {
            location: provider.table_location(t),
            projection,
            limit,
        };
        proof {
            let expected = planned(self@, schema@, table@, want, limit);
            assert(plan@.projection =~= expected->Ok_0.projection);
        }
        Ok(plan)
    }
}


/// The catalog once the table of `relation` is entered in it, with its
/// schema, on the first use of either: what is there already stays.
pub open spec fn entered(schemas: Seq<SchemaView>, relation: RelationView) -> Seq<SchemaView> {
    creation(
        schemas,
        relation,
        RELPERSISTENCE_PERMANENT,
        StorageOutcomeView::Ready,
        StorageOutcomeView::Ready,
    ).0
}

impl Catalog {
    /// Plans a scan of the table of `relation` for the requested columns
    /// and the limit. The table and its schema are entered in the catalog
    /// if this is the first use of either; the plan is made from the
    /// provider that the catalog then holds under the relation's names.
    pub fn open_table(&mut self, relation: RelationInfo, columns: &[Column], limit: Option<usize>) -> (outcome:
        Result<ScanPlan, ScanError>)
        ensures
            final(self)@ == entered(old(self)@, relation@),
            plan_result_view(outcome) == planned(
                final(self)@,
                relation@.namespace,
                relation@.name,
                columns_view(columns@),
                limit,
            ),
            well_formed(old(self)@) ==> well_formed(final(self)@),
    {
        let schema = relation.namespace.clone();
        let table = relation.name.clone();
        let _ = create_table(
            self,
            relation,
            RELPERSISTENCE_PERMANENT,
            StorageOutcome::Ready,
            StorageOutcome::Ready,
        );
        self.plan_scan(schema.as_str(), table.as_str(), columns, limit)
    }
}


/// A table that was opened is found: the plan fails only for a requested
/// column that the table does not have.
pub proof fn lemma_opened_table_is_found(
    schemas: Seq<SchemaView>,
    relation: RelationView,
    requested: Seq<ColumnView>,
    limit: Option<usize>,
)
    requires
        well_formed(schemas),
    ensures
        planned(entered(schemas, relation), relation.namespace, relation.name, requested, limit)
            != Err::<ScanPlanView, ScanErrorView>(ScanErrorView::TableNotFound),
{
    lemma_durability_gate_admits(schemas, relation, RELPERSISTENCE_PERMANENT);
}

} // verus!
