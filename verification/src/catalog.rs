//! The catalog of a session: for each schema its set of table providers,
//! made on first use and never made twice.

use vstd::prelude::*;
use crate::batch::{columns_view, first_named_from, lemma_first_named, Column, ColumnView};
use crate::directory::{ParadeDirectory, SchemaDirectory, TableLocation};
use crate::durability::{classify_persistence, durability_of, DurabilityClass};
use crate::text::str_equal;

verus! {

/// Why a schema or a table could not be made.
#[derive(Debug, Clone, PartialEq, Eq)]
pub enum CatalogError {
    /// The table is unlogged.
    UnloggedNotSupported,
    /// The table is temporary.
    TempNotSupported,
    /// The table's durability mark is not one the host is known to use.
    UnknownPersistence,
    /// The catalog holds no schema of the name.
    SchemaNotFound,
    /// The storage could not be prepared; the text says why.
    Storage(String),
}

/// What a [`CatalogError`] stands for.
pub ghost enum CatalogErrorView {
    UnloggedNotSupported,
    TempNotSupported,
    UnknownPersistence,
    SchemaNotFound,
    Storage(Seq<char>),
}

impl View for CatalogError {
    type V = CatalogErrorView;

    open spec fn view(&self) -> CatalogErrorView {
        match self {
            CatalogError::UnloggedNotSupported => CatalogErrorView::UnloggedNotSupported,
            CatalogError::TempNotSupported => CatalogErrorView::TempNotSupported,
            CatalogError::UnknownPersistence => CatalogErrorView::UnknownPersistence,
            CatalogError::SchemaNotFound => CatalogErrorView::SchemaNotFound,
            CatalogError::Storage(text) => CatalogErrorView::Storage(text@),
        }
    }
}

impl CatalogError {
    /// The text shown to the user.
    pub fn message(&self) -> (text: String)
        ensures
            self matches CatalogError::UnloggedNotSupported ==> text@
                == "Unlogged tables are not yet supported"@,
            self matches CatalogError::TempNotSupported ==> text@
                == "Temp tables are not yet supported"@,
            self matches CatalogError::UnknownPersistence ==> text@ == "Unknown persistence type"@,
            self matches CatalogError::SchemaNotFound ==> text@ == "Schema not found"@,
            self matches CatalogError::Storage(cause) ==> text@ == cause@,
    {
        match self {
            CatalogError::UnloggedNotSupported => "Unlogged tables are not yet supported".to_owned(),
            CatalogError::TempNotSupported => "Temp tables are not yet supported".to_owned(),
            CatalogError::UnknownPersistence => "Unknown persistence type".to_owned(),
            CatalogError::SchemaNotFound => "Schema not found".to_owned(),
            CatalogError::Storage(cause) => cause.clone(),
        }
    }
}

/// How the preparation of a piece of storage ended. The caller prepares
/// the storage; the catalog records what came of it.
#[derive(Debug, Clone, PartialEq, Eq)]
pub enum StorageOutcome {
    Ready,
    Failed(String),
}

/// What a [`StorageOutcome`] stands for.
pub ghost enum StorageOutcomeView {
    Ready,
    Failed(Seq<char>),
}

impl View for StorageOutcome {
    type V = StorageOutcomeView;

    open spec fn view(&self) -> StorageOutcomeView {
        match self {
            StorageOutcome::Ready => StorageOutcomeView::Ready,
            StorageOutcome::Failed(text) => StorageOutcomeView::Failed(text@),
        }
    }
}

/// What the host tells of a relation: its name and identifier, those of
/// its schema, and its columns.
#[derive(Debug, Clone, PartialEq, Eq)]
pub struct RelationInfo {
    pub name: String,
    pub oid: u32,
    pub namespace: String,
    pub namespace_oid: u32,
    pub columns: Vec<Column>,
}

/// What a [`RelationInfo`] stands for.
pub ghost struct RelationView {
    pub name: Seq<char>,
    pub oid: u32,
    pub namespace: Seq<char>,
    pub namespace_oid: u32,
    pub columns: Seq<ColumnView>,
}

impl View for RelationInfo {
    type V = RelationView;

    open spec fn view(&self) -> RelationView {
        RelationView {
            name: self.name@,
            oid: self.oid,
            namespace: self.namespace@,
            namespace_oid: self.namespace_oid,
            columns: columns_view(self.columns@),
        }
    }
}

/// The definition from which a table provider is made.
#[derive(Debug, Clone, PartialEq, Eq)]
pub struct TableDefinition {
    pub name: String,
    pub identifier: u32,
    pub columns: Vec<Column>,
    /// The host's durability mark.
    pub persistence: u8,
}

/// What a [`TableDefinition`] stands for.
pub ghost struct TableDefinitionView {
    pub name: Seq<char>,
    pub identifier: u32,
    pub columns: Seq<ColumnView>,
    pub persistence: u8,
}

impl View for TableDefinition {
    type V = TableDefinitionView;

    open spec fn view(&self) -> TableDefinitionView {
        TableDefinitionView {
            name: self.name@,
            identifier: self.identifier,
            columns: columns_view(self.columns@),
            persistence: self.persistence,
        }
    }
}

/// What a table provider stands for.
pub ghost struct TableView {
    pub name: Seq<char>,
    pub identifier: u32,
    pub columns: Seq<ColumnView>,
}

/// What a set of table providers stands for.
pub ghost struct SchemaView {
    pub name: Seq<char>,
    pub identifier: u32,
    pub tables: Seq<TableView>,
}

/// One stored table: its metadata, from which scans are planned.
#[derive(Debug)]
pub struct TableProvider {
    name: String,
    identifier: u32,
    columns: Vec<Column>,
}

impl View for TableProvider {
    type V = TableView;

    closed spec fn view(&self) -> TableView {
        TableView {
            name: self.name@,
            identifier: self.identifier,
            columns: columns_view(self.columns@),
        }
    }
}

/// The table providers of one schema.
#[derive(Debug)]
pub struct ParadeSchemaProvider {
    name: String,
    identifier: u32,
    tables: Vec<TableProvider>,
}

impl View for ParadeSchemaProvider {
    type V = SchemaView;

    closed spec fn view(&self) -> SchemaView {
        SchemaView {
            name: self.name@,
            identifier: self.identifier,
            tables: self.tables@.map_values(|t: TableProvider| t@),
        }
    }
}

/// The schemas of one session, in the order in which they were published.
#[derive(Debug)]
pub struct Catalog {
    schemas: Vec<ParadeSchemaProvider>,
}

impl View for Catalog {
    type V = Seq<SchemaView>;

    closed spec fn view(&self) -> Seq<SchemaView> {
        self.schemas@.map_values(|s: ParadeSchemaProvider| s@)
    }
}

/// The names of the schemas, in order.
pub open spec fn schema_names(schemas: Seq<SchemaView>) -> Seq<Seq<char>> {
    schemas.map_values(|s: SchemaView| s.name)
}

/// Index of the schema called `name`, or the number of schemas.
pub open spec fn schema_position(schemas: Seq<SchemaView>, name: Seq<char>) -> int {
    first_named_from(schema_names(schemas), name, 0)
}

/// The catalog holds a schema called `name`.
pub open spec fn has_schema(schemas: Seq<SchemaView>, name: Seq<char>) -> bool {
    schema_position(schemas, name) < schemas.len()
}

/// The names of a schema's tables, in order.
pub open spec fn table_names(schema: SchemaView) -> Seq<Seq<char>> {
    schema.tables.map_values(|t: TableView| t.name)
}

/// Index of the table called `name`, or the number of tables.
pub open spec fn table_position(schema: SchemaView, name: Seq<char>) -> int {
    first_named_from(table_names(schema), name, 0)
}

/// The schema holds a table called `name`.
pub open spec fn has_table(schema: SchemaView, name: Seq<char>) -> bool {
    table_position(schema, name) < schema.tables.len()
}

/// No two schemas share a name, and in no schema do two tables.
pub open spec fn well_formed(schemas: Seq<SchemaView>) -> bool {
    &&& forall|i: int, j: int|
        0 <= i < j < schemas.len() ==> (#[trigger] schemas[i]).name != (#[trigger] schemas[j]).name
    &&& forall|s: int, i: int, j: int|
        0 <= s < schemas.len() && 0 <= i < j < schemas[s].tables.len()
            ==> (#[trigger] schemas[s].tables[i]).name != (#[trigger] schemas[s].tables[j]).name
}

/// The catalog after an attempt to publish `candidate`: where a schema of
/// its name is there already the candidate is dropped and nothing changes.
pub open spec fn published(schemas: Seq<SchemaView>, candidate: SchemaView) -> Seq<SchemaView> {
    if has_schema(schemas, candidate.name) {
        schemas
    } else {
        schemas.push(candidate)
    }
}

/// A schema's set of providers as it is first made: without tables.
pub open spec fn fresh_schema(name: Seq<char>, identifier: u32) -> SchemaView {
    SchemaView { name, identifier, tables: Seq::empty() }
}

/// The catalog and the result after resolving the schema `name`: the
/// position of the schema that is there, else that of a new one, made with
/// `identifier` once its storage is ready.
pub open spec fn schema_resolution(
    schemas: Seq<SchemaView>,
    name: Seq<char>,
    identifier: u32,
    storage: StorageOutcomeView,
) -> (Seq<SchemaView>, Result<int, CatalogErrorView>) {
    if has_schema(schemas, name) {
        (schemas, Ok(schema_position(schemas, name)))
    } else {
        match storage {
            StorageOutcomeView::Failed(cause) => (schemas, Err(CatalogErrorView::Storage(cause))),
            StorageOutcomeView::Ready => (
                schemas.push(fresh_schema(name, identifier)),
                Ok(schemas.len() as int),
            ),
        }
    }
}

/// The catalog with `table` added to the schema at `at`.
pub open spec fn with_table(schemas: Seq<SchemaView>, at: int, table: TableView) -> Seq<SchemaView> {
    schemas.update(at, SchemaView { tables: schemas[at].tables.push(table), ..schemas[at] })
}

/// The table provider made from a definition.
pub open spec fn provider_of(definition: TableDefinitionView) -> TableView {
    TableView {
        name: definition.name,
        identifier: definition.identifier,
        columns: definition.columns,
    }
}

/// The error that refuses a durability class, if it is refused.
pub open spec fn durability_refusal(class: DurabilityClass) -> Option<CatalogErrorView> {
    match class {
        DurabilityClass::Permanent => None,
        DurabilityClass::Unlogged => Some(CatalogErrorView::UnloggedNotSupported),
        DurabilityClass::Temporary => Some(CatalogErrorView::TempNotSupported),
        DurabilityClass::Unknown => Some(CatalogErrorView::UnknownPersistence),
    }
}

/// The catalog and the result after resolving a table in the schema
/// `schema`: only a permanent table is taken; the schema must be there; a
/// table of the name that is there already is kept; else the table is
/// added once its storage is ready.
pub open spec fn table_resolution(
    schemas: Seq<SchemaView>,
    schema: Seq<char>,
    definition: TableDefinitionView,
    storage: StorageOutcomeView,
) -> (Seq<SchemaView>, Result<(), CatalogErrorView>) {
    let at = schema_position(schemas, schema);
    match durability_refusal(durability_of(definition.persistence)) {
        Some(refusal) => (schemas, Err(refusal)),
        None => if !has_schema(schemas, schema) {
            (schemas, Err(CatalogErrorView::SchemaNotFound))
        } else if has_table(schemas[at], definition.name) {
            (schemas, Ok(()))
        } else {
            match storage {
                StorageOutcomeView::Failed(cause) => (
                    schemas,
                    Err(CatalogErrorView::Storage(cause)),
                ),
                StorageOutcomeView::Ready => (
                    with_table(schemas, at, provider_of(definition)),
                    Ok(()),
                ),
            }
        },
    }
}

/// The definition of the table that the host's relation asks for.
pub open spec fn definition_of(relation: RelationView, persistence: u8) -> TableDefinitionView {
    TableDefinitionView {
        name: relation.name,
        identifier: relation.oid,
        columns: relation.columns,
        persistence,
    }
}

/// The catalog and the result after the host made the relation
/// `relation` with the durability mark `persistence`: a table that is not
/// permanent is refused before anything else happens; else the schema is
/// resolved, and the table in it.
pub open spec fn creation(
    schemas: Seq<SchemaView>,
    relation: RelationView,
    persistence: u8,
    schema_storage: StorageOutcomeView,
    table_storage: StorageOutcomeView,
) -> (Seq<SchemaView>, Result<(), CatalogErrorView>) {
    match durability_refusal(durability_of(persistence)) {
        Some(refusal) => (schemas, Err(refusal)),
        None => {
            let (resolved, schema) = schema_resolution(
                schemas,
                relation.namespace,
                relation.namespace_oid,
                schema_storage,
            );
            match schema {
                Err(e) => (resolved, Err(e)),
                Ok(_) => table_resolution(
                    resolved,
                    relation.namespace,
                    definition_of(relation, persistence),
                    table_storage,
                ),
            }
        },
    }
}

pub open spec fn unit_result_view(outcome: Result<(), CatalogError>) -> Result<
    (),
    CatalogErrorView,
> {
    match outcome {
        Ok(()) => Ok(()),
        Err(e) => Err(e@),
    }
}

pub open spec fn position_result_view(outcome: Result<usize, CatalogError>) -> Result<
    int,
    CatalogErrorView,
> {
    match outcome {
        Ok(at) => Ok(at as int),
        Err(e) => Err(e@),
    }
}


impl TableProvider {
    /// The table's name.
    pub fn name(&self) -> (name: &String)
        ensures
            name@ == self@.name,
    {
        &self.name
    }

    /// The table's stable identifier.
    pub fn identifier(&self) -> (identifier: u32)
        ensures
            identifier == self@.identifier,
    {
        self.identifier
    }

    /// The table's columns.
    pub fn columns(&self) -> (columns: &Vec<Column>)
        ensures
            columns_view(columns@) == self@.columns,
    {
        &self.columns
    }
}

impl ParadeSchemaProvider {
    /// The set of providers of the schema `name`, without tables yet.
    pub fn new(name: String, identifier: u32) -> (provider: ParadeSchemaProvider)
        ensures
            provider@ == fresh_schema(name@, identifier),
    {
        let provider = ParadeSchemaProvider { name, identifier, tables: Vec::new() };
        assert(provider@.tables =~= Seq::empty());
        provider
    }

    /// The schema's name.
    pub fn name(&self) -> (name: &String)
        ensures
            name@ == self@.name,
    {
        &self.name
    }

    /// The schema's stable identifier.
    pub fn identifier(&self) -> (identifier: u32)
        ensures
            identifier == self@.identifier,
    {
        self.identifier
    }

    /// The schema's storage directory: that of its identifier, whatever
    /// the schema is called.
    pub fn directory(&self) -> (directory: SchemaDirectory)
        ensures
            directory == crate::directory::schema_directory(self@.identifier),
    {
        ParadeDirectory::schema_path(self.identifier)
    }

    /// The number of tables.
    pub fn table_count(&self) -> (count: usize)
        ensures
            count == self@.tables.len(),
    {
        self.tables.len()
    }

    /// Position of the table called `name`, if there is one.
    pub fn find_table(&self, name: &str) -> (found: Option<usize>)
        ensures
            match found {
                Some(at) => has_table(self@, name@) && at == table_position(self@, name@),
                None => !has_table(self@, name@),
            },
    {
        let ghost names = table_names(self@);
        let mut at: usize = 0;
        while at < self.tables.len()
            invariant
                at <= self.tables@.len(),
                names == table_names(self@),
                names.len() == self.tables@.len(),
                first_named_from(names, name@, 0) == first_named_from(names, name@, at as int),
            decreases self.tables@.len() - at,
        {
            if str_equal(self.tables[at].name.as_str(), name) {
                return Some(at);
            }
            at += 1;
        }
        None
    }

    /// The table at `at`.
    pub fn table(&self, at: usize) -> (table: &TableProvider)
        requires
            at < self@.tables.len(),
        ensures
            table@ == self@.tables[at as int],
    {
        &self.tables[at]
    }

    /// The storage location of the table at `at`.
    pub fn table_location(&self, at: usize) -> (location: TableLocation)
        requires
            at < self@.tables.len(),
        ensures
            location == crate::directory::table_location(
                self@.identifier,
                self@.tables[at as int].identifier,
            ),
    {
        ParadeDirectory::table_path(self.identifier, self.tables[at].identifier)
    }
}

impl Catalog {
    /// A catalog without schemas.
    pub fn new() -> (catalog: Catalog)
        ensures
            catalog@ == Seq::<SchemaView>::empty(),
            well_formed(catalog@),
    {
        let catalog = Catalog { schemas: Vec::new() };
        catalog
    }

    /// The number of schemas.
    pub fn schema_count(&self) -> (count: usize)
        ensures
            count == self@.len(),
    {
        self.schemas.len()
    }

    /// Position of the schema called `name`, if there is one.
    pub fn find_schema(&self, name: &str) -> (found: Option<usize>)
        ensures
            match found {
                Some(at) => has_schema(self@, name@) && at == schema_position(self@, name@),
                None => !has_schema(self@, name@),
            },
    {
        let ghost names = schema_names(self@);
        let mut at: usize = 0;
        while at < self.schemas.len()
            invariant
                at <= self.schemas@.len(),
                names == schema_names(self@),
                names.len() == self.schemas@.len(),
                first_named_from(names, name@, 0) == first_named_from(names, name@, at as int),
            decreases self.schemas@.len() - at,
        {
            if str_equal(self.schemas[at].name.as_str(), name) {
                return Some(at);
            }
            at += 1;
        }
        None
    }

    /// The set of providers of the schema called `name`, if it is there.
    pub fn schema(&self, name: &str) -> (found: Option<&ParadeSchemaProvider>)
        ensures
            match found {
                Some(provider) => has_schema(self@, name@) && provider@ == self@[schema_position(
                    self@,
                    name@,
                )],
                None => !has_schema(self@, name@),
            },
    {
        match self.find_schema(name) {
            Some(at) => Some(&self.schemas[at]),
            None => None,
        }
    }

    /// The set of providers at `at`.
    pub fn provider(&self, at: usize) -> (provider: &ParadeSchemaProvider)
        requires
            at < self@.len(),
        ensures
            provider@ == self@[at as int],
    {
        &self.schemas[at]
    }

    /// Publishes `candidate` under its name, unless a schema of that name
    /// is there already: then the candidate is dropped, the catalog stays
    /// as it is, and the answer is `false`.
    pub fn register_schema(&mut self, candidate: ParadeSchemaProvider) -> (won: bool)
        ensures
            final(self)@ == published(old(self)@, candidate@),
            won == !has_schema(old(self)@, candidate@.name),
            well_formed(old(self)@) && well_formed(seq![candidate@]) ==> well_formed(final(self)@),
    {
        match self.find_schema(candidate.name.as_str()) {
            Some(_) => false,
            None => {
                proof {
                    lemma_publish_keeps_well_formed(self@, candidate@);
                }
                self.schemas.push(candidate);
                true
            },
        }
    }

    /// The position of the schema called `name`. Where the catalog has
    /// none of that name, one is made with `identifier` and published,
    /// provided that `storage`, the outcome of preparing its directory, is
    /// ready; a failure there is handed on and nothing is published.
    pub fn get_or_create_schema(&mut self, name: &str, identifier: u32, storage: StorageOutcome) -> (outcome:
        Result<usize, CatalogError>)
        ensures
            (final(self)@, position_result_view(outcome)) == schema_resolution(
                old(self)@,
                name@,
                identifier,
                storage@,
            ),
            well_formed(old(self)@) ==> well_formed(final(self)@),
    {
        match self.find_schema(name) {
            Some(at) => Ok(at),
            None => {
                match storage {
                    StorageOutcome::Failed(cause) => Err(CatalogError::Storage(cause)),
                    StorageOutcome::Ready => {
                        let at = self.schemas.len();
                        let candidate = ParadeSchemaProvider::new(name.to_owned(), identifier);
                        proof {
                            assert(candidate@.tables.len() == 0);
                            assert(well_formed(seq![candidate@]));
                            lemma_publish_keeps_well_formed(self@, candidate@);
                        }
                        self.schemas.push(candidate);
                        assert(self@ == old(self)@.push(fresh_schema(name@, identifier)));
                        Ok(at)
                    },
                }
            },
        }
    }

    /// Resolves the table that `definition` describes in the schema called
    /// `schema`: a table that is not permanent is refused; the schema must
    /// be there; a table of the name that is there already is kept as it
    /// is; else a provider is made from the definition and added, provided
    /// that `storage`, the outcome of preparing the table's location, is
    /// ready. After any failure the catalog is as it was.
    pub fn get_or_create_table(&mut self, schema: &str, definition: TableDefinition, storage: StorageOutcome) -> (outcome:
        Result<(), CatalogError>)
        ensures
            (final(self)@, unit_result_view(outcome)) == table_resolution(
                old(self)@,
                schema@,
                definition@,
                storage@,
            ),
            well_formed(old(self)@) ==> well_formed(final(self)@),
    {
        match classify_persistence(definition.persistence) {
            DurabilityClass::Unlogged => {
                return Err(CatalogError::UnloggedNotSupported);
            },
            DurabilityClass::Temporary => {
                return Err(CatalogError::TempNotSupported);
            },
            DurabilityClass::Unknown => {
                return Err(CatalogError::UnknownPersistence);
            },
            DurabilityClass::Permanent => {},
        }
        let at: usize = match self.find_schema(schema) {
            None => {
                return Err(CatalogError::SchemaNotFound);
            },
            Some(at) => at,
        };
        if self.schemas[at].find_table(definition.name.as_str()).is_some() {
            return Ok(());
        }
        match storage {
            StorageOutcome::Failed(cause) => Err(CatalogError::Storage(cause)),
            StorageOutcome::Ready => {
                let ghost before = self@;
                let ghost added = provider_of(definition@);
                let table = TableProvider {
                    name: definition.name,
                    identifier: definition.identifier,
                    columns: definition.columns,
                };
                let mut provider = self.schemas.remove(at);
                provider.tables.push(table);
                assert(provider@.tables =~= before[at as int].tables.push(added));
                self.schemas.insert(at, provider);
                assert(self@ =~= with_table(before, at as int, added));
                proof {
                    lemma_table_keeps_well_formed(before, at as int, added);
                }
                Ok(())
            },
        }
    }
}

/// Publishing a schema under a name that is not taken keeps names apart.
pub proof fn lemma_publish_keeps_well_formed(schemas: Seq<SchemaView>, candidate: SchemaView)
    requires
        !has_schema(schemas, candidate.name),
    ensures
        well_formed(schemas) && well_formed(seq![candidate]) ==> well_formed(
            schemas.push(candidate),
        ),
{
    let after = schemas.push(candidate);
    lemma_first_named(schema_names(schemas), candidate.name, 0);
    if well_formed(schemas) && well_formed(seq![candidate]) {
        assert forall|i: int, j: int| 0 <= i < j < after.len() implies (#[trigger] after[i]).name != (
        #[trigger] after[j]).name by {
            if j == schemas.len() {
                assert(schema_names(schemas)[i] == schemas[i].name);
            }
        }
        assert forall|s: int, i: int, j: int|
            0 <= s < after.len() && 0 <= i < j < after[s].tables.len() implies (
        #[trigger] after[s].tables[i]).name != (#[trigger] after[s].tables[j]).name by {
            if s == schemas.len() {
                assert(after[s] == seq![candidate][0]);
            }
        }
    }
}

/// Adding a table under a name that its schema does not hold keeps names
/// apart.
pub proof fn lemma_table_keeps_well_formed(schemas: Seq<SchemaView>, at: int, table: TableView)
    requires
        0 <= at < schemas.len(),
        !has_table(schemas[at], table.name),
    ensures
        well_formed(schemas) ==> well_formed(with_table(schemas, at, table)),
{
    let after = with_table(schemas, at, table);
    lemma_first_named(table_names(schemas[at]), table.name, 0);
    if well_formed(schemas) {
        assert forall|i: int, j: int| 0 <= i < j < after.len() implies (#[trigger] after[i]).name != (
        #[trigger] after[j]).name by {}
        assert forall|s: int, i: int, j: int|
            0 <= s < after.len() && 0 <= i < j < after[s].tables.len() implies (
        #[trigger] after[s].tables[i]).name != (#[trigger] after[s].tables[j]).name by {
            if s == at {
                if j == schemas[at].tables.len() {
                    assert(table_names(schemas[at])[i] == schemas[at].tables[i].name);
                }
            }
        }
    }
}

/// Makes the table that the host's relation asks for: a table that is not
/// permanent is refused before the catalog is touched; else the schema of
/// the relation is resolved, made first where the catalog lacks it, and
/// the table is resolved in it. `schema_storage` and `table_storage` are
/// the outcomes of preparing the schema's directory and the table's
/// location; each is consulted only where something new is to be made.
pub fn create_table(
    catalog: &mut Catalog,
    relation: RelationInfo,
    persistence: u8,
    schema_storage: StorageOutcome,
    table_storage: StorageOutcome,
) -> (outcome: Result<(), CatalogError>)
    ensures
        (final(catalog)@, unit_result_view(outcome)) == creation(
            old(catalog)@,
            relation@,
            persistence,
            schema_storage@,
            table_storage@,
        ),
        well_formed(old(catalog)@) ==> well_formed(final(catalog)@),
{
    match classify_persistence(persistence) {
        DurabilityClass::Unlogged => Err(CatalogError::UnloggedNotSupported),
        DurabilityClass::Temporary => Err(CatalogError::TempNotSupported),
        DurabilityClass::Permanent => {
            let RelationInfo { name, oid, namespace, namespace_oid, columns } = relation;
            match catalog.get_or_create_schema(namespace.as_str(), namespace_oid, schema_storage) {
                Err(e) => Err(e),
                Ok(_) => {
                    let definition = TableDefinition { name, identifier: oid, columns, persistence };
                    catalog.get_or_create_table(namespace.as_str(), definition, table_storage)
                },
            }
        },
        DurabilityClass::Unknown => Err(CatalogError::UnknownPersistence),
    }
}


impl Catalog {
    /// The provider of the table `table` of the schema `schema`, if both
    /// are there.
    pub fn table(&self, schema: &str, table: &str) -> (found: Option<&TableProvider>)
        ensures
            match found {
                Some(provider) => has_schema(self@, schema@) && has_table(
                    self@[schema_position(self@, schema@)],
                    table@,
                ) && provider@ == self@[schema_position(self@, schema@)].tables[table_position(
                    self@[schema_position(self@, schema@)],
                    table@,
                )],
                None => !has_schema(self@, schema@) || !has_table(
                    self@[schema_position(self@, schema@)],
                    table@,
                ),
            },
    {
        match self.find_schema(schema) {
            None => None,
            Some(at) => {
                let provider = &self.schemas[at];
                match provider.find_table(table) {
                    None => None,
                    Some(t) => Some(provider.table(t)),
                }
            },
        }
    }
}

/// The host's hook for a relation that was given new storage, as hosts
/// name it that speak of file nodes. The host takes no error from this
/// hook, so it is for relations whose creation succeeds.
pub fn deltalake_relation_set_new_filenode(
    catalog: &mut Catalog,
    relation: RelationInfo,
    persistence: u8,
    schema_storage: StorageOutcome,
    table_storage: StorageOutcome,
)
    requires
        creation(old(catalog)@, relation@, persistence, schema_storage@, table_storage@).1 is Ok,
    ensures
        final(catalog)@ == creation(
            old(catalog)@,
            relation@,
            persistence,
            schema_storage@,
            table_storage@,
        ).0,
        well_formed(old(catalog)@) ==> well_formed(final(catalog)@),
{
    let _ = create_table(catalog, relation, persistence, schema_storage, table_storage);
}

/// The host's hook for a relation that was given new storage, as hosts
/// name it that speak of file locators. The host takes no error from this
/// hook, so it is for relations whose creation succeeds.
pub fn deltalake_relation_set_new_filelocator(
    catalog: &mut Catalog,
    relation: RelationInfo,
    persistence: u8,
    schema_storage: StorageOutcome,
    table_storage: StorageOutcome,
)
    requires
        creation(old(catalog)@, relation@, persistence, schema_storage@, table_storage@).1 is Ok,
    ensures
        final(catalog)@ == creation(
            old(catalog)@,
            relation@,
            persistence,
            schema_storage@,
            table_storage@,
        ).0,
        well_formed(old(catalog)@) ==> well_formed(final(catalog)@),
{
    let _ = create_table(catalog, relation, persistence, schema_storage, table_storage);
}

} // verus!
