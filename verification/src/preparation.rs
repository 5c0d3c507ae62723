//! What a caller has to do before the catalog can take a new relation:
//! which storage to prepare, and whether the creation will succeed.

use vstd::prelude::*;
use crate::batch::lemma_first_named;
use crate::catalog::{
    creation, durability_refusal, fresh_schema, has_schema, has_table, schema_names,
    schema_position, table_names, unit_result_view, Catalog, CatalogError, RelationInfo,
    RelationView, SchemaView, StorageOutcome, StorageOutcomeView,
};
use crate::catalog_laws::lemma_position_after_push;
use crate::directory::{schema_directory, table_location, ParadeDirectory, SchemaDirectory, TableLocation};
use crate::durability::{classify_persistence, durability_of, DurabilityClass};

verus! {

/// The storage to prepare for one relation.
#[derive(Debug, Clone, Copy, PartialEq, Eq)]
pub struct Preparation {
    /// The directory of the relation's schema, where the catalog has no
    /// schema of that name yet.
    pub schema: Option<SchemaDirectory>,
    /// The location of the relation's table, where its schema has no table
    /// of that name yet.
    pub table: Option<TableLocation>,
}

/// The storage to prepare before the relation `relation` is created with
/// the durability mark `persistence`: none for a table that is not
/// permanent; the schema's directory where the schema is new; the table's
/// location, inside the directory of the schema that the catalog resolves
/// the name to, where the table is new.
pub open spec fn preparation(
    schemas: Seq<SchemaView>,
    relation: RelationView,
    persistence: u8,
) -> Preparation {
    if durability_refusal(durability_of(persistence)) is Some {
        Preparation { schema: None, table: None }
    } else if !has_schema(schemas, relation.namespace) {
        Preparation {
            schema: Some(schema_directory(relation.namespace_oid)),
            table: Some(table_location(relation.namespace_oid, relation.oid)),
        }
    } else {
        let schema = schemas[schema_position(schemas, relation.namespace)];
        Preparation {
            schema: None,
            table: if has_table(schema, relation.name) {
                None
            } else {
                Some(table_location(schema.identifier, relation.oid))
            },
        }
    }
}

/// The table location to prepare once the outcome of preparing the
/// schema's directory is known: none where the directory was asked for and
/// could not be prepared, which ends the creation.
pub open spec fn table_after(need: Preparation, schema_storage: StorageOutcomeView) -> Option<
    TableLocation,
> {
    if need.schema is Some && schema_storage is Failed {
        None
    } else {
        need.table
    }
}

impl Preparation {
    /// The table location to prepare, given how preparing the schema's
    /// directory ended. Where no directory was asked for, `schema_storage`
    /// is not looked at.
    pub fn table_after(&self, schema_storage: &StorageOutcome) -> (location: Option<TableLocation>)
        ensures
            location == table_after(*self, schema_storage@),
    {
        match (&self.schema, schema_storage) {
            (Some(_), StorageOutcome::Failed(_)) => None,
            _ => self.table,
        }
    }
}

/// The storage to prepare before `relation` is created with the
/// durability mark `persistence`.
pub fn next_preparation(catalog: &Catalog, relation: &RelationInfo, persistence: u8) -> (need:
    Preparation)
    ensures
        need == preparation(catalog@, relation@, persistence),
{
    match classify_persistence(persistence) {
        DurabilityClass::Permanent => {},
        _ => {
            return Preparation { schema: None, table: None };
        },
    }
    match catalog.schema(relation.namespace.as_str()) {
        None => Preparation {
            schema: Some(ParadeDirectory::schema_path(relation.namespace_oid)),
            table: Some(ParadeDirectory::table_path(relation.namespace_oid, relation.oid)),
        },
        Some(provider) => {
            let table = match provider.find_table(relation.name.as_str()) {
                Some(_) => None,
                None => Some(ParadeDirectory::table_path(provider.identifier(), relation.oid)),
            };
            Preparation { schema: None, table }
        },
    }
}

/// Whether creating `relation` with these outcomes will succeed, and the
/// error with which it will not. The catalog is not changed.
pub fn check_creation(
    catalog: &Catalog,
    relation: &RelationInfo,
    persistence: u8,
    schema_storage: &StorageOutcome,
    table_storage: &StorageOutcome,
) -> (outcome: Result<(), CatalogError>)
    ensures
        unit_result_view(outcome) == creation(
            catalog@,
            relation@,
            persistence,
            schema_storage@,
            table_storage@,
        ).1,
{
    match classify_persistence(persistence) {
        DurabilityClass::Unlogged => {
            return Err(CatalogError::UnloggedNotSupported);
        },
        DurabilityClass::Temporary => {
            return Err(CatalogError::TempNotSupported);
        },
        DurabilityClass::Unknown => {
            return Err(CatalogError::UnknownPersistence);
        },
        DurabilityClass::Permanent => {},
    }
    proof {
        lemma_new_schema_is_found_empty(catalog@, relation@.namespace, relation@.namespace_oid);
    }
    let table_is_there: bool = match catalog.schema(relation.namespace.as_str()) {
        Some(provider) => provider.find_table(relation.name.as_str()).is_some(),
        None => {
            match schema_storage {
                StorageOutcome::Failed(cause) => {
                    return Err(CatalogError::Storage(cause.clone()));
                },
                StorageOutcome::Ready => false,
            }
        },
    };
    if table_is_there {
        return Ok(());
    }
    match table_storage {
        StorageOutcome::Failed(cause) => Err(CatalogError::Storage(cause.clone())),
        StorageOutcome::Ready => Ok(()),
    }
}

/// A schema that is published under a name the catalog did not have is
/// found under that name, at the end, and has no table; a schema that was
/// there is found where it was.
pub proof fn lemma_new_schema_is_found_empty(
    schemas: Seq<SchemaView>,
    name: Seq<char>,
    identifier: u32,
)
    ensures
        ({
            let grown = schemas.push(fresh_schema(name, identifier));
            &&& has_schema(grown, name)
            &&& !has_schema(schemas, name) ==> schema_position(grown, name) == schemas.len()
                && forall|table: Seq<char>| !has_table(#[trigger] grown[schemas.len() as int], table)
            &&& has_schema(schemas, name) ==> 0 <= schema_position(schemas, name) < schemas.len()
        }),
{
    let fresh = fresh_schema(name, identifier);
    lemma_position_after_push(schemas, fresh, name);
    lemma_first_named(schema_names(schemas), name, 0);
    assert(table_names(fresh) =~= Seq::<Seq<char>>::empty());
}

/// An outcome is consulted only where its storage was asked for: the
/// creation does not depend on the outcome for the schema's directory
/// unless the directory was asked for, nor on the outcome for the table's
/// location unless the location is asked for once the directory's outcome
/// is known.
pub proof fn lemma_unasked_storage_is_not_consulted(
    schemas: Seq<SchemaView>,
    relation: RelationView,
    persistence: u8,
    schema_storage: StorageOutcomeView,
    table_storage: StorageOutcomeView,
    other: StorageOutcomeView,
)
    ensures
        preparation(schemas, relation, persistence).schema is None ==> creation(
            schemas,
            relation,
            persistence,
            other,
            table_storage,
        ) == creation(schemas, relation, persistence, schema_storage, table_storage),
        table_after(preparation(schemas, relation, persistence), schema_storage) is None
            ==> creation(schemas, relation, persistence, schema_storage, other) == creation(
            schemas,
            relation,
            persistence,
            schema_storage,
            table_storage,
        ),
{
    lemma_new_schema_is_found_empty(schemas, relation.namespace, relation.namespace_oid);
}

} // verus!
