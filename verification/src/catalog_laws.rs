//! What holds of every catalog, proved from the model of its operations.

use vstd::prelude::*;
use crate::batch::lemma_first_named;
use crate::catalog::{
    creation, definition_of, fresh_schema, has_schema, has_table, provider_of, published,
    schema_names, schema_position, schema_resolution, table_names, well_formed, CatalogErrorView,
    RelationView, SchemaView, StorageOutcomeView,
};
use crate::directory::schema_directory;
use crate::durability::{durability_of, DurabilityClass};

verus! {

/// The catalog after each of `candidates` was offered for publication,
/// first to last.
pub open spec fn published_all(schemas: Seq<SchemaView>, candidates: Seq<SchemaView>) -> Seq<
    SchemaView,
>
    decreases candidates.len(),
{
    if candidates.len() == 0 {
        schemas
    } else {
        published(published_all(schemas, candidates.drop_last()), candidates.last())
    }
}

/// A schema that is found stays where it is when another is published.
pub proof fn lemma_position_after_push(schemas: Seq<SchemaView>, added: SchemaView, name: Seq<char>)
    ensures
        has_schema(schemas, name) ==> schema_position(schemas.push(added), name) == schema_position(
            schemas,
            name,
        ),
        !has_schema(schemas, name) && added.name == name ==> schema_position(
            schemas.push(added),
            name,
        ) == schemas.len(),
        !has_schema(schemas, name) && added.name != name ==> !has_schema(schemas.push(added), name),
{
    let before = schema_names(schemas);
    let after = schema_names(schemas.push(added));
    assert(after =~= before.push(added.name));
    lemma_push_keeps_first(before, added.name, name, 0);
}

proof fn lemma_push_keeps_first(names: Seq<Seq<char>>, added: Seq<char>, name: Seq<char>, from: int)
    requires
        0 <= from <= names.len(),
    ensures
        crate::batch::first_named_from(names.push(added), name, from) == if crate::batch::first_named_from(
            names,
            name,
            from,
        ) < names.len() {
            crate::batch::first_named_from(names, name, from)
        } else if added == name {
            names.len() as int
        } else {
            (names.len() + 1) as int
        },
    decreases names.len() - from,
{
    let after = names.push(added);
    lemma_first_named(names, name, from);
    if from < names.len() {
        if names[from] != name {
            lemma_push_keeps_first(names, added, name, from + 1);
        }
    } else {
        assert(crate::batch::first_named_from(after, name, from + 1) == after.len());
    }
}

/// However many candidates are offered for one name, the catalog takes
/// the first where it had no schema of that name, and none where it had
/// one: the schema found under the name after the first offer is the one
/// found after every later offer.
pub proof fn lemma_single_flight(
    schemas: Seq<SchemaView>,
    candidates: Seq<SchemaView>,
    name: Seq<char>,
)
    requires
        candidates.len() > 0,
        forall|i: int| 0 <= i < candidates.len() ==> (#[trigger] candidates[i]).name == name,
    ensures
        published_all(schemas, candidates) == published(schemas, candidates[0]),
        has_schema(published_all(schemas, candidates), name),
        has_schema(schemas, name) ==> published_all(schemas, candidates) == schemas,
        !has_schema(schemas, name) ==> published_all(schemas, candidates) == schemas.push(
            candidates[0],
        ) && schema_position(published_all(schemas, candidates), name) == schemas.len(),
    decreases candidates.len(),
{
    lemma_position_after_push(schemas, candidates[0], name);
    lemma_first_named(schema_names(schemas), name, 0);
    if candidates.len() == 1 {
        assert(published_all(schemas, candidates.drop_last()) == schemas);
    } else {
        let earlier = candidates.drop_last();
        assert forall|i: int| 0 <= i < earlier.len() implies (#[trigger] earlier[i]).name == name by {}
        lemma_single_flight(schemas, earlier, name);
    }
}

/// Once a schema is resolved under a name, resolving the name again gives
/// the same schema at the same place and changes nothing, whatever
/// identifier and storage outcome the later caller brings.
pub proof fn lemma_resolution_is_single_flight(
    schemas: Seq<SchemaView>,
    name: Seq<char>,
    identifier: u32,
    storage: StorageOutcomeView,
    later_identifier: u32,
    later_storage: StorageOutcomeView,
)
    requires
        schema_resolution(schemas, name, identifier, storage).1 is Ok,
    ensures
        ({
            let (first, at) = schema_resolution(schemas, name, identifier, storage);
            let (second, again) = schema_resolution(first, name, later_identifier, later_storage);
            &&& second == first
            &&& again == at
            &&& 0 <= at->Ok_0 < first.len()
            &&& first[at->Ok_0].name == name
        }),
{
    lemma_position_after_push(schemas, fresh_schema(name, identifier), name);
    lemma_first_named(schema_names(schemas), name, 0);
}

/// A table that is not permanent is refused with an error of its own
/// class and the catalog stays as it was.
pub proof fn lemma_durability_gate_refuses(
    schemas: Seq<SchemaView>,
    relation: RelationView,
    persistence: u8,
    schema_storage: StorageOutcomeView,
    table_storage: StorageOutcomeView,
)
    requires
        durability_of(persistence) != DurabilityClass::Permanent,
    ensures
        ({
            let (after, outcome) = creation(
                schemas,
                relation,
                persistence,
                schema_storage,
                table_storage,
            );
            &&& after == schemas
            &&& durability_of(persistence) == DurabilityClass::Unlogged ==> outcome == Err::<
                (),
                CatalogErrorView,
            >(CatalogErrorView::UnloggedNotSupported)
            &&& durability_of(persistence) == DurabilityClass::Temporary ==> outcome == Err::<
                (),
                CatalogErrorView,
            >(CatalogErrorView::TempNotSupported)
            &&& durability_of(persistence) == DurabilityClass::Unknown ==> outcome == Err::<
                (),
                CatalogErrorView,
            >(CatalogErrorView::UnknownPersistence)
        }),
{
}

/// The tables of `schema` that are called `name`.
pub open spec fn tables_named(schema: SchemaView, name: Seq<char>) -> Set<int> {
    Set::new(|i: int| 0 <= i < schema.tables.len() && schema.tables[i].name == name)
}

/// A permanent table whose storage is ready is made: the call succeeds,
/// and afterwards the schema of the relation is in the catalog and holds
/// exactly one table of the relation's name. Where the schema held none
/// before, that table is the provider made from the relation.
pub proof fn lemma_durability_gate_admits(
    schemas: Seq<SchemaView>,
    relation: RelationView,
    persistence: u8,
)
    requires
        well_formed(schemas),
        durability_of(persistence) == DurabilityClass::Permanent,
    ensures
        ({
            let (after, outcome) = creation(
                schemas,
                relation,
                persistence,
                StorageOutcomeView::Ready,
                StorageOutcomeView::Ready,
            );
            let at = schema_position(after, relation.namespace);
            &&& outcome is Ok
            &&& well_formed(after)
            &&& has_schema(after, relation.namespace)
            &&& has_table(after[at], relation.name)
            &&& tables_named(after[at], relation.name) == set![
                crate::catalog::table_position(after[at], relation.name),
            ]
            &&& (!has_schema(schemas, relation.namespace) || !has_table(
                schemas[schema_position(schemas, relation.namespace)],
                relation.name,
            )) ==> after[at].tables.last() == provider_of(definition_of(relation, persistence))
        }),
{
    let (resolved, found) = schema_resolution(
        schemas,
        relation.namespace,
        relation.namespace_oid,
        StorageOutcomeView::Ready,
    );
    let fresh = fresh_schema(relation.namespace, relation.namespace_oid);
    lemma_position_after_push(schemas, fresh, relation.namespace);
    lemma_first_named(schema_names(schemas), relation.namespace, 0);
    if !has_schema(schemas, relation.namespace) {
        crate::catalog::lemma_publish_keeps_well_formed(schemas, fresh);
    }
    let p = schema_position(resolved, relation.namespace);
    lemma_first_named(schema_names(resolved), relation.namespace, 0);
    let definition = definition_of(relation, persistence);
    let (after, outcome) = creation(
        schemas,
        relation,
        persistence,
        StorageOutcomeView::Ready,
        StorageOutcomeView::Ready,
    );
    lemma_first_named(table_names(resolved[p]), relation.name, 0);
    if !has_table(resolved[p], relation.name) {
        crate::catalog::lemma_table_keeps_well_formed(resolved, p, provider_of(definition));
        assert(schema_names(after) =~= schema_names(resolved));
        assert(table_names(after[p]) =~= table_names(resolved[p]).push(relation.name));
        lemma_push_keeps_first(table_names(resolved[p]), relation.name, relation.name, 0);
    }
    let at = schema_position(after, relation.namespace);
    let t = crate::catalog::table_position(after[at], relation.name);
    lemma_first_named(table_names(after[at]), relation.name, 0);
    assert forall|i: int| tables_named(after[at], relation.name).contains(i) implies i == t by {}
}

/// The directory of a schema follows from its identifier alone: a schema
/// first made under one name, and made again under another name with the
/// same identifier, lies in the same directory both times.
pub proof fn lemma_directory_ignores_name(
    schemas: Seq<SchemaView>,
    name: Seq<char>,
    renamed: Seq<char>,
    identifier: u32,
)
    requires
        !has_schema(schemas, name),
        !has_schema(schemas, renamed),
    ensures
        ({
            let (first, at) = schema_resolution(
                schemas,
                name,
                identifier,
                StorageOutcomeView::Ready,
            );
            let (second, again) = schema_resolution(
                first,
                renamed,
                identifier,
                StorageOutcomeView::Ready,
            );
            &&& at is Ok
            &&& again is Ok
            &&& 0 <= at->Ok_0 < second.len()
            &&& 0 <= again->Ok_0 < second.len()
            &&& schema_directory(second[at->Ok_0].identifier) == schema_directory(identifier)
            &&& schema_directory(second[again->Ok_0].identifier) == schema_directory(identifier)
        }),
{
    let fresh = fresh_schema(name, identifier);
    let first = schemas.push(fresh);
    lemma_position_after_push(schemas, fresh, renamed);
    lemma_position_after_push(schemas, fresh, name);
    lemma_position_after_push(first, fresh_schema(renamed, identifier), renamed);
    lemma_first_named(schema_names(first), renamed, 0);
}

} // verus!
