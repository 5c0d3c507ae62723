//! Where the storage of a schema and of a table lies, by stable
//! identifiers: names play no part.

use vstd::prelude::*;

verus! {

/// The storage directory of a schema.
#[derive(Debug, Clone, Copy, PartialEq, Eq, Structural)]
pub struct SchemaDirectory {
    /// The schema's stable identifier.
    pub schema_id: u32,
}

/// The storage location of a table, inside the directory of its schema.
#[derive(Debug, Clone, Copy, PartialEq, Eq, Structural)]
pub struct TableLocation {
    /// The directory of the table's schema.
    pub directory: SchemaDirectory,
    /// The table's stable identifier.
    pub table_id: u32,
}

/// The directory of the schema with the identifier `schema_id`.
pub open spec fn schema_directory(schema_id: u32) -> SchemaDirectory {
    SchemaDirectory { schema_id }
}

/// The location of the table `table_id` of the schema `schema_id`.
pub open spec fn table_location(schema_id: u32, table_id: u32) -> TableLocation {
    TableLocation { directory: schema_directory(schema_id), table_id }
}

/// The path construction of the storage layout.
pub struct ParadeDirectory;

impl ParadeDirectory {
    /// The directory of the schema with the identifier `schema_id`.
    pub fn schema_path(schema_id: u32) -> (directory: SchemaDirectory)
        ensures
            directory == schema_directory(schema_id),
    {
        SchemaDirectory { schema_id }
    }

    /// The location of the table `table_id` of the schema `schema_id`.
    pub fn table_path(schema_id: u32, table_id: u32) -> (location: TableLocation)
        ensures
            location == table_location(schema_id, table_id),
    {
        TableLocation { directory: ParadeDirectory::schema_path(schema_id), table_id }
    }
}

/// Schemas with distinct identifiers have distinct directories, and tables
/// that differ in either identifier have distinct locations.
pub proof fn lemma_locations_do_not_collide(
    schema_a: u32,
    table_a: u32,
    schema_b: u32,
    table_b: u32,
)
    ensures
        schema_directory(schema_a) == schema_directory(schema_b) <==> schema_a == schema_b,
        table_location(schema_a, table_a) == table_location(schema_b, table_b) <==> (schema_a
            == schema_b && table_a == table_b),
{
}

} // verus!
