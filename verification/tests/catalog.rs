use lakehouse_scan::batch::Column;
use lakehouse_scan::catalog::{
    create_table, deltalake_relation_set_new_filelocator, deltalake_relation_set_new_filenode,
    Catalog, CatalogError, ParadeSchemaProvider, RelationInfo, StorageOutcome, TableDefinition,
};
use lakehouse_scan::directory::{ParadeDirectory, SchemaDirectory, TableLocation};
use lakehouse_scan::durability::{
    classify_persistence, DurabilityClass, RELPERSISTENCE_PERMANENT, RELPERSISTENCE_TEMP,
    RELPERSISTENCE_UNLOGGED,
};
use lakehouse_scan::value::{INT4_OID, TEXT_OID};

fn relation(name: &str, oid: u32, namespace: &str, namespace_oid: u32) -> RelationInfo {
    RelationInfo {
        name: name.to_string(),
        oid,
        namespace: namespace.to_string(),
        namespace_oid,
        columns: vec![
            Column { name: "a".to_string(), num: 1, type_oid: INT4_OID },
            Column { name: "b".to_string(), num: 2, type_oid: TEXT_OID },
        ],
    }
}

fn definition(name: &str, identifier: u32, persistence: u8) -> TableDefinition {
    TableDefinition { name: name.to_string(), identifier, columns: vec![], persistence }
}

#[test]
fn persistence_marks_are_the_hosts() {
    assert_eq!(RELPERSISTENCE_PERMANENT, b'p');
    assert_eq!(RELPERSISTENCE_UNLOGGED, b'u');
    assert_eq!(RELPERSISTENCE_TEMP, b't');
    assert_eq!(classify_persistence(b'p'), DurabilityClass::Permanent);
    assert_eq!(classify_persistence(b'u'), DurabilityClass::Unlogged);
    assert_eq!(classify_persistence(b't'), DurabilityClass::Temporary);
    assert_eq!(classify_persistence(b'x'), DurabilityClass::Unknown);
    assert_eq!(classify_persistence(0), DurabilityClass::Unknown);
}

#[test]
fn schema_is_made_once_however_often_it_is_asked_for() {
    let mut catalog = Catalog::new();
    let mut seen = Vec::new();
    for _ in 0..8 {
        seen.push(catalog.get_or_create_schema("s", 2200, StorageOutcome::Ready).unwrap());
    }
    assert_eq!(seen, vec![0; 8]);
    assert_eq!(catalog.schema_count(), 1);
    assert_eq!(catalog.provider(0).name(), "s");
    assert_eq!(catalog.provider(0).identifier(), 2200);
}

#[test]
fn later_registration_of_a_name_is_dropped() {
    let mut catalog = Catalog::new();
    assert!(catalog.register_schema(ParadeSchemaProvider::new("s".to_string(), 1)));
    assert!(!catalog.register_schema(ParadeSchemaProvider::new("s".to_string(), 2)));
    assert!(!catalog.register_schema(ParadeSchemaProvider::new("s".to_string(), 3)));
    assert_eq!(catalog.schema_count(), 1);
    assert_eq!(catalog.schema("s").unwrap().identifier(), 1);
    assert!(catalog.register_schema(ParadeSchemaProvider::new("t".to_string(), 2)));
    assert_eq!(catalog.schema_count(), 2);
    assert_eq!(catalog.find_schema("t"), Some(1));
    assert_eq!(catalog.find_schema("u"), None);
    assert!(catalog.schema("u").is_none());
}

#[test]
fn an_existing_schema_is_found_whatever_the_later_caller_brings() {
    let mut catalog = Catalog::new();
    assert_eq!(catalog.get_or_create_schema("s", 7, StorageOutcome::Ready), Ok(0));
    assert_eq!(
        catalog.get_or_create_schema("s", 8, StorageOutcome::Failed("disk".to_string())),
        Ok(0)
    );
    assert_eq!(catalog.provider(0).identifier(), 7);
    assert_eq!(catalog.schema_count(), 1);
}

#[test]
fn schema_storage_failure_publishes_nothing() {
    let mut catalog = Catalog::new();
    assert_eq!(
        catalog.get_or_create_schema("s", 7, StorageOutcome::Failed("no space".to_string())),
        Err(CatalogError::Storage("no space".to_string()))
    );
    assert_eq!(catalog.schema_count(), 0);
    assert!(catalog.schema("s").is_none());
}

#[test]
fn unlogged_and_temporary_tables_are_refused_distinctly() {
    let mut catalog = Catalog::new();
    let unlogged = create_table(
        &mut catalog,
        relation("t", 10, "s", 1),
        RELPERSISTENCE_UNLOGGED,
        StorageOutcome::Ready,
        StorageOutcome::Ready,
    );
    assert_eq!(unlogged, Err(CatalogError::UnloggedNotSupported));
    let temporary = create_table(
        &mut catalog,
        relation("t", 10, "s", 1),
        RELPERSISTENCE_TEMP,
        StorageOutcome::Ready,
        StorageOutcome::Ready,
    );
    assert_eq!(temporary, Err(CatalogError::TempNotSupported));
    let unknown = create_table(
        &mut catalog,
        relation("t", 10, "s", 1),
        b'?',
        StorageOutcome::Ready,
        StorageOutcome::Ready,
    );
    assert_eq!(unknown, Err(CatalogError::UnknownPersistence));
    assert_eq!(catalog.schema_count(), 0);
    assert!(catalog.table("s", "t").is_none());
}

#[test]
fn permanent_table_is_registered_once() {
    let mut catalog = Catalog::new();
    let made = create_table(
        &mut catalog,
        relation("t", 10, "s", 1),
        RELPERSISTENCE_PERMANENT,
        StorageOutcome::Ready,
        StorageOutcome::Ready,
    );
    assert_eq!(made, Ok(()));
    assert_eq!(catalog.schema_count(), 1);
    let schema = catalog.schema("s").unwrap();
    assert_eq!(schema.table_count(), 1);
    assert_eq!(schema.find_table("t"), Some(0));
    let table = catalog.table("s", "t").unwrap();
    assert_eq!(table.name(), "t");
    assert_eq!(table.identifier(), 10);
    assert_eq!(table.columns(), &relation("t", 10, "s", 1).columns);
    let again = create_table(
        &mut catalog,
        relation("t", 11, "s", 1),
        RELPERSISTENCE_PERMANENT,
        StorageOutcome::Ready,
        StorageOutcome::Ready,
    );
    assert_eq!(again, Ok(()));
    assert_eq!(catalog.schema("s").unwrap().table_count(), 1);
    assert_eq!(catalog.table("s", "t").unwrap().identifier(), 10);
}

#[test]
fn table_storage_failure_adds_no_table() {
    let mut catalog = Catalog::new();
    let made = create_table(
        &mut catalog,
        relation("t", 10, "s", 1),
        RELPERSISTENCE_PERMANENT,
        StorageOutcome::Ready,
        StorageOutcome::Failed("cannot write".to_string()),
    );
    assert_eq!(made, Err(CatalogError::Storage("cannot write".to_string())));
    assert_eq!(catalog.schema_count(), 1);
    assert_eq!(catalog.schema("s").unwrap().table_count(), 0);
    let made = create_table(
        &mut catalog,
        relation("t", 10, "z", 2),
        RELPERSISTENCE_PERMANENT,
        StorageOutcome::Failed("cannot list".to_string()),
        StorageOutcome::Ready,
    );
    assert_eq!(made, Err(CatalogError::Storage("cannot list".to_string())));
    assert_eq!(catalog.schema_count(), 1);
}

#[test]
fn get_or_create_table_needs_the_schema() {
    let mut catalog = Catalog::new();
    assert_eq!(
        catalog.get_or_create_table("s", definition("t", 1, b'p'), StorageOutcome::Ready),
        Err(CatalogError::SchemaNotFound)
    );
    assert_eq!(
        catalog.get_or_create_table("s", definition("t", 1, b'u'), StorageOutcome::Ready),
        Err(CatalogError::UnloggedNotSupported)
    );
    assert_eq!(
        catalog.get_or_create_table("s", definition("t", 1, b't'), StorageOutcome::Ready),
        Err(CatalogError::TempNotSupported)
    );
    assert_eq!(
        catalog.get_or_create_table("s", definition("t", 1, b'z'), StorageOutcome::Ready),
        Err(CatalogError::UnknownPersistence)
    );
    catalog.get_or_create_schema("s", 5, StorageOutcome::Ready).unwrap();
    catalog.get_or_create_schema("r", 6, StorageOutcome::Ready).unwrap();
    assert_eq!(
        catalog.get_or_create_table("s", definition("t", 1, b'p'), StorageOutcome::Ready),
        Ok(())
    );
    assert_eq!(
        catalog.get_or_create_table("s", definition("u", 2, b'p'), StorageOutcome::Ready),
        Ok(())
    );
    assert_eq!(
        catalog.get_or_create_table(
            "s",
            definition("t", 3, b'p'),
            StorageOutcome::Failed("x".to_string())
        ),
        Ok(())
    );
    assert_eq!(catalog.schema("s").unwrap().table_count(), 2);
    assert_eq!(catalog.schema("r").unwrap().table_count(), 0);
    assert_eq!(catalog.find_schema("s"), Some(0));
    assert_eq!(catalog.find_schema("r"), Some(1));
    assert_eq!(catalog.schema("s").unwrap().table(1).name(), "u");
    assert_eq!(
        catalog.schema("s").unwrap().table_location(1),
        TableLocation { directory: SchemaDirectory { schema_id: 5 }, table_id: 2 }
    );
}

#[test]
fn renaming_a_schema_keeps_its_directory() {
    let mut catalog = Catalog::new();
    let before = catalog.get_or_create_schema("sales", 4242, StorageOutcome::Ready).unwrap();
    let first = catalog.provider(before).directory();
    let after = catalog.get_or_create_schema("revenue", 4242, StorageOutcome::Ready).unwrap();
    assert_eq!(catalog.provider(after).directory(), first);
    assert_eq!(first, SchemaDirectory { schema_id: 4242 });
    assert_eq!(catalog.provider(before).directory(), first);
    let other = catalog.get_or_create_schema("sales_eu", 4243, StorageOutcome::Ready).unwrap();
    assert_ne!(catalog.provider(other).directory(), first);
}

#[test]
fn paths_follow_identifiers() {
    assert_eq!(ParadeDirectory::schema_path(9), SchemaDirectory { schema_id: 9 });
    assert_eq!(
        ParadeDirectory::table_path(9, 3),
        TableLocation { directory: SchemaDirectory { schema_id: 9 }, table_id: 3 }
    );
    assert_ne!(ParadeDirectory::table_path(9, 3), ParadeDirectory::table_path(3, 9));
}

#[test]
fn hooks_make_the_table() {
    let mut catalog = Catalog::new();
    deltalake_relation_set_new_filenode(
        &mut catalog,
        relation("t", 10, "s", 1),
        RELPERSISTENCE_PERMANENT,
        StorageOutcome::Ready,
        StorageOutcome::Ready,
    );
    deltalake_relation_set_new_filelocator(
        &mut catalog,
        relation("u", 11, "s", 1),
        RELPERSISTENCE_PERMANENT,
        StorageOutcome::Ready,
        StorageOutcome::Ready,
    );
    assert_eq!(catalog.schema_count(), 1);
    assert_eq!(catalog.schema("s").unwrap().table_count(), 2);
    assert!(catalog.table("s", "t").is_some());
    assert!(catalog.table("s", "u").is_some());
    assert!(catalog.table("s", "v").is_none());
    assert!(catalog.table("r", "t").is_none());
}

#[test]
fn catalog_errors_have_the_hosts_texts() {
    assert_eq!(
        CatalogError::UnloggedNotSupported.message(),
        "Unlogged tables are not yet supported"
    );
    assert_eq!(CatalogError::TempNotSupported.message(), "Temp tables are not yet supported");
    assert_eq!(CatalogError::UnknownPersistence.message(), "Unknown persistence type");
    assert_eq!(CatalogError::SchemaNotFound.message(), "Schema not found");
    assert_eq!(CatalogError::Storage("why".to_string()).message(), "why");
}
