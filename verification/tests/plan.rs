use lakehouse_scan::batch::Column;
use lakehouse_scan::catalog::{create_table, Catalog, RelationInfo, StorageOutcome};
use lakehouse_scan::directory::{SchemaDirectory, TableLocation};
use lakehouse_scan::durability::RELPERSISTENCE_PERMANENT;
use lakehouse_scan::error::ScanError;
use lakehouse_scan::plan::ScanPlan;
use lakehouse_scan::value::{BOOL_OID, INT4_OID, TEXT_OID};

fn column(name: &str, num: usize, type_oid: u32) -> Column {
    Column { name: name.to_string(), num, type_oid }
}

fn catalog_with_table() -> Catalog {
    let mut catalog = Catalog::new();
    let relation = RelationInfo {
        name: "t".to_string(),
        oid: 77,
        namespace: "s".to_string(),
        namespace_oid: 5,
        columns: vec![column("a", 1, INT4_OID), column("b", 2, TEXT_OID), column("c", 3, BOOL_OID)],
    };
    create_table(
        &mut catalog,
        relation,
        RELPERSISTENCE_PERMANENT,
        StorageOutcome::Ready,
        StorageOutcome::Ready,
    )
    .unwrap();
    catalog
}

#[test]
fn plan_gives_location_positions_and_limit() {
    let catalog = catalog_with_table();
    let wanted = [column("c", 3, BOOL_OID), column("a", 1, INT4_OID)];
    assert_eq!(
        catalog.plan_scan("s", "t", &wanted, Some(10)),
        Ok(ScanPlan {
            location: TableLocation { directory: SchemaDirectory { schema_id: 5 }, table_id: 77 },
            projection: vec![2, 0],
            limit: Some(10),
        })
    );
    assert_eq!(
        catalog.plan_scan("s", "t", &[], None),
        Ok(ScanPlan {
            location: TableLocation { directory: SchemaDirectory { schema_id: 5 }, table_id: 77 },
            projection: vec![],
            limit: None,
        })
    );
}

#[test]
fn plan_needs_the_table() {
    let catalog = catalog_with_table();
    let wanted = [column("a", 1, INT4_OID)];
    assert_eq!(catalog.plan_scan("s", "u", &wanted, None), Err(ScanError::TableNotFound));
    assert_eq!(catalog.plan_scan("r", "t", &wanted, None), Err(ScanError::TableNotFound));
    assert_eq!(Catalog::new().plan_scan("s", "t", &wanted, None), Err(ScanError::TableNotFound));
    assert_eq!(ScanError::TableNotFound.message(), "table not found");
}

#[test]
fn plan_names_the_first_column_the_table_lacks() {
    let catalog = catalog_with_table();
    let wanted = [column("a", 1, INT4_OID), column("x", 4, INT4_OID), column("y", 5, INT4_OID)];
    assert_eq!(catalog.plan_scan("s", "t", &wanted, Some(1)), Err(ScanError::ColumnNotFound(1)));
}

#[test]
fn opening_a_table_enters_it_on_first_use() {
    let mut catalog = Catalog::new();
    let relation = RelationInfo {
        name: "t".to_string(),
        oid: 77,
        namespace: "s".to_string(),
        namespace_oid: 5,
        columns: vec![column("a", 1, INT4_OID), column("b", 2, TEXT_OID)],
    };
    let wanted = [column("b", 2, TEXT_OID)];
    let plan = catalog.open_table(relation.clone(), &wanted, Some(10));
    let expected = ScanPlan {
        location: TableLocation { directory: SchemaDirectory { schema_id: 5 }, table_id: 77 },
        projection: vec![1],
        limit: Some(10),
    };
    assert_eq!(plan, Ok(expected.clone()));
    assert_eq!(catalog.schema_count(), 1);
    assert_eq!(catalog.schema("s").unwrap().table_count(), 1);
    assert_eq!(catalog.open_table(relation.clone(), &wanted, Some(10)), Ok(expected));
    assert_eq!(catalog.schema_count(), 1);
    assert_eq!(catalog.schema("s").unwrap().table_count(), 1);
    assert_eq!(
        catalog.open_table(relation, &[column("z", 3, INT4_OID)], None),
        Err(ScanError::ColumnNotFound(0))
    );
}
