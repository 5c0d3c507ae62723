use std::collections::HashMap;

use datafusion::execution::object_store::ObjectStoreUrl;
use datafusion::execution::runtime_env::RuntimeEnv;
use lakehouse_scan::registry::{BackendKind, ObjectStoreRegistry, RegistryError};
use lakehouse_scan::scan::LocalFileFdw;

#[test]
fn registration_goes_by_scheme_and_authority() {
    let mut registry = ObjectStoreRegistry::new();
    assert_eq!(registry.register("s3://bucket/some/path", BackendKind::RemoteBucket), Ok(()));
    assert_eq!(registry.backend_under("s3://bucket"), Some(BackendKind::RemoteBucket));
    assert_eq!(registry.backend_under("s3://bucket/some/path"), None);
    assert_eq!(registry.resolve("s3://bucket/other/file.parquet"), Ok(BackendKind::RemoteBucket));
    assert_eq!(registry.resolve("s3://elsewhere/file.parquet"), Err(RegistryError::NotRegistered));
    assert_eq!(registry.resolve("file:///tmp/x"), Err(RegistryError::NotRegistered));
}

#[test]
fn scheme_is_lower_cased_by_the_parser() {
    let mut registry = ObjectStoreRegistry::new();
    assert_eq!(registry.register("S3://Bucket:9000/x", BackendKind::RemoteBucket), Ok(()));
    assert_eq!(registry.backend_under("s3://Bucket:9000"), Some(BackendKind::RemoteBucket));
    assert_eq!(registry.resolve("s3://Bucket:9000/y"), Ok(BackendKind::RemoteBucket));
}

#[test]
fn text_that_is_no_absolute_url_is_refused_and_changes_nothing() {
    let mut registry = ObjectStoreRegistry::new();
    registry.register("file://", BackendKind::LocalFileSystem).unwrap();
    assert_eq!(
        registry.register("not a url", BackendKind::RemoteBucket),
        Err(RegistryError::InvalidLocation)
    );
    assert_eq!(
        registry.register("/relative/path", BackendKind::RemoteBucket),
        Err(RegistryError::InvalidLocation)
    );
    assert_eq!(registry.register("", BackendKind::RemoteBucket), Err(RegistryError::InvalidLocation));
    assert_eq!(registry.resolve("not a url"), Err(RegistryError::InvalidLocation));
    assert_eq!(registry.backend_under("file://"), Some(BackendKind::LocalFileSystem));
    assert_eq!(registry.resolve("file:///tmp/data.parquet"), Ok(BackendKind::LocalFileSystem));
}

#[test]
fn registering_twice_is_registering_once() {
    let mut registry = ObjectStoreRegistry::new();
    let env = RuntimeEnv::default();
    let none = HashMap::new();
    assert_eq!(
        LocalFileFdw::register_object_store(&mut registry, &env, none.clone(), none.clone()),
        Ok(())
    );
    let once = registry.resolve("file:///a");
    assert_eq!(LocalFileFdw::register_object_store(&mut registry, &env, none.clone(), none), Ok(()));
    assert!(env.object_store(ObjectStoreUrl::parse("file://").unwrap()).is_ok());
    assert_eq!(registry.resolve("file:///a"), once);
    assert_eq!(once, Ok(BackendKind::LocalFileSystem));
}

#[test]
fn a_later_backend_takes_the_place_of_an_earlier_one_for_its_key_only() {
    let mut registry = ObjectStoreRegistry::new();
    registry.register_at("s3", "a", BackendKind::RemoteBucket);
    registry.register_at("s3", "b", BackendKind::RemoteBucket);
    registry.register_at("s3", "a", BackendKind::LocalFileSystem);
    assert_eq!(registry.backend_under("s3://a"), Some(BackendKind::LocalFileSystem));
    assert_eq!(registry.backend_under("s3://b"), Some(BackendKind::RemoteBucket));
    assert_eq!(registry.backend_under("s3://c"), None);
    assert_eq!(registry.resolve("s3://a/x"), Ok(BackendKind::LocalFileSystem));
}

#[test]
fn an_empty_registry_resolves_nothing() {
    let registry = ObjectStoreRegistry::new();
    assert_eq!(registry.backend_under("file://"), None);
    assert_eq!(registry.resolve("file:///x"), Err(RegistryError::NotRegistered));
}

#[test]
fn the_engine_is_given_the_store() {
    let mut registry = ObjectStoreRegistry::new();
    let env = RuntimeEnv::default();
    let elsewhere = ObjectStoreUrl::parse("warehouse://shelf").unwrap();
    assert!(env.object_store(&elsewhere).is_err());
    assert_eq!(registry.register_local_file_system(&env, "warehouse://shelf"), Ok(()));
    assert!(env.object_store(&elsewhere).is_ok());
    assert_eq!(registry.backend_under("warehouse://shelf"), Some(BackendKind::LocalFileSystem));
    assert_eq!(registry.resolve("warehouse://shelf/data.parquet"), Ok(BackendKind::LocalFileSystem));
    assert!(env.object_store(ObjectStoreUrl::parse("warehouse://attic").unwrap()).is_err());
}

#[test]
fn the_engine_is_not_touched_by_a_refused_location() {
    let mut registry = ObjectStoreRegistry::new();
    let env = RuntimeEnv::default();
    assert_eq!(
        registry.register_local_file_system(&env, "no scheme here"),
        Err(RegistryError::InvalidLocation)
    );
    assert_eq!(registry.backend_under("file://"), None);
}
