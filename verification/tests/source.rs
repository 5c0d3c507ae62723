use lakehouse_scan::options::OptionsError;
use lakehouse_scan::registry::{BackendKind, ObjectStoreRegistry, RegistryError};
use lakehouse_scan::scan::LocalFileFdw;
use lakehouse_scan::source::{
    has_scheme, option_value, path_location, scan_source, ScanSource, SourceError,
};

fn pairs(options: &[(&str, &str)]) -> Vec<(String, String)> {
    options.iter().map(|(name, value)| (name.to_string(), value.to_string())).collect()
}

#[test]
fn option_value_takes_the_first_of_a_name() {
    let options = pairs(&[("path", "/a"), ("extension", "csv"), ("path", "/b")]);
    assert_eq!(option_value(&options, "path"), Some("/a".to_string()));
    assert_eq!(option_value(&options, "extension"), Some("csv".to_string()));
    assert_eq!(option_value(&options, "format"), None);
    assert_eq!(option_value(&options, "pat"), None);
    assert_eq!(option_value(&pairs(&[]), "path"), None);
}

#[test]
fn a_scheme_is_named_by_its_separator() {
    assert!(has_scheme("file:///tmp/x"));
    assert!(has_scheme("s3://bucket"));
    assert!(has_scheme("://"));
    assert!(has_scheme("a/b://c"));
    assert!(!has_scheme("/tmp/x"));
    assert!(!has_scheme("c:/tmp"));
    assert!(!has_scheme(":/"));
    assert!(!has_scheme("//"));
    assert!(!has_scheme(""));
    assert!(!has_scheme("////:/"));
}

#[test]
fn a_bare_path_is_a_local_location() {
    assert_eq!(path_location("/tmp/t.parquet"), "file:///tmp/t.parquet");
    assert_eq!(path_location("s3://bucket/t.parquet"), "s3://bucket/t.parquet");
    assert_eq!(path_location(""), "file://");
}

#[test]
fn source_needs_path_and_extension() {
    assert_eq!(
        scan_source(&pairs(&[("extension", "csv"), ("path", "/data/t.csv")])),
        Ok(ScanSource {
            path: "/data/t.csv".to_string(),
            extension: "csv".to_string(),
            location: "file:///data/t.csv".to_string(),
        })
    );
    assert_eq!(
        scan_source(&pairs(&[("extension", "csv")])),
        Err(OptionsError::OptionNameNotFound("path".to_string()))
    );
    assert_eq!(
        scan_source(&pairs(&[("path", "/data")])),
        Err(OptionsError::OptionNameNotFound("extension".to_string()))
    );
    assert_eq!(
        scan_source(&pairs(&[])),
        Err(OptionsError::OptionNameNotFound("path".to_string()))
    );
}

#[test]
fn local_source_needs_the_local_backend() {
    let options = pairs(&[("path", "/data/t.parquet"), ("extension", "parquet")]);
    let empty = ObjectStoreRegistry::new();
    assert_eq!(
        LocalFileFdw::source(&empty, &options),
        Err(SourceError::Registry(RegistryError::NotRegistered))
    );
    let registry = ObjectStoreRegistry::with_local_file_system();
    assert_eq!(
        LocalFileFdw::source(&registry, &options).map(|s| s.location),
        Ok("file:///data/t.parquet".to_string())
    );
    assert_eq!(
        LocalFileFdw::source(&registry, &pairs(&[("path", "/data")])),
        Err(SourceError::Options(OptionsError::OptionNameNotFound("extension".to_string())))
    );
    let mut mixed = ObjectStoreRegistry::with_local_file_system();
    mixed.register("s3://bucket", BackendKind::RemoteBucket).unwrap();
    let remote = pairs(&[("path", "s3://bucket/t.parquet"), ("extension", "parquet")]);
    assert_eq!(LocalFileFdw::source(&mixed, &remote), Err(SourceError::NotLocal));
    let odd = pairs(&[("path", "://"), ("extension", "parquet")]);
    assert_eq!(
        LocalFileFdw::source(&mixed, &odd),
        Err(SourceError::Registry(RegistryError::InvalidLocation))
    );
}

#[test]
fn the_record_of_a_default_engine_serves_local_files() {
    let registry = ObjectStoreRegistry::with_local_file_system();
    assert_eq!(registry.backend_under("file://"), Some(BackendKind::LocalFileSystem));
    assert_eq!(registry.resolve("file:///tmp/x"), Ok(BackendKind::LocalFileSystem));
    assert_eq!(registry.resolve("s3://bucket/x"), Err(RegistryError::NotRegistered));
}
