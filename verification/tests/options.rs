use lakehouse_scan::options::{
    check_options_contain, validate_options, OptionsError, TableOption, ValidatorError,
    FOREIGN_DATA_WRAPPER_RELATION_ID, FOREIGN_SERVER_RELATION_ID, FOREIGN_TABLE_RELATION_ID,
};
use lakehouse_scan::scan::LocalFileFdw;

fn given(options: &[&str]) -> Vec<Option<String>> {
    options.iter().map(|o| Some(o.to_string())).collect()
}

#[test]
fn table_options_have_names_and_requirements() {
    assert_eq!(
        TableOption::iter(),
        vec![TableOption::Path, TableOption::Extension, TableOption::Format]
    );
    assert_eq!(TableOption::Path.as_str(), "path");
    assert_eq!(TableOption::Extension.as_str(), "extension");
    assert_eq!(TableOption::Format.as_str(), "format");
    assert!(TableOption::Path.is_required());
    assert!(TableOption::Extension.is_required());
    assert!(!TableOption::Format.is_required());
}

#[test]
fn catalog_identifiers_are_the_hosts() {
    assert_eq!(FOREIGN_DATA_WRAPPER_RELATION_ID, 2328);
    assert_eq!(FOREIGN_SERVER_RELATION_ID, 1417);
    assert_eq!(FOREIGN_TABLE_RELATION_ID, 3118);
}

#[test]
fn validator_accepts_a_complete_table() {
    let options = given(&["path=/data/t.parquet", "extension=parquet"]);
    assert_eq!(LocalFileFdw::validator(options, Some(FOREIGN_TABLE_RELATION_ID)), Ok(()));
    let options = given(&["format=x", "extension=parquet", "path=file:///data"]);
    assert_eq!(LocalFileFdw::validator(options, Some(FOREIGN_TABLE_RELATION_ID)), Ok(()));
}

#[test]
fn validator_asks_for_the_first_missing_required_option() {
    let options = given(&["extension=parquet"]);
    assert_eq!(
        LocalFileFdw::validator(options, Some(FOREIGN_TABLE_RELATION_ID)),
        Err(ValidatorError::Options(OptionsError::OptionNameNotFound("path".to_string())))
    );
    let options = given(&["path=/data"]);
    assert_eq!(
        LocalFileFdw::validator(options, Some(FOREIGN_TABLE_RELATION_ID)),
        Err(ValidatorError::Options(OptionsError::OptionNameNotFound("extension".to_string())))
    );
    assert_eq!(
        LocalFileFdw::validator(vec![], Some(FOREIGN_TABLE_RELATION_ID)),
        Err(ValidatorError::Options(OptionsError::OptionNameNotFound("path".to_string())))
    );
    assert_eq!(
        LocalFileFdw::validator(vec![None, None], Some(FOREIGN_TABLE_RELATION_ID)),
        Err(ValidatorError::Options(OptionsError::OptionNameNotFound("path".to_string())))
    );
}

#[test]
fn validator_refuses_the_first_unknown_option_before_asking_for_missing_ones() {
    let options = given(&["extension=csv", "colour=red", "shape=round"]);
    assert_eq!(
        LocalFileFdw::validator(options, Some(FOREIGN_TABLE_RELATION_ID)),
        Err(ValidatorError::Options(OptionsError::InvalidOption("colour".to_string())))
    );
    let options = vec![None, Some("path".to_string()), Some("extension=csv".to_string())];
    assert_eq!(
        LocalFileFdw::validator(options, Some(FOREIGN_TABLE_RELATION_ID)),
        Err(ValidatorError::Options(OptionsError::OptionNameNotFound("path".to_string())))
    );
}

#[test]
fn validator_does_not_look_at_wrapper_and_server_options() {
    let odd = given(&["colour=red"]);
    assert_eq!(LocalFileFdw::validator(odd.clone(), Some(FOREIGN_DATA_WRAPPER_RELATION_ID)), Ok(()));
    assert_eq!(LocalFileFdw::validator(odd.clone(), Some(FOREIGN_SERVER_RELATION_ID)), Ok(()));
    assert_eq!(LocalFileFdw::validator(odd, None), Ok(()));
}

#[test]
fn validator_refuses_other_catalogs() {
    let options = given(&["path=/data", "extension=csv"]);
    assert_eq!(
        LocalFileFdw::validator(options, Some(1259)),
        Err(ValidatorError::UnsupportedFdwOid(1259))
    );
    assert_eq!(LocalFileFdw::validator(vec![], Some(0)), Err(ValidatorError::UnsupportedFdwOid(0)));
}

#[test]
fn validate_options_names_the_first_unknown_option() {
    let valid = vec!["a".to_string(), "b".to_string()];
    assert_eq!(validate_options(&given(&["a=1", "b=2", "a=3"]), &valid), Ok(()));
    assert_eq!(validate_options(&vec![None], &valid), Ok(()));
    assert_eq!(validate_options(&vec![], &vec![]), Ok(()));
    assert_eq!(
        validate_options(&given(&["a=1", "c=2", "d=3"]), &valid),
        Err(OptionsError::InvalidOption("c".to_string()))
    );
    assert_eq!(
        validate_options(&given(&["ab=1"]), &valid),
        Err(OptionsError::InvalidOption("ab".to_string()))
    );
    assert_eq!(
        validate_options(&given(&["=1"]), &valid),
        Err(OptionsError::InvalidOption(String::new()))
    );
}

#[test]
fn check_options_contain_looks_for_the_name_and_the_separator() {
    let options = vec![None, Some("pathological=1".to_string()), Some("path=/x".to_string())];
    assert_eq!(check_options_contain(&options, "path"), Ok(()));
    assert_eq!(check_options_contain(&options, "pathological"), Ok(()));
    assert_eq!(
        check_options_contain(&options, "pat"),
        Err(OptionsError::OptionNameNotFound("pat".to_string()))
    );
    assert_eq!(
        check_options_contain(&vec![Some("path".to_string())], "path"),
        Err(OptionsError::OptionNameNotFound("path".to_string()))
    );
}
