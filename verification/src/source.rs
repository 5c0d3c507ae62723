//! Where a scan of a foreign table reads from, as the table's options say.

use vstd::prelude::*;
use vstd::string::StringExecFns;
use crate::options::{OptionsError, OptionsErrorView, TableOption};
use crate::registry::{
    parsed_location, store_key, BackendKind, ObjectStoreRegistry, RegistryError,
};
use crate::scan::LocalFileFdw;
use crate::text::str_equal;

verus! {

/// The source of one scan.
#[derive(Debug, Clone, PartialEq, Eq)]
pub struct ScanSource {
    /// The table's `path` option.
    pub path: String,
    /// The table's `extension` option.
    pub extension: String,
    /// The path as a location: the path itself where it names a scheme,
    /// else the path as a `file://` location.
    pub location: String,
}

/// What a [`ScanSource`] stands for.
pub ghost struct ScanSourceView {
    pub path: Seq<char>,
    pub extension: Seq<char>,
    pub location: Seq<char>,
}

impl View for ScanSource {
    type V = ScanSourceView;

    open spec fn view(&self) -> ScanSourceView {
        ScanSourceView { path: self.path@, extension: self.extension@, location: self.location@ }
    }
}

/// Why a scan has no source.
#[derive(Debug, Clone, PartialEq, Eq)]
pub enum SourceError {
    /// A required option is not given.
    Options(OptionsError),
    /// The location has no registered backend, or is no location.
    Registry(RegistryError),
    /// The backend of the location is not the local file system.
    NotLocal,
}

/// What a [`SourceError`] stands for.
pub ghost enum SourceErrorView {
    Options(OptionsErrorView),
    Registry(RegistryError),
    NotLocal,
}

impl View for SourceError {
    type V = SourceErrorView;

    open spec fn view(&self) -> SourceErrorView {
        match self {
            SourceError::Options(e) => SourceErrorView::Options(e@),
            SourceError::Registry(e) => SourceErrorView::Registry(*e),
            SourceError::NotLocal => SourceErrorView::NotLocal,
        }
    }
}

/// The views of a list of options, each a name and a value.
pub open spec fn pairs_view(options: Seq<(String, String)>) -> Seq<(Seq<char>, Seq<char>)> {
    options.map_values(|o: (String, String)| (o.0@, o.1@))
}

/// The value of the first option at or after `from` that is called `name`.
pub open spec fn value_from(options: Seq<(Seq<char>, Seq<char>)>, name: Seq<char>, from: int) -> Option<
    Seq<char>,
>
    decreases options.len() - from,
{
    if from < 0 || from >= options.len() {
        None
    } else if options[from].0 == name {
        Some(options[from].1)
    } else {
        value_from(options, name, from + 1)
    }
}

/// `path` reads `://` at `at`.
pub open spec fn separator_at(path: Seq<char>, at: int) -> bool {
    0 <= at && at + 2 < path.len() && path[at] == ':' && path[at + 1] == '/' && path[at + 2] == '/'
}

/// `path` names a scheme: it holds `://` somewhere.
pub open spec fn names_scheme(path: Seq<char>) -> bool {
    exists|at: int| separator_at(path, at)
}

/// The location that `path` stands for.
pub open spec fn location_of(path: Seq<char>) -> Seq<char> {
    if names_scheme(path) {
        path
    } else {
        "file://"@ + path
    }
}

/// The source that `options` describe, or the first required option, of
/// `path` and `extension` in this order, that they do not give.
pub open spec fn source_of(options: Seq<(Seq<char>, Seq<char>)>) -> Result<
    ScanSourceView,
    OptionsErrorView,
> {
    let path = value_from(options, TableOption::Path.name(), 0);
    let extension = value_from(options, TableOption::Extension.name(), 0);
    if path is None {
        Err(OptionsErrorView::OptionNameNotFound(TableOption::Path.name()))
    } else if extension is None {
        Err(OptionsErrorView::OptionNameNotFound(TableOption::Extension.name()))
    } else {
        Ok(
            ScanSourceView {
                path: path->Some_0,
                extension: extension->Some_0,
                location: location_of(path->Some_0),
            },
        )
    }
}

/// The source of a scan over local files: the source that the options
/// describe, provided that the backend registered for its location is the
/// local file system.
pub open spec fn local_source_of(
    backends: Map<Seq<char>, BackendKind>,
    options: Seq<(Seq<char>, Seq<char>)>,
) -> Result<ScanSourceView, SourceErrorView> {
    match source_of(options) {
        Err(e) => Err(SourceErrorView::Options(e)),
        Ok(source) => match parsed_location(source.location) {
            None => Err(SourceErrorView::Registry(RegistryError::InvalidLocation)),
            Some((scheme, authority)) => if !backends.contains_key(store_key(scheme, authority)) {
                Err(SourceErrorView::Registry(RegistryError::NotRegistered))
            } else if backends[store_key(scheme, authority)] != BackendKind::LocalFileSystem {
                Err(SourceErrorView::NotLocal)
            } else {
                Ok(source)
            },
        },
    }
}

pub open spec fn source_result_view(outcome: Result<ScanSource, OptionsError>) -> Result<
    ScanSourceView,
    OptionsErrorView,
> {
    match outcome {
        Ok(source) => Ok(source@),
        Err(e) => Err(e@),
    }
}

pub open spec fn local_source_result_view(outcome: Result<ScanSource, SourceError>) -> Result<
    ScanSourceView,
    SourceErrorView,
> {
    match outcome {
        Ok(source) => Ok(source@),
        Err(e) => Err(e@),
    }
}

/// The value of the first option called `name`, if one is given.
pub fn option_value(options: &Vec<(String, String)>, name: &str) -> (value: Option<String>)
    ensures
        match value {
            Some(text) => value_from(pairs_view(options@), name@, 0) == Some(text@),
            None => value_from(pairs_view(options@), name@, 0) is None,
        },
{
    let ghost pairs = pairs_view(options@);
    let mut i: usize = 0;
    while i < options.len()
        invariant
            i <= options@.len(),
            pairs == pairs_view(options@),
            value_from(pairs, name@, 0) == value_from(pairs, name@, i as int),
        decreases options@.len() - i,
    {
        assert(pairs[i as int] == (options@[i as int].0@, options@[i as int].1@));
        if str_equal(options[i].0.as_str(), name) {
            return Some(options[i].1.clone());
        }
        i += 1;
    }
    None
}

/// Whether `path` holds `://`.
pub fn has_scheme(path: &str) -> (found: bool)
    ensures
        found == names_scheme(path@),
{
    let n: usize = path.unicode_len();
    if n < 3 {
        assert forall|at: int| !separator_at(path@, at) by {}
        return false;
    }
    let mut i: usize = 0;
    while i + 2 < n
        invariant
            n == path@.len(),
            n >= 3,
            i + 2 <= n,
            forall|at: int| 0 <= at < i ==> !separator_at(path@, at),
        decreases n - i,
    {
        if path.get_char(i) == ':' && path.get_char(i + 1) == '/' && path.get_char(i + 2) == '/' {
            assert(separator_at(path@, i as int));
            return true;
        }
        i += 1;
    }
    assert forall|at: int| !separator_at(path@, at) by {}
    false
}

/// The location that `path` stands for.
pub fn path_location(path: &str) -> (location: String)
    ensures
        location@ == location_of(path@),
{
    if has_scheme(path) {
        path.to_owned()
    } else {
        let mut location: String = "file://".to_owned();
        location.append(path);
        location
    }
}

/// The source that the options of a table describe.
pub fn scan_source(options: &Vec<(String, String)>) -> (outcome: Result<ScanSource, OptionsError>)
    ensures
        source_result_view(outcome) == source_of(pairs_view(options@)),
{
    let path = match option_value(options, TableOption::Path.as_str()) {
        Some(path) => path,
        None => {
            return Err(OptionsError::OptionNameNotFound(TableOption::Path.as_str().to_owned()));
        },
    };
    let extension = match option_value(options, TableOption::Extension.as_str()) {
        Some(extension) => extension,
        None => {
            return Err(
                OptionsError::OptionNameNotFound(TableOption::Extension.as_str().to_owned()),
            );
        },
    };
    let location = path_location(path.as_str());
    Ok(ScanSource { path, extension, location })
}

impl LocalFileFdw {
    /// The source of a scan over local files, as the table's options and
    /// the session's registered backends give it.
    pub fn source(registry: &ObjectStoreRegistry, options: &Vec<(String, String)>) -> (outcome:
        Result<ScanSource, SourceError>)
        ensures
            local_source_result_view(outcome) == local_source_of(registry@, pairs_view(options@)),
    {
        let source = match scan_source(options) {
            Ok(source) => source,
            Err(e) => {
                return Err(SourceError::Options(e));
            },
        };
        match registry.resolve(source.location.as_str()) {
            Err(e) => Err(SourceError::Registry(e)),
            Ok(BackendKind::LocalFileSystem) => Ok(source),
            Ok(_) => Err(SourceError::NotLocal),
        }
    }
}

} // verus!
