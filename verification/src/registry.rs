//! The storage backends of a session, by the scheme and authority of the
//! locations they serve.

use vstd::prelude::*;
use vstd::string::StringExecFns;
use crate::text::str_equal;

verus! {

/// The error of `url::Url::parse`.
#[verifier::external_type_specification]
#[verifier::external_body]
pub struct ExParseError(url::ParseError);

/// What `url::Url::parse` makes of a text: nothing where it rejects the
/// text, else the scheme of the URL and the part of it from the start of
/// the host to the end of the port.
pub uninterp spec fn parsed_location(text: Seq<char>) -> Option<(Seq<char>, Seq<char>)>;

/// An absolute URL, as `url::Url::parse` makes it.
#[verifier::external_type_specification]
#[verifier::external_body]
pub struct ExUrl(url::Url);

/// The runtime environment of the query engine's session, which holds the
/// object stores that the engine reads through.
#[verifier::external_type_specification]
#[verifier::external_body]
pub struct ExRuntimeEnv(datafusion::execution::runtime_env::RuntimeEnv);

/// Parses `text` with `url::Url::parse`. Of an accepted text it hands back
/// the URL and two pieces of it as owned strings: what `Url::scheme`
/// returns, and the slice of the URL between `Position::BeforeHost` and
/// `Position::AfterPort`. The contract claims only that the pieces are
/// what [`parsed_location`] names for the same text, and that the parser's
/// error comes back exactly when the parser rejects the text.
#[verifier::external_body]
fn parse_location(text: &str) -> (parsed: Result<(url::Url, String, String), url::ParseError>)
    ensures
        match parsed {
            Ok(parts) => parsed_location(text@) == Some((parts.1@, parts.2@)),
            Err(_) => parsed_location(text@) is None,
        },
{
    match url::Url::parse(text) {
        Ok(location) => {
            let scheme = location.scheme().to_string();
            let authority = location[url::Position::BeforeHost..url::Position::AfterPort].to_string();
            Ok((location, scheme, authority))
        },
        Err(e) => Err(e),
    }
}

/// Hands a new `object_store::local::LocalFileSystem` to
/// `RuntimeEnv::register_object_store` for `location`, and drops the store
/// that the environment held for it before, if any. Nothing is claimed of
/// the environment afterwards: what the engine does with the store is not
/// modelled.
#[verifier::external_body]
fn install_local_file_system(
    env: &datafusion::execution::runtime_env::RuntimeEnv,
    location: &url::Url,
) {
    let store = std::sync::Arc::new(object_store::local::LocalFileSystem::new());
    let _ = env.register_object_store(location, store);
}

/// The kinds of storage backend a session can hold.
#[derive(Debug, Clone, Copy, PartialEq, Eq, Structural)]
pub enum BackendKind {
    /// Files of the local file system.
    LocalFileSystem,
    /// Objects of a remote bucket.
    RemoteBucket,
}

/// Why a backend could not be registered or found.
#[derive(Debug, Clone, Copy, PartialEq, Eq, Structural)]
pub enum RegistryError {
    /// The location is not an absolute URL.
    InvalidLocation,
    /// No backend is registered for the location's scheme and authority.
    NotRegistered,
}

/// The key under which the backend for a scheme and an authority is kept:
/// the scheme, `://`, the authority.
pub open spec fn store_key(scheme: Seq<char>, authority: Seq<char>) -> Seq<char> {
    scheme + "://"@ + authority
}

/// The backend of the first entry at or after `from` whose key is `key`.
pub open spec fn backend_from(
    entries: Seq<(String, BackendKind)>,
    key: Seq<char>,
    from: int,
) -> Option<BackendKind>
    decreases entries.len() - from,
{
    if from < 0 || from >= entries.len() {
        None
    } else if entries[from].0@ == key {
        Some(entries[from].1)
    } else {
        backend_from(entries, key, from + 1)
    }
}

/// The registered backends of one session.
///
/// This is the session's own record, kept beside the engine's registry,
/// which cannot be read from here. The two agree as long as both start
/// out alike and every store reaches the engine through this record. An
/// engine with its default registry serves `file://` from the start: the
/// record of such an engine is made by
/// [`ObjectStoreRegistry::with_local_file_system`], not by
/// [`ObjectStoreRegistry::new`].
#[derive(Debug)]
pub struct ObjectStoreRegistry {
    entries: Vec<(String, BackendKind)>,
}

impl View for ObjectStoreRegistry {
    type V = Map<Seq<char>, BackendKind>;

    closed spec fn view(&self) -> Map<Seq<char>, BackendKind> {
        Map::new(
            |key: Seq<char>| backend_from(self.entries@, key, 0) is Some,
            |key: Seq<char>| backend_from(self.entries@, key, 0)->Some_0,
        )
    }
}

proof fn lemma_backend_after_update(
    before: Seq<(String, BackendKind)>,
    after: Seq<(String, BackendKind)>,
    at: int,
    key: Seq<char>,
    from: int,
)
    requires
        0 <= at < before.len(),
        0 <= from <= before.len(),
        after.len() == before.len(),
        after[at].0@ == before[at].0@,
        forall|j: int| 0 <= j < before.len() && j != at ==> after[j] == before[j],
    ensures
        backend_from(after, key, from) == if backend_from(before, key, from) is Some && from <= at
            && before[at].0@ == key && backend_from(before, key, from) == backend_from(
            before,
            key,
            at,
        ) && (forall|j: int| from <= j < at ==> before[j].0@ != key) {
            Some(after[at].1)
        } else {
            backend_from(before, key, from)
        },
    decreases before.len() - from,
{
    if from < before.len() {
        if before[from].0@ == key {
        } else {
            lemma_backend_after_update(before, after, at, key, from + 1);
        }
    }
}

proof fn lemma_backend_after_push(
    before: Seq<(String, BackendKind)>,
    added: (String, BackendKind),
    key: Seq<char>,
    from: int,
)
    requires
        0 <= from <= before.len(),
    ensures
        backend_from(before.push(added), key, from) == if backend_from(before, key, from) is Some {
            backend_from(before, key, from)
        } else if added.0@ == key {
            Some(added.1)
        } else {
            None
        },
    decreases before.len() - from,
{
    let after = before.push(added);
    if from < before.len() {
        if before[from].0@ != key {
            lemma_backend_after_push(before, added, key, from + 1);
        }
    } else {
        assert(backend_from(after, key, from + 1) is None);
    }
}

impl ObjectStoreRegistry {
    /// A registry without backends: the record of an engine that was
    /// given an empty registry. Until a backend is registered, `resolve`
    /// finds none, also for `file://`.
    pub fn new() -> (registry: ObjectStoreRegistry)
        ensures
            registry@ == Map::<Seq<char>, BackendKind>::empty(),
    {
        let registry = ObjectStoreRegistry { entries: Vec::new() };
        registry
    }

    /// A registry that holds the local file system for the scheme `file`
    /// without authority, and nothing else: the record of an engine with
    /// its default registry.
    pub fn with_local_file_system() -> (registry: ObjectStoreRegistry)
        ensures
            registry@ == Map::<Seq<char>, BackendKind>::empty().insert(
                store_key("file"@, ""@),
                BackendKind::LocalFileSystem,
            ),
    {
        let mut registry = ObjectStoreRegistry::new();
        registry.register_at("file", "", BackendKind::LocalFileSystem);
        registry
    }

    /// Position of the first entry under `key`, if there is one.
    fn position(&self, key: &str) -> (found: Option<usize>)
        ensures
            match found {
                Some(p) => p < self.entries@.len() && self.entries@[p as int].0@ == key@
                    && backend_from(self.entries@, key@, 0) == Some(self.entries@[p as int].1)
                    && forall|j: int| 0 <= j < p ==> self.entries@[j].0@ != key@,
                None => backend_from(self.entries@, key@, 0) is None,
            },
    {
        let mut p: usize = 0;
        while p < self.entries.len()
            invariant
                p <= self.entries@.len(),
                backend_from(self.entries@, key@, 0) == backend_from(self.entries@, key@, p as int),
                forall|j: int| 0 <= j < p ==> self.entries@[j].0@ != key@,
            decreases self.entries@.len() - p,
        {
            if str_equal(self.entries[p].0.as_str(), key) {
                return Some(p);
            }
            p += 1;
        }
        None
    }

    /// The backend kept under `key`, if there is one.
    pub fn backend_under(&self, key: &str) -> (found: Option<BackendKind>)
        ensures
            found == if self@.contains_key(key@) {
                Some(self@[key@])
            } else {
                None
            },
    {
        match self.position(key) {
            Some(p) => Some(self.entries[p].1),
            None => None,
        }
    }

    /// Keeps `backend` for the locations of `scheme` and `authority`, in
    /// place of a backend kept for them before. No other key is touched.
    pub fn register_at(&mut self, scheme: &str, authority: &str, backend: BackendKind)
        ensures
            final(self)@ == old(self)@.insert(store_key(scheme@, authority@), backend),
    {
        let mut key: String = scheme.to_owned();
        key.append("://");
        key.append(authority);
        let ghost before = self.entries@;
        match self.position(key.as_str()) {
            Some(p) => {
                let ghost kept = self.entries@[p as int].0@;
                self.entries.set(p, (key, backend));
                proof {
                    let after = self.entries@;
                    assert forall|k: Seq<char>| #[trigger]
                        backend_from(after, k, 0) == if k == kept {
                            Some(backend)
                        } else {
                            backend_from(before, k, 0)
                        } by {
                        lemma_backend_after_update(before, after, p as int, k, 0);
                    }
                }
            },
            None => {
                let ghost added = (key, backend);
                self.entries.push((key, backend));
                proof {
                    let after = self.entries@;
                    assert forall|k: Seq<char>| #[trigger]
                        backend_from(after, k, 0) == if backend_from(before, k, 0) is Some {
                            backend_from(before, k, 0)
                        } else if added.0@ == k {
                            Some(backend)
                        } else {
                            None
                        } by {
                        lemma_backend_after_push(before, added, k, 0);
                    }
                }
            },
        }
    }

    /// Registers `backend` for the scheme and authority of `location`.
    /// A text that is no absolute URL is refused and nothing changes.
    pub fn register(&mut self, location: &str, backend: BackendKind) -> (outcome: Result<
        (),
        RegistryError,
    >)
        ensures
            match parsed_location(location@) {
                Some((scheme, authority)) => outcome is Ok && final(self)@ == old(self)@.insert(
                    store_key(scheme, authority),
                    backend,
                ),
                None => outcome == Err::<(), RegistryError>(RegistryError::InvalidLocation)
                    && final(self)@ == old(self)@,
            },
    {
        match parse_location(location) {
            Ok(parts) => {
                self.register_at(parts.1.as_str(), parts.2.as_str(), backend);
                Ok(())
            },
            Err(_) => Err(RegistryError::InvalidLocation),
        }
    }

    /// Gives the engine a store over the local file system for the scheme
    /// and authority of `location`, and registers the backend here. A text
    /// that is no absolute URL is refused; then neither the engine nor
    /// this registry is touched.
    pub fn register_local_file_system(
        &mut self,
        env: &datafusion::execution::runtime_env::RuntimeEnv,
        location: &str,
    ) -> (outcome: Result<(), RegistryError>)
        ensures
            match parsed_location(location@) {
                Some((scheme, authority)) => outcome is Ok && final(self)@ == old(self)@.insert(
                    store_key(scheme, authority),
                    BackendKind::LocalFileSystem,
                ),
                None => outcome == Err::<(), RegistryError>(RegistryError::InvalidLocation)
                    && final(self)@ == old(self)@,
            },
    {
        match parse_location(location) {
            Ok(parts) => {
                install_local_file_system(env, &parts.0);
                self.register_at(parts.1.as_str(), parts.2.as_str(), BackendKind::LocalFileSystem);
                Ok(())
            },
            Err(_) => Err(RegistryError::InvalidLocation),
        }
    }

    /// The backend that serves `location`, by its scheme and authority.
    pub fn resolve(&self, location: &str) -> (outcome: Result<BackendKind, RegistryError>)
        ensures
            outcome == match parsed_location(location@) {
                None => Err::<BackendKind, RegistryError>(RegistryError::InvalidLocation),
                Some((scheme, authority)) => if self@.contains_key(store_key(scheme, authority)) {
                    Ok(self@[store_key(scheme, authority)])
                } else {
                    Err(RegistryError::NotRegistered)
                },
            },
    {
        match parse_location(location) {
            Err(_) => Err(RegistryError::InvalidLocation),
            Ok(parts) => {
                let mut key: String = parts.1;
                key.append("://");
                key.append(parts.2.as_str());
                match self.backend_under(key.as_str()) {
                    Some(backend) => Ok(backend),
                    None => Err(RegistryError::NotRegistered),
                }
            },
        }
    }
}


/// Registering the same backend twice for one key is registering it once.
pub proof fn lemma_register_idempotent(
    backends: Map<Seq<char>, BackendKind>,
    key: Seq<char>,
    backend: BackendKind,
)
    ensures
        backends.insert(key, backend).insert(key, backend) == backends.insert(key, backend),
{
}

/// Registering a backend for one key leaves every other key as it was.
pub proof fn lemma_register_leaves_others(
    backends: Map<Seq<char>, BackendKind>,
    key: Seq<char>,
    backend: BackendKind,
    other: Seq<char>,
)
    requires
        other != key,
    ensures
        backends.insert(key, backend).contains_key(other) == backends.contains_key(other),
        backends.contains_key(other) ==> backends.insert(key, backend)[other] == backends[other],
{
}

} // verus!
