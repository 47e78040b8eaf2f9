//! Key-backend abstraction: a capability set for listing a keyring's keys
//! and importing one from a file, a capability for reading a key's textual
//! identifier, an in-memory mock of both, and the verified decision taken on
//! an import report.

use vstd::prelude::*;
use vstd::string::StringExecFns;

verus! {

/// Detail of an identifier-encoding failure: the number of leading bytes of
/// the identifier that decoded cleanly. A key's identifier reading wraps
/// this in an `Option`, absent when the underlying failure carries no
/// further detail.
#[derive(Debug)]
pub struct EncodingError {
    pub valid_up_to: usize,
}

/// Failures of key-backend operations: one kind per operation, the import
/// kind carrying the path whose import failed.
#[derive(Debug, PartialEq, Eq)]
pub enum KeyBackendError {
    /// Listing the keyring's keys failed; the cause is not preserved.
    ListFailed,
    /// Importing key material from `path` failed: a load failure, an import
    /// failure, an import report with no imported key, or a failed
    /// re-fetch, all collapsed into one kind.
    ImportFailed { path: String },
}

impl KeyBackendError {
    /// The fixed human-readable message for this failure; the import
    /// message embeds the offending file path.
    pub fn message(&self) -> (r: String)
        ensures
            (match *self {
                KeyBackendError::ListFailed => r@ == "Could not get any keys from the keyring"@,
                KeyBackendError::ImportFailed { path } => r@ == "Could not import key in "@
                    + path@,
            }),
    {
        match self {
            KeyBackendError::ListFailed => "Could not get any keys from the keyring".to_owned(),
            KeyBackendError::ImportFailed { path } => {
                let mut m = "Could not import key in ".to_owned();
                m.append(path.as_str());
                m
            },
        }
    }
}

/// Capability of a key object, whichever backend produced it: exposing a
/// textual identifier.
pub trait KeyProvider: Sized {
    /// The outcome of reading this key's identifier: its text, or the
    /// encoding failure (with or without detail).
    spec fn id_text(&self) -> Result<Seq<char>, Option<EncodingError>>;

    /// Read this key's identifier.
    fn id(&self) -> (r: Result<&str, Option<EncodingError>>)
        ensures
            (match r {
                Ok(s) => self.id_text() == Ok::<Seq<char>, Option<EncodingError>>(s@),
                Err(e) => self.id_text() == Err::<Seq<char>, Option<EncodingError>>(e),
            }),
    ;
}

/// Capability set of a key backend: listing the keys it holds and importing
/// one from a file. The spec function `held` models the backend-owned key
/// state; a backend is constructed fresh by its caller and is not shared.
pub trait KeyListProvider: Sized {
    /// The key type this backend hands out.
    type K: KeyProvider;

    /// The keys the backend holds, oldest first.
    spec fn held(&self) -> Seq<Self::K>;

    /// Construct a backend.
    fn new() -> Self;

    /// List the held keys. Listing never changes what is held; on success
    /// the returned vector holds exactly the held keys and is an
    /// independent copy, owned by the caller.
    fn keys(&mut self) -> (r: Result<Vec<Self::K>, KeyBackendError>)
        ensures
            final(self).held() == old(self).held(),
            (match r {
                Ok(v) => v@ == old(self).held(),
                Err(e) => e is ListFailed,
            }),
    ;

    /// Import a key from the file at `path`. On success the new key is
    /// appended to the held keys and returned; on failure the error is the
    /// import kind and names the offending path.
    fn import(&mut self, path: &str) -> (r: Result<Self::K, KeyBackendError>)
        ensures
            (match r {
                Ok(k) => final(self).held() == old(self).held().push(k),
                Err(e) => e matches KeyBackendError::ImportFailed { path: p } && p@ == path@,
            }),
    ;
}

/// The mock backend's key: a plain value object whose identifier is the
/// fixed text `hej`. Clones are independent of the backend that produced
/// them.
pub struct MockKey;

impl Clone for MockKey {
    fn clone(&self) -> (r: Self)
        ensures
            r == *self,
    {
        MockKey
    }
}

impl KeyProvider for MockKey {
    open spec fn id_text(&self) -> Result<Seq<char>, Option<EncodingError>> {
        Ok("hej"@)
    }

    fn id(&self) -> (r: Result<&str, Option<EncodingError>>) {
        Ok("hej")
    }
}

/// In-memory key backend: holds a sequence of `MockKey`s, initially empty;
/// listing always succeeds and importing always succeeds without reading
/// the given path.
pub struct MockKeyList {
    keys: Vec<MockKey>,
}

impl KeyListProvider for MockKeyList {
    type K = MockKey;

    closed spec fn held(&self) -> Seq<MockKey> {
        self.keys@
    }

    fn new() -> (r: Self)
        ensures
            r.held() == Seq::<MockKey>::empty(),
    {
        MockKeyList { keys: Vec::new() }
    }

    fn keys(&mut self) -> (r: Result<Vec<MockKey>, KeyBackendError>)
        ensures
            r is Ok,
    {
        let copy = self.keys.clone();
        proof {
            assert forall|i: int| 0 <= i < self.keys@.len() implies copy@[i]
                == self.keys@[i] by {}
            assert(copy@ =~= self.keys@);
        }
        Ok(copy)
    }

    fn import(&mut self, path: &str) -> (r: Result<MockKey, KeyBackendError>)
        ensures
            r is Ok,
            final(self).held() == old(self).held().push(MockKey),
    {
        let key = MockKey;
        self.keys.push(key);
        Ok(MockKey)
    }
}

/// Decide the follow-up of an import operation from its report, given as
/// the fingerprints of the reported imports in report order (absent where a
/// fingerprint could not be decoded): the fingerprint of the first entry,
/// by which the imported key is re-fetched; or the import failure naming
/// `path` when the report holds no imported key or its first fingerprint is
/// unreadable.
pub fn import_fingerprint(report: &Vec<Option<String>>, path: &str) -> (r: Result<
    String,
    KeyBackendError,
>)
    ensures
        report@.len() == 0 ==> (r matches Err(e) && e matches KeyBackendError::ImportFailed {
            path: p,
        } && p@ == path@),
        report@.len() > 0 ==> (match report@[0] {
            Some(f) => r matches Ok(g) && g@ == f@,
            None => r matches Err(e) && e matches KeyBackendError::ImportFailed { path: p } && p@
                == path@,
        }),
{
    if report.len() == 0 {
        Err(KeyBackendError::ImportFailed { path: path.to_owned() })
    } else {
        match &report[0] {
            Some(f) => Ok(f.clone()),
            None => Err(KeyBackendError::ImportFailed { path: path.to_owned() }),
        }
    }
}

/// After one import into a fresh (empty) mock backend, exactly one key is
/// held, and its identifier reads as the fixed text `hej`, whatever path
/// argument the import was given.
pub proof fn lemma_mock_single_import(pre: Seq<MockKey>, path: Seq<char>)
    requires
        pre.len() == 0,
    ensures
        pre.push(MockKey).len() == 1,
        pre.push(MockKey)[0].id_text() == Ok::<Seq<char>, Option<EncodingError>>("hej"@),
{
}

} // verus!
