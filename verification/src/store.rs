//! Store-root resolution and recipient enumeration: finding the secret
//! store under the user's home directory and listing the regular files of
//! its `.recipients` directory, written against path-provider and
//! directory-lister capabilities so that in-memory fakes can stand in for
//! the real file system in tests.

use vstd::prelude::*;
use vstd::string::StringExecFns;

verus! {

/// Path text after joining `seg` onto `base`: exactly one separator is
/// inserted between them.
pub open spec fn joined_path(base: Seq<char>, seg: Seq<char>) -> Seq<char> {
    base + "/"@ + seg
}

/// Capability set for home-directory lookup and simple path questions.
///
/// A value of an implementing type denotes a path inside a snapshot of some
/// file system; the spec functions model that snapshot. `get_home` and `join`
/// hand back values of the same snapshot, so answers stay consistent over one
/// resolution.
pub trait PathProvider: Sized {
    /// The path this value denotes.
    spec fn text(&self) -> Seq<char>;

    /// Whether a home directory is available in this snapshot.
    spec fn has_home(&self) -> bool;

    /// The home directory's path, when one is available.
    spec fn home_text(&self) -> Seq<char>;

    /// The set of paths that are directories in this snapshot.
    spec fn dirs(&self) -> Set<Seq<char>>;

    /// Resolve the current user's home directory; absence is not an error.
    fn get_home(&self) -> (r: Option<Self>)
        ensures
            r is Some <==> self.has_home(),
            r matches Some(h) ==> h.text() == self.home_text() && h.dirs() == self.dirs(),
    ;

    /// Append one path segment.
    fn join(&self, seg: &str) -> (r: Self)
        ensures
            r.text() == joined_path(self.text(), seg@),
            r.dirs() == self.dirs(),
    ;

    /// Whether the denoted path is a directory at the time of the check.
    fn is_dir(&self) -> (r: bool)
        ensures
            r == self.dirs().contains(self.text()),
    ;

    /// The denoted path as owned text.
    fn as_path(&self) -> (r: String)
        ensures
            r@ == self.text(),
    ;
}

/// Join one path segment onto a base path, inserting exactly one separator.
pub fn join_segment(base: &str, seg: &str) -> (r: String)
    ensures
        r@ == joined_path(base@, seg@),
{
    let mut c = base.to_owned();
    c.append("/");
    c.append(seg);
    c
}

/// In-memory test double for `PathProvider`: a path string, one flag that
/// answers every directory query, and one flag for whether a home directory
/// is available, so no real storage is touched.
pub struct MockedPathBuf {
    current: String,
    dir: bool,
    home: bool,
}

impl MockedPathBuf {
    /// A double whose home directory is `p` itself.
    pub fn new(p: &str, d: bool) -> (r: MockedPathBuf)
        ensures
            r.text() == p@,
            r.has_home(),
            r.home_text() == p@,
            r.dirs() == (if d {
                Set::<Seq<char>>::full()
            } else {
                Set::<Seq<char>>::empty()
            }),
    {
        MockedPathBuf { current: p.to_owned(), dir: d, home: true }
    }

    /// A double with no home directory at all.
    pub fn without_home() -> (r: MockedPathBuf)
        ensures
            !r.has_home(),
    {
        MockedPathBuf { current: String::new(), dir: false, home: false }
    }
}

impl PathProvider for MockedPathBuf {
    closed spec fn text(&self) -> Seq<char> {
        self.current@
    }

    closed spec fn has_home(&self) -> bool {
        self.home
    }

    closed spec fn home_text(&self) -> Seq<char> {
        self.current@
    }

    closed spec fn dirs(&self) -> Set<Seq<char>> {
        if self.dir {
            Set::full()
        } else {
            Set::empty()
        }
    }

    fn get_home(&self) -> (r: Option<Self>) {
        if self.home {
            Some(
                MockedPathBuf {
                    current: self.current.clone(),
                    dir: self.dir,
                    home: self.home,
                },
            )
        } else {
            None
        }
    }

    fn join(&self, seg: &str) -> (r: Self) {
        MockedPathBuf {
            current: join_segment(self.current.as_str(), seg),
            dir: self.dir,
            home: self.home,
        }
    }

    fn is_dir(&self) -> (r: bool) {
        self.dir
    }

    fn as_path(&self) -> (r: String) {
        self.current.clone()
    }
}

/// The store root in the provider's snapshot: `<home>/.password-store` when a
/// home directory is available and that joined path is a directory; absent
/// otherwise.
pub open spec fn store_root_of<T: PathProvider>(hd: T) -> Option<Seq<char>> {
    if hd.has_home() && hd.dirs().contains(joined_path(hd.home_text(), ".password-store"@)) {
        Some(joined_path(hd.home_text(), ".password-store"@))
    } else {
        None
    }
}

/// An optional owned path, seen as optional text.
pub open spec fn opt_path_text(r: Option<String>) -> Option<Seq<char>> {
    match r {
        Some(p) => Some(p@),
        None => None,
    }
}

/// Resolve the secret-store root against any path provider: the home
/// directory joined with `.password-store`, provided that path is a
/// directory; a missing home directory or a missing store directory both
/// yield `None`, not an error.
pub fn _get_root<T: PathProvider>(hd: &T) -> (r: Option<String>)
    ensures
        opt_path_text(r) == store_root_of(*hd),
        !hd.has_home() ==> r is None,
        r is Some <==> hd.has_home() && hd.dirs().contains(
            joined_path(hd.home_text(), ".password-store"@),
        ),
{
    match hd.get_home() {
        Some(h) => {
            let d = h.join(".password-store");
            if d.is_dir() {
                Some(d.as_path())
            } else {
                None
            }
        },
        None => None,
    }
}

/// Resolve the secret-store root (see `_get_root`).
pub fn get_root<T: PathProvider>(hd: &T) -> (r: Option<String>)
    ensures
        opt_path_text(r) == store_root_of(*hd),
        !hd.has_home() ==> r is None,
        r is Some <==> hd.has_home() && hd.dirs().contains(
            joined_path(hd.home_text(), ".password-store"@),
        ),
{
    _get_root(hd)
}

/// One entry of a directory listing, reduced to what enumeration reads: the
/// entry's path and whether it is a regular file (`false` also when the
/// file-type check itself failed).
pub struct DirEntry {
    pub path: String,
    pub is_file: bool,
}

/// An entry's model: its path text paired with its regular-file flag.
pub open spec fn entry_model(e: DirEntry) -> (Seq<char>, bool) {
    (e.path@, e.is_file)
}

/// The models of a whole listing, in listing order.
pub open spec fn entry_models(es: Seq<DirEntry>) -> Seq<(Seq<char>, bool)> {
    es.map_values(|e: DirEntry| entry_model(e))
}

/// The texts of a sequence of owned paths.
pub open spec fn path_texts(v: Seq<String>) -> Seq<Seq<char>> {
    v.map_values(|s: String| s@)
}

/// Capability for listing a directory's entries.
///
/// A value of an implementing type stands for a snapshot of some file
/// system; `listing` models what listing each path yields in that snapshot.
pub trait DirLister: Sized {
    /// The listing of `p`: absent when the listing operation fails for any
    /// reason (missing directory, permission denied, not a directory);
    /// otherwise each entry's path and regular-file flag, in the order the
    /// underlying operation yields them.
    spec fn listing(&self, p: Seq<char>) -> Option<Seq<(Seq<char>, bool)>>;

    /// List the entries of the directory at `p`.
    fn list_dir(&self, p: &str) -> (r: Option<Vec<DirEntry>>)
        ensures
            r is Some <==> self.listing(p@) is Some,
            r matches Some(v) ==> Some(entry_models(v@)) == self.listing(p@),
    ;
}

/// In-memory test double for `DirLister`: a fixed listing (or a fixed
/// failure) returned for every path, so no real storage is touched.
pub struct MockedDirLister {
    entries: Vec<DirEntry>,
    ok: bool,
}

impl MockedDirLister {
    pub fn new(entries: Vec<DirEntry>, ok: bool) -> (r: MockedDirLister)
        ensures
            forall|p: Seq<char>| r.listing(p) == (if ok {
                Some(entry_models(entries@))
            } else {
                None::<Seq<(Seq<char>, bool)>>
            }),
    {
        MockedDirLister { entries, ok }
    }
}

impl DirLister for MockedDirLister {
    closed spec fn listing(&self, p: Seq<char>) -> Option<Seq<(Seq<char>, bool)>> {
        if self.ok {
            Some(entry_models(self.entries@))
        } else {
            None
        }
    }

    fn list_dir(&self, p: &str) -> (r: Option<Vec<DirEntry>>) {
        if self.ok {
            let n = self.entries.len();
            let mut copy: Vec<DirEntry> = Vec::new();
            let mut i: usize = 0;
            while i < n
                invariant
                    i <= n,
                    n == self.entries@.len(),
                    entry_models(copy@) == entry_models(self.entries@.take(i as int)),
                decreases n - i,
            {
                let e = DirEntry {
                    path: self.entries[i].path.clone(),
                    is_file: self.entries[i].is_file,
                };
                copy.push(e);
                proof {
                    assert(entry_models(copy@) =~= entry_models(
                        self.entries@.take(i as int),
                    ).push(entry_model(self.entries@[i as int])));
                    assert(entry_models(self.entries@.take(i + 1)) =~= entry_models(
                        self.entries@.take(i as int),
                    ).push(entry_model(self.entries@[i as int])));
                }
                i += 1;
            }
            proof {
                assert(self.entries@.take(n as int) =~= self.entries@);
            }
            Some(copy)
        } else {
            None
        }
    }
}

/// The recipient files of a listing: the paths of its regular-file entries,
/// in listing order.
pub open spec fn recipient_files(entries: Seq<(Seq<char>, bool)>) -> Seq<Seq<char>>
    decreases entries.len(),
{
    if entries.len() == 0 {
        Seq::empty()
    } else {
        let rest = recipient_files(entries.drop_last());
        if entries.last().1 {
            rest.push(entries.last().0)
        } else {
            rest
        }
    }
}

/// Which paths are enumerated does not depend on listing order: a path is
/// among the recipient files of a listing exactly when the listing holds a
/// regular-file entry with that path, wherever that entry stands.
pub proof fn lemma_recipient_files_members(entries: Seq<(Seq<char>, bool)>, p: Seq<char>)
    ensures
        recipient_files(entries).contains(p) <==> entries.contains((p, true)),
    decreases entries.len(),
{
    broadcast use vstd::seq_lib::lemma_seq_contains_after_push;

    if entries.len() == 0 {
    } else {
        let rest = entries.drop_last();
        let last = entries.last();
        lemma_recipient_files_members(rest, p);
        assert(entries =~= rest.push(last));
    }
}

/// The outcome of recipient enumeration over a path provider and a lister:
/// absent when the store root is absent, when listing the `.recipients`
/// directory fails, or when the listing holds no regular file; otherwise the
/// paths of the regular-file entries, in listing order. An empty recipient
/// set is deliberately conflated with a missing directory.
pub open spec fn recipients_of<T: PathProvider, L: DirLister>(hd: T, ld: L) -> Option<
    Seq<Seq<char>>,
> {
    match store_root_of(hd) {
        None => None,
        Some(root) => match ld.listing(joined_path(root, ".recipients"@)) {
            None => None,
            Some(es) => {
                let files = recipient_files(es);
                if files.len() == 0 {
                    None
                } else {
                    Some(files)
                }
            },
        },
    }
}

/// An existing `.recipients` directory that holds no regular file
/// enumerates no recipients: the outcome is the same as for a missing or
/// unreadable directory.
pub proof fn lemma_empty_listing_no_recipients<T: PathProvider, L: DirLister>(hd: T, ld: L)
    requires
        store_root_of(hd) is Some,
        ld.listing(joined_path(store_root_of(hd)->Some_0, ".recipients"@)) is Some,
        recipient_files(
            ld.listing(joined_path(store_root_of(hd)->Some_0, ".recipients"@))->Some_0,
        ).len() == 0,
    ensures
        recipients_of(hd, ld) is None,
{
}

/// Keep the regular files of a listing: their paths in listing order, or
/// `None` when the listing holds no regular file — the same outcome as for
/// a directory that could not be listed at all.
pub fn filter_recipients(entries: &Vec<DirEntry>) -> (r: Option<Vec<String>>)
    ensures
        (match r {
            Some(v) => path_texts(v@) == recipient_files(entry_models(entries@)) && v@.len() > 0,
            None => recipient_files(entry_models(entries@)).len() == 0,
        }),
{
    let n = entries.len();
    let mut files: Vec<String> = Vec::new();
    let mut i: usize = 0;
    while i < n
        invariant
            i <= n,
            n == entries@.len(),
            path_texts(files@) == recipient_files(entry_models(entries@).take(i as int)),
        decreases n - i,
    {
        proof {
            assert(entry_models(entries@).take(i + 1).drop_last() =~= entry_models(
                entries@,
            ).take(i as int));
        }
        if entries[i].is_file {
            files.push(entries[i].path.clone());
            proof {
                assert(path_texts(files@) =~= recipient_files(
                    entry_models(entries@).take(i as int),
                ).push(entries@[i as int].path@));
            }
        }
        i += 1;
    }
    proof {
        assert(entry_models(entries@).take(n as int) =~= entry_models(entries@));
    }
    if files.len() == 0 {
        None
    } else {
        Some(files)
    }
}

/// Enumerate the recipient files under `<store root>/.recipients`: the
/// regular files of that directory, or `None` when the root is absent, the
/// directory cannot be listed, or no regular file is in it.
pub fn get_recipients<T: PathProvider, L: DirLister>(hd: &T, ld: &L) -> (r: Option<Vec<String>>)
    ensures
        (match r {
            Some(v) => recipients_of(*hd, *ld) == Some(path_texts(v@)),
            None => recipients_of(*hd, *ld) is None,
        }),
        store_root_of(*hd) is None ==> r is None,
{
    match get_root(hd) {
        None => None,
        Some(root) => {
            let p = join_segment(root.as_str(), ".recipients");
            match ld.list_dir(p.as_str()) {
                None => None,
                Some(entries) => filter_recipients(&entries),
            }
        },
    }
}

} // verus!
