//! The file sync engine: create/update/delete commands replayed against the
//! workspace, and the error taxonomy their failures are reported with.
//!
//! The engine works on a [`Workspace`] value, the library's record of what
//! the remote client believes the workspace holds.  The caller that owns the
//! real directory tree mirrors each successful command onto disk; commands
//! that fail leave the workspace untouched, so no partial mutation is ever
//! reported as success.

use vstd::prelude::*;
use vstd::string::*;
use crate::text::str_eq;

verus! {

/// Why a sync command was issued: a created, rewritten, or removed file.
#[derive(Clone, Copy, Debug, PartialEq, Eq, Structural)]
pub enum FileSyncType {
    New,
    Update,
    Delete,
}

/// One create/update/delete instruction against the workspace.
#[derive(Clone)]
pub struct FileSyncCommand {
    pub reason: FileSyncType,
    pub name: String,
    pub text: Option<String>,
}

/// Ghost image of a command: the same fields over character sequences.
pub struct CommandView {
    pub reason: FileSyncType,
    pub name: Seq<char>,
    pub text: Option<Seq<char>>,
}

impl View for FileSyncCommand {
    type V = CommandView;

    open spec fn view(&self) -> CommandView {
        CommandView {
            reason: self.reason,
            name: self.name@,
            text: match self.text {
                Some(t) => Some(t@),
                None => None,
            },
        }
    }
}

impl DeepView for FileSyncCommand {
    type V = CommandView;

    open spec fn deep_view(&self) -> CommandView {
        self.view()
    }
}

/// How a sync command can fail.
#[derive(Debug)]
pub enum FileSyncError {
    InternalError { cause: String },
    BadClientData { cause: String },
    Timeout,
    NotFound,
}

impl FileSyncError {
    /// The status-style code a failure is reported with: not-found as 404,
    /// bad requests as 400, timeouts as 504, everything else as 500.
    pub fn status_code(&self) -> (code: u16)
        ensures
            code == match self {
                FileSyncError::InternalError { .. } => 500u16,
                FileSyncError::BadClientData { .. } => 400u16,
                FileSyncError::Timeout => 504u16,
                FileSyncError::NotFound => 404u16,
            },
    {
        match self {
            FileSyncError::InternalError { .. } => 500,
            FileSyncError::BadClientData { .. } => 400,
            FileSyncError::Timeout => 504,
            FileSyncError::NotFound => 404,
        }
    }

    /// The textual explanation a failure is reported with.
    pub fn message(&self) -> (msg: String)
        ensures
            msg@ == match self {
                FileSyncError::InternalError { cause } => "Sync unsuccessful: internal error "@
                    + cause@,
                FileSyncError::BadClientData { cause } => "Sync unsuccessful: "@ + cause@,
                FileSyncError::Timeout => "Sync unsuccessful: timeout"@,
                FileSyncError::NotFound => "Sync unsuccessful: file not found"@,
            },
    {
        match self {
            FileSyncError::InternalError { cause } => {
                let mut m = String::from_str("Sync unsuccessful: internal error ");
                m.append(cause.as_str());
                m
            },
            FileSyncError::BadClientData { cause } => {
                let mut m = String::from_str("Sync unsuccessful: ");
                m.append(cause.as_str());
                m
            },
            FileSyncError::Timeout => String::from_str("Sync unsuccessful: timeout"),
            FileSyncError::NotFound => String::from_str("Sync unsuccessful: file not found"),
        }
    }
}

/// The path of a file called `name` inside the directory `dir`.
pub open spec fn joined_path(dir: Seq<char>, name: Seq<char>) -> Seq<char> {
    dir + seq!['/'] + name
}

/// `true` when no two entries carry the same path.
pub open spec fn keys_unique(s: Seq<(String, String)>) -> bool {
    forall|i: int, j: int| 0 <= i < j < s.len() ==> s[i].0@ != s[j].0@
}

/// The path-to-contents map an entry list stands for; later entries win.
pub open spec fn pairs_map(s: Seq<(String, String)>) -> Map<Seq<char>, Seq<char>>
    decreases s.len(),
{
    if s.len() == 0 {
        Map::empty()
    } else {
        pairs_map(s.drop_last()).insert(s.last().0@, s.last().1@)
    }
}

/// A path is in the map exactly when some entry carries it.
pub proof fn lemma_pairs_map_dom(s: Seq<(String, String)>, k: Seq<char>)
    ensures
        pairs_map(s).dom().contains(k) <==> exists|i: int| 0 <= i < s.len() && s[i].0@ == k,
    decreases s.len(),
{
    if s.len() > 0 {
        lemma_pairs_map_dom(s.drop_last(), k);
        if s.last().0@ == k {
            assert(s[s.len() - 1].0@ == k);
        } else if pairs_map(s).dom().contains(k) {
            let i = choose|i: int| 0 <= i < s.drop_last().len() && s.drop_last()[i].0@ == k;
            assert(s[i].0@ == k);
        } else {
            assert forall|i: int| 0 <= i < s.len() implies s[i].0@ != k by {
                if i < s.len() - 1 {
                    assert(s.drop_last()[i].0@ == s[i].0@);
                }
            }
        }
    }
}

/// With unique paths, the map sends each entry's path to that entry's text.
pub proof fn lemma_pairs_map_index(s: Seq<(String, String)>, i: int)
    requires
        keys_unique(s),
        0 <= i < s.len(),
    ensures
        pairs_map(s).dom().contains(s[i].0@),
        pairs_map(s)[s[i].0@] == s[i].1@,
    decreases s.len(),
{
    if i < s.len() - 1 {
        assert(keys_unique(s.drop_last())) by {
            assert(forall|a: int, b: int|
                0 <= a < b < s.drop_last().len() ==> s.drop_last()[a].0@ == s[a].0@
                    && s.drop_last()[b].0@ == s[b].0@);
        }
        assert(s.drop_last()[i] == s[i]);
        lemma_pairs_map_index(s.drop_last(), i);
        assert(s[i].0@ != s.last().0@);
    }
}

/// Replacing the entry at `i` with one carrying the same path updates the
/// map at that path alone.
pub proof fn lemma_pairs_map_update(s: Seq<(String, String)>, i: int, p: (String, String))
    requires
        keys_unique(s),
        0 <= i < s.len(),
        p.0@ == s[i].0@,
    ensures
        pairs_map(s.update(i, p)) =~= pairs_map(s).insert(p.0@, p.1@),
        keys_unique(s.update(i, p)),
    decreases s.len(),
{
    assert(keys_unique(s.update(i, p))) by {
        assert(forall|a: int|
            0 <= a < s.len() ==> (#[trigger] s.update(i, p)[a]).0@ == s[a].0@);
    }
    if i == s.len() - 1 {
        assert(s.update(i, p).drop_last() =~= s.drop_last());
        assert(s.update(i, p).last() == p);
        assert(pairs_map(s.update(i, p)) =~= pairs_map(s).insert(p.0@, p.1@));
    } else {
        assert(keys_unique(s.drop_last())) by {
            assert(forall|a: int, b: int|
                0 <= a < b < s.drop_last().len() ==> s.drop_last()[a].0@ == s[a].0@
                    && s.drop_last()[b].0@ == s[b].0@);
        }
        assert(s.drop_last()[i] == s[i]);
        lemma_pairs_map_update(s.drop_last(), i, p);
        assert(s.update(i, p).drop_last() =~= s.drop_last().update(i, p));
        assert(s.update(i, p).last() == s.last());
        assert(p.0@ != s.last().0@);
        assert(pairs_map(s.update(i, p)) =~= pairs_map(s.drop_last().update(i, p)).insert(
            s.last().0@,
            s.last().1@,
        ));
        assert(pairs_map(s.update(i, p)) =~= pairs_map(s).insert(p.0@, p.1@));
    }
}

/// Removing the entry at `i` removes exactly that entry's path from the map.
pub proof fn lemma_pairs_map_remove(s: Seq<(String, String)>, i: int)
    requires
        keys_unique(s),
        0 <= i < s.len(),
    ensures
        pairs_map(s.remove(i)) =~= pairs_map(s).remove(s[i].0@),
        keys_unique(s.remove(i)),
    decreases s.len(),
{
    assert(keys_unique(s.remove(i))) by {
        assert(forall|a: int|
            0 <= a < s.remove(i).len() ==> (#[trigger] s.remove(i)[a]).0@ == (if a < i {
                s[a].0@
            } else {
                s[a + 1].0@
            }));
    }
    if i == s.len() - 1 {
        assert(s.remove(i) =~= s.drop_last());
        assert forall|j: int| 0 <= j < s.drop_last().len() implies s.drop_last()[j].0@
            != s[i].0@ by {
            assert(s.drop_last()[j].0@ == s[j].0@);
        }
        lemma_pairs_map_dom(s.drop_last(), s[i].0@);
        assert(!pairs_map(s.drop_last()).dom().contains(s[i].0@));
        assert(pairs_map(s.remove(i)) =~= pairs_map(s).remove(s[i].0@));
    } else {
        assert(keys_unique(s.drop_last())) by {
            assert(forall|a: int, b: int|
                0 <= a < b < s.drop_last().len() ==> s.drop_last()[a].0@ == s[a].0@
                    && s.drop_last()[b].0@ == s[b].0@);
        }
        assert(s.drop_last()[i] == s[i]);
        lemma_pairs_map_remove(s.drop_last(), i);
        assert(s.remove(i).drop_last() =~= s.drop_last().remove(i));
        assert(s.remove(i).last() == s.last());
        assert(s[i].0@ != s.last().0@);
        assert(pairs_map(s.remove(i)) =~= pairs_map(s.drop_last().remove(i)).insert(
            s.last().0@,
            s.last().1@,
        ));
        assert(pairs_map(s.remove(i)) =~= pairs_map(s).remove(s[i].0@));
    }
}

/// The library's record of the workspace: the directories known to exist
/// and each tracked file's full contents.
pub struct Workspace {
    dirs: Vec<String>,
    files: Vec<(String, String)>,
}

impl Workspace {
    /// Well-formed: no file path is tracked twice.
    pub closed spec fn wf(&self) -> bool {
        keys_unique(self.files@)
    }

    /// The tracked files, as a map from path to full contents.
    pub closed spec fn file_map(&self) -> Map<Seq<char>, Seq<char>> {
        pairs_map(self.files@)
    }

    /// The directories known to exist.
    pub closed spec fn dir_set(&self) -> Set<Seq<char>> {
        self.dirs@.map_values(|d: String| d@).to_set()
    }

    /// An empty workspace: no directories, no files.
    pub fn new() -> (w: Workspace)
        ensures
            w.wf(),
            w.file_map() =~= Map::<Seq<char>, Seq<char>>::empty(),
            w.dir_set() =~= Set::<Seq<char>>::empty(),
    {
        let w = Workspace { dirs: Vec::new(), files: Vec::new() };
        proof {
            assert(w.dirs@.map_values(|d: String| d@) =~= Seq::<Seq<char>>::empty());
        }
        w
    }

    /// Records that a directory exists.
    pub fn add_dir(&mut self, path: String)
        requires
            old(self).wf(),
        ensures
            final(self).wf(),
            final(self).dir_set() =~= old(self).dir_set().insert(path@),
            final(self).file_map() == old(self).file_map(),
    {
        let ghost before = self.dirs@;
        self.dirs.push(path);
        proof {
            let ghost m0 = before.map_values(|d: String| d@);
            let ghost m1 = self.dirs@.map_values(|d: String| d@);
            assert(m1 =~= m0.push(path@));
            assert forall|x: Seq<char>| m1.contains(x) implies m0.to_set().insert(path@).contains(
                x,
            ) by {
                let j = choose|j: int| 0 <= j < m1.len() && m1[j] == x;
                if j < m0.len() {
                    assert(m0[j] == x);
                }
            }
            assert forall|x: Seq<char>| m0.to_set().insert(path@).contains(x) implies m1.contains(
                x,
            ) by {
                if x == path@ {
                    assert(m1[m1.len() - 1] == x);
                } else {
                    let j = choose|j: int| 0 <= j < m0.len() && m0[j] == x;
                    assert(m1[j] == x);
                }
            }
            assert(m1.to_set() =~= m0.to_set().insert(path@));
        }
    }

    /// Whether a directory with this path is known.
    pub fn has_dir(&self, path: &str) -> (r: bool)
        ensures
            r == self.dir_set().contains(path@),
    {
        let n = self.dirs.len();
        let mut i: usize = 0;
        while i < n
            invariant
                i <= n,
                n == self.dirs@.len(),
                forall|j: int| 0 <= j < i ==> self.dirs@[j]@ != path@,
            decreases n - i,
        {
            if str_eq(self.dirs[i].as_str(), path) {
                proof {
                    assert(self.dirs@.map_values(|d: String| d@)[i as int] == path@);
                }
                return true;
            }
            i = i + 1;
        }
        proof {
            let ghost m = self.dirs@.map_values(|d: String| d@);
            assert forall|x: Seq<char>| m.contains(x) implies x != path@ by {
                let j = choose|j: int| 0 <= j < m.len() && m[j] == x;
                assert(self.dirs@[j]@ == x);
            }
        }
        false
    }

    /// Index of the entry tracking this path, if any.
    fn find_file(&self, path: &str) -> (r: Option<usize>)
        ensures
            match r {
                Some(i) => i < self.files@.len() && self.files@[i as int].0@ == path@,
                None => forall|j: int| 0 <= j < self.files@.len() ==> self.files@[j].0@ != path@,
            },
    {
        let n = self.files.len();
        let mut i: usize = 0;
        while i < n
            invariant
                i <= n,
                n == self.files@.len(),
                forall|j: int| 0 <= j < i ==> self.files@[j].0@ != path@,
            decreases n - i,
        {
            if str_eq(self.files[i].0.as_str(), path) {
                return Some(i);
            }
            i = i + 1;
        }
        None
    }

    /// Whether a file with this path is tracked.
    pub fn has_file(&self, path: &str) -> (r: bool)
        ensures
            r == self.file_map().dom().contains(path@),
    {
        let idx = self.find_file(path);
        proof {
            lemma_pairs_map_dom(self.files@, path@);
        }
        idx.is_some()
    }

    /// The tracked contents of a file, if the path is tracked.
    pub fn file_text(&self, path: &str) -> (r: Option<String>)
        requires
            self.wf(),
        ensures
            match r {
                Some(t) => self.file_map().dom().contains(path@) && t@ == self.file_map()[path@],
                None => !self.file_map().dom().contains(path@),
            },
    {
        proof {
            lemma_pairs_map_dom(self.files@, path@);
        }
        match self.find_file(path) {
            Some(i) => {
                let t = self.files[i].1.clone();
                proof {
                    lemma_pairs_map_index(self.files@, i as int);
                }
                Some(t)
            },
            None => None,
        }
    }

    /// Sets a file's full contents, tracking the path if it was not tracked.
    pub fn set_file(&mut self, path: String, text: String)
        requires
            old(self).wf(),
        ensures
            final(self).wf(),
            final(self).file_map() =~= old(self).file_map().insert(path@, text@),
            final(self).dir_set() == old(self).dir_set(),
    {
        let ghost before = self.files@;
        match self.find_file(path.as_str()) {
            Some(i) => {
                self.files.remove(i);
                self.files.insert(i, (path, text));
                proof {
                    assert(self.files@ =~= before.update(i as int, self.files@[i as int]));
                    lemma_pairs_map_update(before, i as int, self.files@[i as int]);
                }
            },
            None => {
                self.files.push((path, text));
                proof {
                    assert(self.files@.drop_last() =~= before);
                    assert(keys_unique(self.files@)) by {
                        assert(forall|a: int|
                            0 <= a < before.len() ==> (#[trigger] self.files@[a]) == before[a]);
                    }
                }
            },
        }
    }

    /// Stops tracking a file.  Returns whether the path was tracked.
    pub fn remove_file(&mut self, path: &str) -> (r: bool)
        requires
            old(self).wf(),
        ensures
            final(self).wf(),
            r == old(self).file_map().dom().contains(path@),
            r ==> final(self).file_map() =~= old(self).file_map().remove(path@),
            !r ==> final(self).file_map() == old(self).file_map(),
            final(self).dir_set() == old(self).dir_set(),
    {
        proof {
            lemma_pairs_map_dom(self.files@, path@);
        }
        match self.find_file(path) {
            Some(i) => {
                proof {
                    lemma_pairs_map_remove(self.files@, i as int);
                }
                self.files.remove(i);
                true
            },
            None => false,
        }
    }

    /// Applies one sync command against the workspace, the target path taken
    /// from the triggering protocol message.
    ///
    /// Either the workspace changes exactly as the command says, or the
    /// matching error comes back and the workspace is untouched:
    /// `New` never tracks a file when the target is not a known directory;
    /// `Update` with absent text never touches anything; `Delete` of an
    /// untracked path reports `NotFound` instead of removing anything.
    pub fn handle_file_sync(&mut self, path: &str, command: FileSyncCommand) -> (r: Result<
        (),
        FileSyncError,
    >)
        requires
            old(self).wf(),
        ensures
            final(self).wf(),
            final(self).dir_set() == old(self).dir_set(),
            match command.reason {
                FileSyncType::New => {
                    if old(self).dir_set().contains(path@) {
                        &&& r is Ok
                        &&& final(self).file_map() =~= old(self).file_map().insert(
                            joined_path(path@, command.name@),
                            Seq::<char>::empty(),
                        )
                    } else {
                        &&& r matches Err(e) && e matches FileSyncError::BadClientData { cause }
                            && cause@ == "Cannot create new file in non-directory."@
                        &&& final(self).file_map() == old(self).file_map()
                    }
                },
                FileSyncType::Update => match command@.text {
                    None => r is Ok && final(self).file_map() == old(self).file_map(),
                    Some(t) => {
                        if old(self).file_map().dom().contains(path@) {
                            &&& r is Ok
                            &&& final(self).file_map() =~= old(self).file_map().insert(path@, t)
                        } else {
                            &&& r is Err && r->Err_0 is NotFound
                            &&& final(self).file_map() == old(self).file_map()
                        }
                    },
                },
                FileSyncType::Delete => {
                    if old(self).file_map().dom().contains(path@) {
                        &&& r is Ok
                        &&& final(self).file_map() =~= old(self).file_map().remove(path@)
                    } else {
                        &&& r is Err && r->Err_0 is NotFound
                        &&& final(self).file_map() == old(self).file_map()
                    }
                },
            },
    {
        match command.reason {
            FileSyncType::New => {
                if self.has_dir(path) {
                    let mut target = String::from_str(path);
                    target.append("/");
                    target.append(command.name.as_str());
                    proof {
                        reveal_strlit("/");
                        assert(target@ =~= joined_path(path@, command.name@));
                    }
                    self.set_file(target, String::new());
                    Ok(())
                } else {
                    Err(
                        FileSyncError::BadClientData {
                            cause: String::from_str("Cannot create new file in non-directory."),
                        },
                    )
                }
            },
            FileSyncType::Update => {
                match command.text {
                    None => Ok(()),
                    Some(t) => {
                        if self.has_file(path) {
                            self.set_file(String::from_str(path), t);
                            Ok(())
                        } else {
                            Err(FileSyncError::NotFound)
                        }
                    },
                }
            },
            FileSyncType::Delete => {
                if self.remove_file(path) {
                    Ok(())
                } else {
                    Err(FileSyncError::NotFound)
                }
            },
        }
    }
}

/// What the caller observed of a failed I/O operation: whether the target
/// was missing, and the operation's own description of the failure.
pub struct IoFailure {
    pub not_found: bool,
    pub message: String,
}

/// Classifies a failed I/O operation into the sync error taxonomy: a missing
/// target is `NotFound`, anything else an internal error carrying the
/// operation's description.
pub fn map_io_err(e: IoFailure) -> (r: FileSyncError)
    ensures
        e.not_found ==> r is NotFound,
        !e.not_found ==> (r matches FileSyncError::InternalError { cause } && cause@ == e.message@),
{
    if e.not_found {
        FileSyncError::NotFound
    } else {
        FileSyncError::InternalError { cause: e.message }
    }
}

} // verus!
