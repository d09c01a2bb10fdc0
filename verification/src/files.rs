//! File tree nodes for directory listings, and the naming rules around
//! them: a node's type tag, the ignore rule for walked entries, and the
//! workspace's root URI.
//!
//! The directory walk itself is I/O and lives with the caller; it hands
//! each entry's path, leaf name and kind to [`FileNode::new`] and hangs the
//! nodes together with [`FileNode::add_child`].

use vstd::prelude::*;
use vstd::string::*;
use crate::text::{
    ends_with_spec,
    last_index_of,
    lemma_last_index_of,
    starts_with_spec,
    str_ends_with,
    str_eq,
    str_last_index_of,
    str_starts_with,
};

verus! {

/// The extension tag of a file name: what follows the last dot, or nothing
/// when there is no dot or the name only starts with one.
pub open spec fn extension_of(name: Seq<char>) -> Seq<char> {
    let i = last_index_of(name, '.');
    if i <= 0 {
        Seq::<char>::empty()
    } else {
        name.skip(i + 1)
    }
}

/// The extension tag of a file name.
pub fn extension_str(name: &str) -> (r: String)
    ensures
        r@ == extension_of(name@),
{
    proof {
        lemma_last_index_of(name@, '.');
    }
    let n = name.unicode_len();
    match str_last_index_of(name, '.') {
        Some(i) => {
            if i == 0 {
                String::new()
            } else {
                String::from_str(name.substring_char(i + 1, n))
            }
        },
        None => String::new(),
    }
}

/// One node of a directory listing: a file or directory, its display name,
/// its type tag (`"directory"` or the file's extension), and its children.
pub struct FileNode {
    pub path: String,
    pub name: String,
    pub file_type: String,
    pub children: Vec<FileNode>,
}

impl FileNode {
    /// A fresh leafless node: a directory is tagged `"directory"`, a file
    /// with its name's extension.
    pub fn new(path: String, name: String, is_dir: bool) -> (n: FileNode)
        ensures
            n.path == path,
            n.name == name,
            n.children@ == Seq::<FileNode>::empty(),
            n.file_type@ == if is_dir {
                "directory"@
            } else {
                extension_of(name@)
            },
    {
        let file_type = if is_dir {
            String::from_str("directory")
        } else {
            extension_str(name.as_str())
        };
        let children: Vec<FileNode> = Vec::new();
        proof {
            assert(children@ =~= Seq::<FileNode>::empty());
        }
        FileNode { path, name, file_type, children }
    }

    /// Appends a child node.
    pub fn add_child(&mut self, leaf: FileNode)
        ensures
            final(self).path == old(self).path,
            final(self).name == old(self).name,
            final(self).file_type == old(self).file_type,
            final(self).children@ == old(self).children@.push(leaf),
    {
        self.children.push(leaf);
    }

    /// Index of the first child with this display name, if any.
    pub fn find_child(&self, name: &str) -> (r: Option<usize>)
        ensures
            match r {
                Some(i) => i < self.children@.len() && self.children@[i as int].name@ == name@ && (
                forall|j: int| 0 <= j < i ==> self.children@[j].name@ != name@),
                None => forall|j: int|
                    0 <= j < self.children@.len() ==> self.children@[j].name@ != name@,
            },
    {
        let n = self.children.len();
        let mut i: usize = 0;
        while i < n
            invariant
                i <= n,
                n == self.children@.len(),
                forall|j: int| 0 <= j < i ==> self.children@[j].name@ != name@,
            decreases n - i,
        {
            if str_eq(self.children[i].name.as_str(), name) {
                return Some(i);
            }
            i = i + 1;
        }
        None
    }
}

/// The walk's ignore rule: dot entries and compiled class files are left
/// out of listings (and their subtrees not descended into).
pub fn is_ignored(name: &str) -> (r: bool)
    ensures
        r == (starts_with_spec(name@, "."@) || ends_with_spec(name@, ".class"@)),
{
    str_starts_with(name, ".") || str_ends_with(name, ".class")
}

/// The workspace root as a `file:` URI.
pub fn get_root_uri(workspace_dir: &str) -> (r: String)
    ensures
        r@ == "file:///"@ + workspace_dir@,
{
    let mut r = String::from_str("file:///");
    r.append(workspace_dir);
    r
}

} // verus!
