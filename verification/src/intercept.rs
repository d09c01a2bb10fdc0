//! The intercept pipeline: inspects each inbound protocol message and
//! derives the file sync commands it implies, which the caller then applies
//! to the workspace — best-effort, never blocking or failing the forwarding
//! path.
//!
//! Exactly three notification methods are recognized: a document change
//! yields one `Update` per content-change entry, in array order, each
//! carrying that entry's full replacement text; a file-create event yields
//! one `New` per created file, against the file's containing directory; a
//! file-delete event mirrors file-create with a `Delete` against the file's
//! own path.  Text that does not parse, an unrecognized method, and a URI
//! that cannot be mapped to a filesystem path are all skipped silently.
//!
//! The JSON and URI reading itself is done by `serde_json` and `url` behind
//! the trusted wrappers below; every decision after them is verified.

use vstd::prelude::*;
use vstd::string::*;
use crate::file_sync::{
    CommandView,
    FileSyncCommand,
    FileSyncType,
    Workspace,
    joined_path,
};
use crate::text::{last_index_of, starts_with_spec, str_eq, str_last_index_of, str_starts_with};

verus! {

/// The `method` field of the JSON object a message text parses to, if the
/// text parses to an object whose `method` is a string.
pub uninterp spec fn method_of(s: Seq<char>) -> Option<Seq<char>>;

/// The document URI of a document-change notification's parameters, if the
/// text parses to one.
pub uninterp spec fn did_change_uri_of(s: Seq<char>) -> Option<Seq<char>>;

/// The full replacement texts of a document-change notification's
/// content-change entries, in array order.
pub uninterp spec fn did_change_texts_of(s: Seq<char>) -> Seq<Seq<char>>;

/// The created files' URIs of a file-create notification, in array order,
/// if the text parses to one.
pub uninterp spec fn created_uris_of(s: Seq<char>) -> Option<Seq<Seq<char>>>;

/// The deleted files' URIs of a file-delete notification, in array order,
/// if the text parses to one.
pub uninterp spec fn deleted_uris_of(s: Seq<char>) -> Option<Seq<Seq<char>>>;

/// The filesystem path a `file:` URI maps to on this platform, if it maps
/// to one.
pub uninterp spec fn uri_fs_path_of(u: Seq<char>) -> Option<Seq<char>>;

/// A URI's last path segment — the file's leaf name — if it has one.
pub uninterp spec fn uri_leaf_of(u: Seq<char>) -> Option<Seq<char>>;

/// Relies on `serde_json::from_str` and `serde_json::Value::as_str`: reads
/// the `method` string field of the message, a function of the text alone.
#[verifier::external_body]
fn parse_method(text: &str) -> (r: Option<String>)
    ensures
        match r {
            Some(m) => method_of(text@) == Some(m@),
            None => method_of(text@) is None,
        },
{
    let v: serde_json::Value = serde_json::from_str(text).ok()?;
    let m = v.get("method")?.as_str()?;
    Some(m.to_string())
}

/// Relies on `serde_json::from_str` / `from_value` deserializing
/// `lsp_types::DidChangeTextDocumentParams` out of the message's `params`
/// object: hands back the document URI and the content-change texts in
/// array order, a function of the text alone.
#[verifier::external_body]
fn parse_did_change(text: &str) -> (r: Option<(String, Vec<String>)>)
    ensures
        match r {
            Some(p) => did_change_uri_of(text@) == Some(p.0@) && p.1.deep_view()
                == did_change_texts_of(text@),
            None => did_change_uri_of(text@) is None,
        },
{
    let v: serde_json::Value = serde_json::from_str(text).ok()?;
    let params = v.get("params")?;
    if !params.is_object() {
        return None;
    }
    let p: lsp_types::DidChangeTextDocumentParams = serde_json::from_value(params.clone()).ok()?;
    let uri = p.text_document.uri.as_str().to_string();
    let texts = p.content_changes.into_iter().map(|c| c.text).collect();
    Some((uri, texts))
}

/// Relies on `serde_json::from_str` / `from_value` deserializing
/// `lsp_types::CreateFilesParams`: the created files' URIs in array order,
/// a function of the text alone.
#[verifier::external_body]
fn parse_created_uris(text: &str) -> (r: Option<Vec<String>>)
    ensures
        match r {
            Some(u) => created_uris_of(text@) == Some(u.deep_view()),
            None => created_uris_of(text@) is None,
        },
{
    let v: serde_json::Value = serde_json::from_str(text).ok()?;
    let params = v.get("params")?;
    if !params.is_object() {
        return None;
    }
    let p: lsp_types::CreateFilesParams = serde_json::from_value(params.clone()).ok()?;
    Some(p.files.into_iter().map(|f| f.uri).collect())
}

/// Relies on `serde_json::from_str` / `from_value` deserializing
/// `lsp_types::DeleteFilesParams`: the deleted files' URIs in array order,
/// a function of the text alone.
#[verifier::external_body]
fn parse_deleted_uris(text: &str) -> (r: Option<Vec<String>>)
    ensures
        match r {
            Some(u) => deleted_uris_of(text@) == Some(u.deep_view()),
            None => deleted_uris_of(text@) is None,
        },
{
    let v: serde_json::Value = serde_json::from_str(text).ok()?;
    let params = v.get("params")?;
    if !params.is_object() {
        return None;
    }
    let p: lsp_types::DeleteFilesParams = serde_json::from_value(params.clone()).ok()?;
    Some(p.files.into_iter().map(|f| f.uri).collect())
}

/// Relies on `url::Url::parse`, `Url::to_file_path` and
/// `Url::path_segments`: maps a URI to this platform's filesystem path and
/// its last path segment.  Both are functions of the URI text alone (on one
/// platform); a URI that does not parse, is not a local file URI, or has no
/// segments maps to nothing.
#[verifier::external_body]
fn parse_file_uri(uri: &str) -> (r: Option<(String, String)>)
    ensures
        match r {
            Some(p) => uri_fs_path_of(uri@) == Some(p.0@) && uri_leaf_of(uri@) == Some(p.1@),
            None => uri_fs_path_of(uri@) is None || uri_leaf_of(uri@) is None,
        },
{
    let url = url::Url::parse(uri).ok()?;
    let path = url.to_file_path().ok()?;
    let leaf = url.path_segments().and_then(|s| s.last())?.to_string();
    Some((path.to_string_lossy().to_string(), leaf))
}

/// The containing directory of a slash-separated path: everything before
/// the last slash, or nothing when there is no slash.
pub open spec fn parent_dir_of(p: Seq<char>) -> Seq<char> {
    let i = last_index_of(p, '/');
    if i >= 0 {
        p.take(i)
    } else {
        Seq::<char>::empty()
    }
}

/// The containing directory of a slash-separated path.
pub fn parent_dir(path: &str) -> (r: String)
    ensures
        r@ == parent_dir_of(path@),
{
    proof {
        crate::text::lemma_last_index_of(path@, '/');
    }
    match str_last_index_of(path, '/') {
        Some(i) => String::from_str(path.substring_char(0, i)),
        None => String::new(),
    }
}

/// The commands a document-change notification yields: one `Update` per
/// content-change entry, in array order, each against the document's
/// filesystem path with the entry's full replacement text.
pub open spec fn did_change_commands(s: Seq<char>) -> Seq<(Seq<char>, CommandView)> {
    match did_change_uri_of(s) {
        Some(u) => match (uri_fs_path_of(u), uri_leaf_of(u)) {
            (Some(p), Some(l)) => did_change_texts_of(s).map_values(
                |t: Seq<char>|
                    (p, CommandView { reason: FileSyncType::Update, name: l, text: Some(t) }),
            ),
            _ => Seq::empty(),
        },
        None => Seq::empty(),
    }
}

/// The command one file-create or file-delete event entry yields: `New`
/// against the file's containing directory, `Delete` against the file's own
/// path; an unmappable URI yields none.
pub open spec fn file_event_command(u: Seq<char>, reason: FileSyncType) -> Seq<
    (Seq<char>, CommandView),
> {
    match (uri_fs_path_of(u), uri_leaf_of(u)) {
        (Some(p), Some(l)) => {
            let target = if reason is New {
                parent_dir_of(p)
            } else {
                p
            };
            seq![(target, CommandView { reason, name: l, text: None })]
        },
        _ => Seq::empty(),
    }
}

/// The commands a list of file-event URIs yields, in array order.
pub open spec fn file_event_commands(uris: Seq<Seq<char>>, reason: FileSyncType) -> Seq<
    (Seq<char>, CommandView),
>
    decreases uris.len(),
{
    if uris.len() == 0 {
        Seq::empty()
    } else {
        file_event_commands(uris.drop_last(), reason) + file_event_command(uris.last(), reason)
    }
}

/// Everything one inbound message makes the intercept pipeline do: the sync
/// commands it yields, in order.  Only the three recognized methods yield
/// any; unparsable text and unrecognized methods yield none.
pub open spec fn intercept_commands_of(s: Seq<char>) -> Seq<(Seq<char>, CommandView)> {
    match method_of(s) {
        Some(m) => {
            if m == "textDocument/didChange"@ {
                did_change_commands(s)
            } else if m == "workspace/didCreateFiles"@ {
                match created_uris_of(s) {
                    Some(uris) => file_event_commands(uris, FileSyncType::New),
                    None => Seq::empty(),
                }
            } else if m == "workspace/didDeleteFiles"@ {
                match deleted_uris_of(s) {
                    Some(uris) => file_event_commands(uris, FileSyncType::Delete),
                    None => Seq::empty(),
                }
            } else {
                Seq::empty()
            }
        },
        None => Seq::empty(),
    }
}

fn intercept_did_update(text: &str) -> (cmds: Vec<(String, FileSyncCommand)>)
    ensures
        cmds.deep_view() == did_change_commands(text@),
{
    match parse_did_change(text) {
        None => Vec::new(),
        Some((uri, changes)) => {
            match parse_file_uri(uri.as_str()) {
                None => Vec::new(),
                Some((path, leaf)) => {
                    let ghost f = |t: Seq<char>|
                        (
                            path@,
                            CommandView {
                                reason: FileSyncType::Update,
                                name: leaf@,
                                text: Some(t),
                            },
                        );
                    let ghost texts = changes.deep_view();
                    let n = changes.len();
                    let mut cmds: Vec<(String, FileSyncCommand)> = Vec::new();
                    let mut i: usize = 0;
                    while i < n
                        invariant
                            i <= n,
                            n == changes@.len(),
                            texts == changes.deep_view(),
                            texts.len() == n,
                            f == (|t: Seq<char>|
                                (
                                    path@,
                                    CommandView {
                                        reason: FileSyncType::Update,
                                        name: leaf@,
                                        text: Some(t),
                                    },
                                )),
                            cmds.deep_view() =~= texts.take(i as int).map_values(f),
                        decreases n - i,
                    {
                        let ghost before = cmds.deep_view();
                        let cmd = FileSyncCommand {
                            reason: FileSyncType::Update,
                            name: leaf.clone(),
                            text: Some(changes[i].clone()),
                        };
                        cmds.push((path.clone(), cmd));
                        proof {
                            assert(cmds.deep_view() =~= before.push(
                                (path@, cmd@),
                            ));
                            assert(texts[i as int] == changes@[i as int]@);
                            assert((path@, cmd@) == f(texts[i as int]));
                            assert(cmds.deep_view() =~= texts.take(i + 1).map_values(f));
                        }
                        i = i + 1;
                    }
                    proof {
                        assert(texts.take(n as int) =~= texts);
                        assert(cmds.deep_view() =~= did_change_commands(text@));
                    }
                    cmds
                },
            }
        },
    }
}

fn intercept_file_event(uris: Vec<String>, reason: FileSyncType) -> (cmds: Vec<
    (String, FileSyncCommand),
>)
    ensures
        cmds.deep_view() == file_event_commands(uris.deep_view(), reason),
{
    let ghost all = uris.deep_view();
    let n = uris.len();
    let mut cmds: Vec<(String, FileSyncCommand)> = Vec::new();
    let mut i: usize = 0;
    while i < n
        invariant
            i <= n,
            n == uris@.len(),
            all == uris.deep_view(),
            all.len() == n,
            cmds.deep_view() =~= file_event_commands(all.take(i as int), reason),
        decreases n - i,
    {
        proof {
            assert(all.take(i + 1).drop_last() =~= all.take(i as int));
            assert(all.take(i + 1).last() == all[i as int]);
            assert(all[i as int] == uris@[i as int]@);
        }
        let ghost before = cmds.deep_view();
        match parse_file_uri(uris[i].as_str()) {
            Some((path, leaf)) => {
                let target = if matches!(reason, FileSyncType::New) {
                    parent_dir(path.as_str())
                } else {
                    path
                };
                let cmd = FileSyncCommand { reason, name: leaf, text: None };
                cmds.push((target, cmd));
                proof {
                    assert(cmds.deep_view() =~= before.push((target@, cmd@)));
                    assert(seq![(target@, cmd@)] =~= file_event_command(all[i as int], reason));
                    assert(cmds.deep_view() =~= file_event_commands(all.take(i + 1), reason));
                }
            },
            None => {
                proof {
                    assert(file_event_command(all[i as int], reason) =~= Seq::<
                        (Seq<char>, CommandView),
                    >::empty());
                    assert(cmds.deep_view() =~= file_event_commands(all.take(i + 1), reason));
                }
            },
        }
        i = i + 1;
    }
    proof {
        assert(all.take(n as int) =~= all);
    }
    cmds
}

/// Matches one recognized method name exactly and derives its commands; an
/// unrecognized method (or one whose parameters do not parse) yields none.
fn intercept_text_sync(text: &str, method: &str) -> (cmds: Vec<(String, FileSyncCommand)>)
    ensures
        method@ == "textDocument/didChange"@ ==> cmds.deep_view() == did_change_commands(text@),
        method@ == "workspace/didCreateFiles"@ ==> cmds.deep_view() == (match created_uris_of(
            text@,
        ) {
            Some(uris) => file_event_commands(uris, FileSyncType::New),
            None => Seq::<(Seq<char>, CommandView)>::empty(),
        }),
        method@ == "workspace/didDeleteFiles"@ ==> cmds.deep_view() == (match deleted_uris_of(
            text@,
        ) {
            Some(uris) => file_event_commands(uris, FileSyncType::Delete),
            None => Seq::<(Seq<char>, CommandView)>::empty(),
        }),
        method@ != "textDocument/didChange"@ && method@ != "workspace/didCreateFiles"@ && method@
            != "workspace/didDeleteFiles"@ ==> cmds.deep_view() == Seq::<
            (Seq<char>, CommandView),
        >::empty(),
{
    proof {
        reveal_strlit("textDocument/didChange");
        reveal_strlit("workspace/didCreateFiles");
        reveal_strlit("workspace/didDeleteFiles");
        assert("textDocument/didChange"@.len() == 22);
        assert("workspace/didCreateFiles"@.len() == 24);
        assert("workspace/didDeleteFiles"@.len() == 24);
        assert("workspace/didCreateFiles"@[13] == 'C');
        assert("workspace/didDeleteFiles"@[13] == 'D');
        assert("textDocument/didChange"@ != "workspace/didCreateFiles"@);
        assert("textDocument/didChange"@ != "workspace/didDeleteFiles"@);
        assert("workspace/didCreateFiles"@ != "workspace/didDeleteFiles"@);
    }
    if str_eq(method, "textDocument/didChange") {
        intercept_did_update(text)
    } else if str_eq(method, "workspace/didCreateFiles") {
        match parse_created_uris(text) {
            Some(uris) => intercept_file_event(uris, FileSyncType::New),
            None => Vec::new(),
        }
    } else if str_eq(method, "workspace/didDeleteFiles") {
        match parse_deleted_uris(text) {
            Some(uris) => intercept_file_event(uris, FileSyncType::Delete),
            None => Vec::new(),
        }
    } else {
        Vec::new()
    }
}

/// Derives the sync commands one inbound message implies, in order, for the
/// three recognized notification methods.  Any failure to parse —
/// non-JSON text, a missing or non-string method, malformed parameters, an
/// unmappable URI — only skips interception; it is never an error, and the
/// caller forwards the message regardless.
pub fn intercept_notification(text: &str) -> (cmds: Vec<(String, FileSyncCommand)>)
    ensures
        cmds.deep_view() == intercept_commands_of(text@),
{
    proof {
        reveal_strlit("textDocument/didChange");
        reveal_strlit("workspace/did");
        reveal_strlit("workspace/didCreateFiles");
        reveal_strlit("workspace/didDeleteFiles");
        assert(starts_with_spec("workspace/didCreateFiles"@, "workspace/did"@)) by {
            assert("workspace/didCreateFiles"@.take(13) =~= "workspace/did"@);
        }
        assert(starts_with_spec("workspace/didDeleteFiles"@, "workspace/did"@)) by {
            assert("workspace/didDeleteFiles"@.take(13) =~= "workspace/did"@);
        }
    }
    match parse_method(text) {
        None => Vec::new(),
        Some(m) => {
            if str_starts_with(m.as_str(), "textDocument/didChange") || str_starts_with(
                m.as_str(),
                "workspace/did",
            ) {
                let cmds = intercept_text_sync(text, m.as_str());
                proof {
                    if m@ != "textDocument/didChange"@ && m@ != "workspace/didCreateFiles"@ && m@
                        != "workspace/didDeleteFiles"@ {
                        assert(cmds.deep_view() =~= intercept_commands_of(text@));
                    }
                }
                cmds
            } else {
                proof {
                    assert(starts_with_spec("textDocument/didChange"@, "textDocument/didChange"@))
                        by {
                        assert("textDocument/didChange"@.take(22) =~= "textDocument/didChange"@);
                    }
                    assert(m@ != "textDocument/didChange"@);
                    assert(m@ != "workspace/didCreateFiles"@);
                    assert(m@ != "workspace/didDeleteFiles"@);
                }
                Vec::new()
            }
        },
    }
}

/// What applying one derived command does to the tracked files: exactly the
/// sync engine's own transition, with a failed command leaving the files
/// untouched (interception is best-effort; errors are swallowed).
pub open spec fn apply_sync_command(
    files: Map<Seq<char>, Seq<char>>,
    dirs: Set<Seq<char>>,
    path: Seq<char>,
    c: CommandView,
) -> Map<Seq<char>, Seq<char>> {
    match c.reason {
        FileSyncType::New => {
            if dirs.contains(path) {
                files.insert(joined_path(path, c.name), Seq::<char>::empty())
            } else {
                files
            }
        },
        FileSyncType::Update => match c.text {
            None => files,
            Some(t) => {
                if files.dom().contains(path) {
                    files.insert(path, t)
                } else {
                    files
                }
            },
        },
        FileSyncType::Delete => {
            if files.dom().contains(path) {
                files.remove(path)
            } else {
                files
            }
        },
    }
}

/// The tracked files after a list of derived commands, applied in order.
pub open spec fn apply_sync_commands(
    files: Map<Seq<char>, Seq<char>>,
    dirs: Set<Seq<char>>,
    cmds: Seq<(Seq<char>, CommandView)>,
) -> Map<Seq<char>, Seq<char>>
    decreases cmds.len(),
{
    if cmds.len() == 0 {
        files
    } else {
        apply_sync_command(
            apply_sync_commands(files, dirs, cmds.drop_last()),
            dirs,
            cmds.last().0,
            cmds.last().1,
        )
    }
}

/// Applies derived commands to the workspace in array order, swallowing
/// each command's error as the pipeline's best-effort contract demands: the
/// workspace ends in exactly the state the command sequence prescribes.
pub fn apply_intercepted(ws: &mut Workspace, cmds: Vec<(String, FileSyncCommand)>)
    requires
        old(ws).wf(),
    ensures
        final(ws).wf(),
        final(ws).dir_set() == old(ws).dir_set(),
        final(ws).file_map() == apply_sync_commands(
            old(ws).file_map(),
            old(ws).dir_set(),
            cmds.deep_view(),
        ),
{
    let ghost all = cmds.deep_view();
    let ghost dirs = ws.dir_set();
    let ghost files0 = ws.file_map();
    let mut rest = cmds;
    let mut i: usize = 0;
    let n = rest.len();
    proof {
        assert(all.take(0) =~= Seq::<(Seq<char>, CommandView)>::empty());
        assert(rest.deep_view() =~= all.skip(0));
    }
    while i < n
        invariant
            i <= n,
            n == all.len(),
            rest@.len() == n - i,
            rest.deep_view() =~= all.skip(i as int),
            ws.wf(),
            ws.dir_set() == dirs,
            ws.file_map() == apply_sync_commands(files0, dirs, all.take(i as int)),
        decreases n - i,
    {
        let ghost rest_seq = rest@;
        let ghost rest_before = rest.deep_view();
        let (path, cmd) = rest.remove(0);
        proof {
            assert(rest_before[0] == all[i as int]);
            assert((path, cmd) == rest_seq[0]);
            assert(rest_before[0] == (path@, cmd@));
            assert((path@, cmd@) == all[i as int]);
            assert forall|j: int| 0 <= j < rest@.len() implies #[trigger] rest.deep_view()[j]
                == all.skip(i + 1)[j] by {
                assert(rest@[j] == rest_seq[j + 1]);
                assert(rest_before[j + 1] == all[i as int + j + 1]);
            }
            assert(rest.deep_view() =~= all.skip(i + 1));
            assert(all.take(i + 1).drop_last() =~= all.take(i as int));
            assert(all.take(i + 1).last() == all[i as int]);
        }
        let _ = ws.handle_file_sync(path.as_str(), cmd);
        i = i + 1;
    }
    proof {
        assert(all.take(n as int) =~= all);
    }
}

} // verus!
