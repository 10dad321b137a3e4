//! A model of the filesystem, the effect of a plan on it, and the laws of
//! provisioning that follow.
//!
//! The model filesystem refuses an action for what the entries that exist
//! rule out: an entry needs its parent directory, a directory is not
//! created over an existing entry, a file is not written over a directory,
//! and a fetch needs a response. What the operating system refuses for
//! reasons of its own, such as permissions, the model holds as a list of
//! denied places.
use vstd::prelude::*;
use vstd::utf8::encode_utf8;
use crate::error::{failure_of, Cause, ErrorView};
use crate::plan::ActionView;

verus! {

/// A regular file: its bytes, and whether its owner may execute it.
pub struct FileView {
    pub content: Seq<u8>,
    pub executable: bool,
}

/// The entries of a filesystem, each under its full path.
pub struct Disk {
    pub dirs: Set<Seq<char>>,
    pub files: Map<Seq<char>, FileView>,
    /// The places where the operating system lets nothing be created, for
    /// a reason of its own, such as a missing permission.
    pub denied: Map<Seq<char>, Cause>,
}

/// Where a run stopped: the filesystem as it was left, and the error of the
/// action that failed, if one did.
pub struct Outcome {
    pub disk: Disk,
    pub error: Option<ErrorView>,
}

/// `path` is `root` itself or lies below it.
pub open spec fn within(root: Seq<char>, path: Seq<char>) -> bool {
    path == root || (root + "/"@).is_prefix_of(path)
}

impl Disk {
    /// Something, a directory or a file, exists at `path`.
    pub open spec fn occupied(self, path: Seq<char>) -> bool {
        self.dirs.contains(path) || self.files.dom().contains(path)
    }

    /// Nothing exists at `path`, and nothing is denied there.
    pub open spec fn free(self, path: Seq<char>) -> bool {
        !self.occupied(path) && !self.denied.dom().contains(path)
    }

    /// Nothing exists at `root` or below it, and nothing is denied there.
    pub open spec fn vacant_under(self, root: Seq<char>) -> bool {
        forall|p: Seq<char>| within(root, p) ==> #[trigger] self.free(p)
    }

    /// Why nothing can be created at `path`, if so: its parent is missing,
    /// or is a file. The root of the filesystem, written as the empty
    /// path, is always there.
    pub open spec fn blocked(self, path: Seq<char>) -> Option<Cause> {
        match parent_of(path) {
            None => None,
            Some(parent) => if parent.len() == 0 || self.dirs.contains(parent) {
                None
            } else if self.files.dom().contains(parent) {
                Some(Cause::Other)
            } else {
                Some(Cause::NotFound)
            },
        }
    }

    /// The filesystem with a new directory at `path`.
    pub open spec fn with_dir(self, path: Seq<char>) -> Disk {
        Disk { dirs: self.dirs.insert(path), files: self.files, denied: self.denied }
    }

    /// The filesystem after `path` was created or truncated. A file that
    /// was there keeps its mode; a new one is not executable.
    pub open spec fn with_file(self, path: Seq<char>, content: Seq<u8>) -> Disk {
        let executable = self.files.dom().contains(path) && self.files[path].executable;
        Disk {
            dirs: self.dirs,
            files: self.files.insert(path, FileView { content, executable }),
            denied: self.denied,
        }
    }

    /// The filesystem after `content` was written to the start of the
    /// script at `path`. A new script is executable; one that was there
    /// keeps its mode and what it held beyond the written bytes.
    pub open spec fn with_script(self, path: Seq<char>, content: Seq<u8>) -> Disk {
        let file = if self.files.dom().contains(path) {
            let before = self.files[path];
            FileView {
                content: if before.content.len() > content.len() {
                    content + before.content.skip(content.len() as int)
                } else {
                    content
                },
                executable: before.executable,
            }
        } else {
            FileView { content, executable: true }
        };
        Disk { dirs: self.dirs, files: self.files.insert(path, file), denied: self.denied }
    }
}

/// What stands before the last separator of `path`: the directory that
/// must hold the new entry. A path without a separator has none: it is
/// created in the current directory.
pub open spec fn parent_of(path: Seq<char>) -> Option<Seq<char>>
    decreases path.len(),
{
    if path.len() == 0 {
        None
    } else if path.last() == '/' {
        Some(path.drop_last())
    } else {
        parent_of(path.drop_last())
    }
}

/// Why the model refuses an action, if it does. A fetch without a response
/// fails before anything is created. An entry cannot be created where its
/// parent is missing or is a file. A directory is not created over an
/// existing entry, and a file is not written over a directory. Last, the
/// operating system may deny the place for a reason of its own.
pub open spec fn refusal(d: Disk, a: ActionView, body: Option<Seq<u8>>) -> Option<Cause> {
    if a is Fetch && body is None {
        Some(Cause::Network)
    } else if d.blocked(a.target()) is Some {
        d.blocked(a.target())
    } else if a is CreateDir && d.occupied(a.target()) {
        Some(Cause::AlreadyExists)
    } else if !(a is CreateDir) && d.dirs.contains(a.target()) {
        Some(Cause::Other)
    } else if d.denied.dom().contains(a.target()) {
        Some(d.denied[a.target()])
    } else {
        None
    }
}

/// What an action that is not refused leaves behind.
pub open spec fn effect(d: Disk, a: ActionView, body: Option<Seq<u8>>) -> Disk {
    match a {
        ActionView::CreateDir { path } => d.with_dir(path),
        ActionView::CreateFile { path } => d.with_file(path, Seq::empty()),
        ActionView::WriteScript { path, content } => d.with_script(path, encode_utf8(content)),
        ActionView::Fetch { path, .. } => d.with_file(
            path,
            match body {
                Some(bytes) => bytes,
                None => Seq::empty(),
            },
        ),
    }
}

/// The effect of one action. `body` is what the remote address answers:
/// the bytes of a successful response, or `None` where the request fails.
/// A refused action changes nothing.
pub open spec fn perform(d: Disk, a: ActionView, body: Option<Seq<u8>>) -> Result<Disk, ErrorView> {
    match refusal(d, a, body) {
        Some(cause) => Err(failure_of(a, cause)),
        None => Ok(effect(d, a, body)),
    }
}

/// The effect of a plan: its actions in order, up to the first that fails.
/// What was created before a failure stays.
pub open spec fn execute(d: Disk, plan: Seq<ActionView>, body: Option<Seq<u8>>) -> Outcome
    decreases plan.len(),
{
    if plan.len() == 0 {
        Outcome { disk: d, error: None }
    } else {
        match perform(d, plan[0], body) {
            Err(e) => Outcome { disk: d, error: Some(e) },
            Ok(next) => execute(next, plan.skip(1), body),
        }
    }
}

/// The outcome of one more action after `o`: nothing, if `o` had failed.
pub open spec fn follow(o: Outcome, a: ActionView, body: Option<Seq<u8>>) -> Outcome {
    if o.error is Some {
        o
    } else {
        match perform(o.disk, a, body) {
            Err(e) => Outcome { disk: o.disk, error: Some(e) },
            Ok(next) => Outcome { disk: next, error: None },
        }
    }
}

/// A plan with one more action at its end does what the plan does, and
/// then that action.
pub proof fn execute_push(d: Disk, plan: Seq<ActionView>, a: ActionView, body: Option<Seq<u8>>)
    ensures
        execute(d, plan.push(a), body) == follow(execute(d, plan, body), a, body),
    decreases plan.len(),
{
    let whole = plan.push(a);
    if plan.len() == 0 {
        assert(whole.skip(1) =~= Seq::<ActionView>::empty());
        assert(whole[0] == a);
        match perform(d, a, body) {
            Err(e) => {},
            Ok(next) => {
                assert(execute(next, whole.skip(1), body) == Outcome { disk: next, error: None });
            },
        }
    } else {
        assert(whole[0] == plan[0]);
        assert(whole.skip(1) =~= plan.skip(1).push(a));
        match perform(d, plan[0], body) {
            Err(e) => {},
            Ok(next) => {
                execute_push(next, plan.skip(1), a, body);
            },
        }
    }
}

/// Two plans one after the other: the second runs on what the first left,
/// unless the first failed.
pub proof fn execute_concat(
    d: Disk,
    first: Seq<ActionView>,
    second: Seq<ActionView>,
    body: Option<Seq<u8>>,
)
    ensures
        execute(d, first + second, body) == if execute(d, first, body).error is Some {
            execute(d, first, body)
        } else {
            execute(execute(d, first, body).disk, second, body)
        },
    decreases second.len(),
{
    if second.len() == 0 {
        assert(first + second =~= first);
    } else {
        let init = second.drop_last();
        let a = second.last();
        assert(first + second =~= (first + init).push(a));
        assert(second =~= init.push(a));
        execute_concat(d, first, init, body);
        execute_push(d, first + init, a, body);
        execute_push(execute(d, first, body).disk, init, a, body);
    }
}

/// No action removes an entry: what exists before a plan exists after it,
/// a directory stays a directory, and a place that could be reached can
/// still be reached.
pub proof fn execute_keeps(d: Disk, plan: Seq<ActionView>, body: Option<Seq<u8>>, path: Seq<char>)
    ensures
        d.occupied(path) ==> execute(d, plan, body).disk.occupied(path),
        d.dirs.contains(path) ==> execute(d, plan, body).disk.dirs.contains(path),
        d.blocked(path) is None ==> execute(d, plan, body).disk.blocked(path) is None,
    decreases plan.len(),
{
    if plan.len() > 0 {
        match perform(d, plan[0], body) {
            Err(e) => {},
            Ok(next) => {
                execute_keeps(next, plan.skip(1), body, path);
                if parent_of(path) is Some {
                    execute_keeps(next, plan.skip(1), body, parent_of(path).unwrap());
                }
            },
        }
    }
}

/// A run stops at the first action that fails: where the actions before
/// the one at `k` succeed and that one fails, the run ends with its error
/// and leaves what the earlier actions made. Nothing later is attempted.
pub proof fn execute_stops(d: Disk, plan: Seq<ActionView>, k: int, body: Option<Seq<u8>>)
    requires
        0 <= k < plan.len(),
        execute(d, plan.take(k), body).error is None,
        perform(execute(d, plan.take(k), body).disk, plan[k], body) is Err,
    ensures
        execute(d, plan, body) == (Outcome {
            disk: execute(d, plan.take(k), body).disk,
            error: Some(perform(execute(d, plan.take(k), body).disk, plan[k], body)->Err_0),
        }),
{
    assert(plan =~= plan.take(k) + plan.skip(k));
    execute_concat(d, plan.take(k), plan.skip(k), body);
    assert(plan.skip(k)[0] == plan[k]);
}

/// The parent of a path: what stands before a separator after which no
/// separator follows.
pub proof fn parent_found(path: Seq<char>, k: int)
    requires
        0 <= k < path.len(),
        path[k] == '/',
        forall|j: int| k < j < path.len() ==> path[j] != '/',
    ensures
        parent_of(path) == Some(path.subrange(0, k)),
    decreases path.len(),
{
    if k == path.len() - 1 {
        assert(path.drop_last() =~= path.subrange(0, k));
    } else {
        parent_found(path.drop_last(), k);
        assert(path.drop_last().subrange(0, k) =~= path.subrange(0, k));
    }
}

/// A path without a separator has no parent.
pub proof fn parent_absent(path: Seq<char>)
    requires
        forall|j: int| 0 <= j < path.len() ==> path[j] != '/',
    ensures
        parent_of(path) is None,
    decreases path.len(),
{
    if path.len() > 0 {
        parent_absent(path.drop_last());
    }
}

} // verus!
