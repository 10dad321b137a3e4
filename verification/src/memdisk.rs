//! The model filesystem in memory: it runs a plan without touching the
//! real filesystem or the network, and does exactly what the model says.
use vstd::prelude::*;
use vstd::string::*;
use crate::disk::{
    effect, execute, parent_absent, parent_found, parent_of, perform, refusal, Disk, FileView,
    Outcome,
};
use crate::error::{failure, Cause, ErrorView, ProvisioningError};
use crate::plan::{plan_view, Action};

verus! {

/// A regular file in memory.
pub struct MemFile {
    pub path: String,
    pub content: Vec<u8>,
    pub executable: bool,
}

impl View for MemFile {
    type V = FileView;

    open spec fn view(&self) -> FileView {
        FileView { content: self.content@, executable: self.executable }
    }
}

/// A filesystem in memory. Of two files under one path the later counts.
/// It denies at most one place.
pub struct MemDisk {
    dirs: Vec<String>,
    files: Vec<MemFile>,
    denied: Option<Denial>,
}

/// A place where the filesystem lets nothing be created, and why.
pub struct Denial {
    pub path: String,
    pub cause: Cause,
}

/// The denied places: the one that was set, if any.
pub closed spec fn denied_of(d: Option<Denial>) -> Map<Seq<char>, Cause> {
    match d {
        Some(denial) => Map::empty().insert(denial.path@, denial.cause),
        None => Map::empty(),
    }
}

/// The paths that a list of directories holds.
pub closed spec fn dirs_of(s: Seq<String>) -> Set<Seq<char>> {
    Set::new(|p: Seq<char>| exists|i: int| 0 <= i < s.len() && #[trigger] s[i]@ == p)
}

/// The files that a list of files holds, a later one replacing an earlier
/// one under the same path.
pub closed spec fn files_of(s: Seq<MemFile>) -> Map<Seq<char>, FileView>
    decreases s.len(),
{
    if s.len() == 0 {
        Map::empty()
    } else {
        files_of(s.drop_last()).insert(s.last().path@, s.last()@)
    }
}

/// What the remote address answers, as the model takes it.
pub open spec fn body_view(body: Option<&Vec<u8>>) -> Option<Seq<u8>> {
    match body {
        Some(bytes) => Some(bytes@),
        None => None,
    }
}

/// What a run returned, as the model reports it.
pub open spec fn error_view(r: Result<(), ProvisioningError>) -> Option<ErrorView> {
    match r {
        Ok(_) => None,
        Err(e) => Some(e@),
    }
}

impl View for MemDisk {
    type V = Disk;

    closed spec fn view(&self) -> Disk {
        Disk {
            dirs: dirs_of(self.dirs@),
            files: files_of(self.files@),
            denied: denied_of(self.denied),
        }
    }
}

/// No two entries of the list are the same path.
pub closed spec fn distinct(s: Seq<String>) -> bool {
    forall|i: int, j: int| 0 <= i < j < s.len() ==> (#[trigger] s[i])@ != (#[trigger] s[j])@
}

proof fn dirs_counted(s: Seq<String>)
    requires
        distinct(s),
    ensures
        dirs_of(s).finite(),
        dirs_of(s).len() == s.len(),
    decreases s.len(),
{
    if s.len() == 0 {
        assert(dirs_of(s) =~= Set::<Seq<char>>::empty());
    } else {
        let init = s.drop_last();
        dirs_counted(init);
        assert forall|p: Seq<char>|
            dirs_of(s).contains(p) == dirs_of(init).insert(s.last()@).contains(p) by {
            if dirs_of(init).contains(p) {
                let i = choose|i: int| 0 <= i < init.len() && #[trigger] init[i]@ == p;
                assert(s[i]@ == p);
            }
            if dirs_of(s).contains(p) && p != s.last()@ {
                let i = choose|i: int| 0 <= i < s.len() && #[trigger] s[i]@ == p;
                assert(init[i]@ == p);
            }
            if p == s.last()@ {
                assert(s[s.len() - 1]@ == p);
            }
        }
        assert(dirs_of(s) =~= dirs_of(init).insert(s.last()@));
        if dirs_of(init).contains(s.last()@) {
            let i = choose|i: int| 0 <= i < init.len() && #[trigger] init[i]@ == s.last()@;
            assert(s[i]@ == s[s.len() - 1]@);
        }
    }
}

proof fn file_found(s: Seq<MemFile>, p: Seq<char>, k: int)
    requires
        0 <= k < s.len(),
        s[k].path@ == p,
        forall|j: int| k < j < s.len() ==> (#[trigger] s[j]).path@ != p,
    ensures
        files_of(s).dom().contains(p),
        files_of(s)[p] == s[k]@,
    decreases s.len(),
{
    if k < s.len() - 1 {
        assert(s.last() == s[s.len() - 1]);
        file_found(s.drop_last(), p, k);
    }
}

proof fn file_absent(s: Seq<MemFile>, p: Seq<char>)
    requires
        forall|j: int| 0 <= j < s.len() ==> (#[trigger] s[j]).path@ != p,
    ensures
        !files_of(s).dom().contains(p),
    decreases s.len(),
{
    if s.len() > 0 {
        assert(s.last() == s[s.len() - 1]);
        file_absent(s.drop_last(), p);
    }
}

fn copy_from(bytes: &Vec<u8>, start: usize, into: &mut Vec<u8>)
    requires
        start <= bytes.len(),
    ensures
        final(into)@ == old(into)@ + bytes@.skip(start as int),
{
    let mut i: usize = start;
    while i < bytes.len()
        invariant
            start <= i <= bytes.len(),
            into@ == old(into)@ + bytes@.subrange(start as int, i as int),
        decreases bytes.len() - i,
    {
        into.push(bytes[i]);
        i += 1;
        proof {
            assert(into@ =~= old(into)@ + bytes@.subrange(start as int, i as int));
        }
    }
    proof {
        assert(into@ =~= old(into)@ + bytes@.skip(start as int));
    }
}

/// What stands before the last separator of `path`, if it has one.
pub fn parent<'a>(path: &'a str) -> (r: Option<&'a str>)
    ensures
        match r {
            Some(dir) => parent_of(path@) == Some(dir@),
            None => parent_of(path@) is None,
        },
{
    let n: usize = path.unicode_len();
    let mut i: usize = n;
    while i > 0
        invariant
            i <= n,
            n == path@.len(),
            forall|j: int| i <= j < n ==> path@[j] != '/',
        decreases i,
    {
        i -= 1;
        if path.get_char(i) == '/' {
            proof {
                parent_found(path@, i as int);
            }
            return Some(path.substring_char(0, i));
        }
    }
    proof {
        parent_absent(path@);
    }
    None
}

impl MemDisk {
    /// A filesystem that holds nothing.
    pub fn new() -> (r: MemDisk)
        ensures
            r.wf(),
            r@ == (Disk { dirs: Set::empty(), files: Map::empty(), denied: Map::empty() }),
    {
        let r = MemDisk { dirs: Vec::new(), files: Vec::new(), denied: None };
        proof {
            assert(dirs_of(r.dirs@) =~= Set::<Seq<char>>::empty());
        }
        r
    }

    /// Whether a directory exists at `path`.
    pub fn is_dir(&self, path: &str) -> (r: bool)
        ensures
            r == self@.dirs.contains(path@),
    {
        let key: String = String::from_str(path);
        let mut i: usize = 0;
        while i < self.dirs.len()
            invariant
                i <= self.dirs.len(),
                key@ == path@,
                forall|j: int| 0 <= j < i ==> (#[trigger] self.dirs@[j])@ != path@,
            decreases self.dirs.len() - i,
        {
            if self.dirs[i] == key {
                return true;
            }
            i += 1;
        }
        false
    }

    fn find_file(&self, path: &str) -> (r: Option<usize>)
        ensures
            r is Some == self@.files.dom().contains(path@),
            r matches Some(i) ==> i < self.files.len() && self.files@[i as int]@
                == self@.files[path@],
    {
        let key: String = String::from_str(path);
        let mut i: usize = self.files.len();
        while i > 0
            invariant
                i <= self.files.len(),
                key@ == path@,
                forall|j: int| i <= j < self.files.len() ==> (#[trigger] self.files@[j]).path@ != path@,
            decreases i,
        {
            i -= 1;
            if self.files[i].path == key {
                proof {
                    file_found(self.files@, path@, i as int);
                }
                return Some(i);
            }
        }
        proof {
            file_absent(self.files@, path@);
        }
        None
    }

    /// Whether a regular file exists at `path`.
    pub fn is_file(&self, path: &str) -> (r: bool)
        ensures
            r == self@.files.dom().contains(path@),
    {
        self.find_file(path).is_some()
    }

    /// The bytes of the file at `path`, if there is one.
    pub fn content(&self, path: &str) -> (r: Option<&Vec<u8>>)
        ensures
            r is Some == self@.files.dom().contains(path@),
            r matches Some(bytes) ==> bytes@ == self@.files[path@].content,
    {
        match self.find_file(path) {
            Some(i) => Some(&self.files[i].content),
            None => None,
        }
    }

    /// Whether an executable file exists at `path`.
    pub fn is_executable(&self, path: &str) -> (r: bool)
        ensures
            r == (self@.files.dom().contains(path@) && self@.files[path@].executable),
    {
        match self.find_file(path) {
            Some(i) => self.files[i].executable,
            None => false,
        }
    }

    /// No directory is listed twice.
    pub closed spec fn wf(&self) -> bool {
        distinct(self.dirs@)
    }

    /// How many directories exist.
    pub fn dir_count(&self) -> (r: usize)
        requires
            self.wf(),
        ensures
            self@.dirs.finite(),
            r == self@.dirs.len(),
    {
        proof {
            dirs_counted(self.dirs@);
        }
        self.dirs.len()
    }

    fn put_dir(&mut self, path: &str)
        requires
            old(self).wf(),
            !old(self)@.dirs.contains(path@),
        ensures
            final(self)@ == old(self)@.with_dir(path@),
            final(self).wf(),
    {
        self.dirs.push(String::from_str(path));
        proof {
            let before = old(self).dirs@;
            let after = self.dirs@;
            assert(after[before.len() as int]@ == path@);
            assert forall|p: Seq<char>|
                dirs_of(after).contains(p) == dirs_of(before).insert(path@).contains(p) by {
                if dirs_of(before).contains(p) {
                    let i = choose|i: int| 0 <= i < before.len() && #[trigger] before[i]@ == p;
                    assert(after[i]@ == p);
                }
                if dirs_of(after).contains(p) && p != path@ {
                    let i = choose|i: int| 0 <= i < after.len() && #[trigger] after[i]@ == p;
                    assert(before[i]@ == p);
                }
            }
            assert(dirs_of(after) =~= dirs_of(before).insert(path@));
        }
    }

    fn put_file(&mut self, path: &str, content: Vec<u8>)
        ensures
            final(self)@ == old(self)@.with_file(path@, content@),
            old(self).wf() ==> final(self).wf(),
    {
        let executable: bool = self.is_executable(path);
        self.files.push(MemFile { path: String::from_str(path), content, executable });
        proof {
            assert(self.files@.drop_last() =~= old(self).files@);
        }
    }

    fn put_script(&mut self, path: &str, text: &str)
        ensures
            final(self)@ == old(self)@.with_script(path@, vstd::utf8::encode_utf8(text@)),
            old(self).wf() ==> final(self).wf(),
    {
        let mut content: Vec<u8> = text.as_bytes_vec();
        let mut executable: bool = true;
        match self.find_file(path) {
            Some(i) => {
                executable = self.files[i].executable;
                if self.files[i].content.len() > content.len() {
                    let start: usize = content.len();
                    copy_from(&self.files[i].content, start, &mut content);
                }
            },
            None => {},
        }
        self.files.push(MemFile { path: String::from_str(path), content, executable });
        proof {
            assert(self.files@.drop_last() =~= old(self).files@);
        }
    }

    fn blocked(&self, path: &str) -> (r: Option<Cause>)
        ensures
            r == self@.blocked(path@),
    {
        match parent(path) {
            None => None,
            Some(dir) => {
                if dir.unicode_len() == 0 || self.is_dir(dir) {
                    None
                } else if self.is_file(dir) {
                    Some(Cause::Other)
                } else {
                    Some(Cause::NotFound)
                }
            },
        }
    }

    /// Why the model refuses `action` on this filesystem, if it does.
    pub fn refusal(&self, action: &Action, body: Option<&Vec<u8>>) -> (r: Option<Cause>)
        ensures
            r == refusal(self@, action@, body_view(body)),
    {
        let path: &str = action.target().as_str();
        let fetches: bool = match action {
            Action::Fetch { .. } => true,
            _ => false,
        };
        let makes_dir: bool = match action {
            Action::CreateDir { .. } => true,
            _ => false,
        };
        if fetches && body.is_none() {
            return Some(Cause::Network);
        }
        let blocked: Option<Cause> = self.blocked(path);
        if blocked.is_some() {
            blocked
        } else if makes_dir {
            if self.is_dir(path) || self.is_file(path) {
                Some(Cause::AlreadyExists)
            } else {
                self.denial(path)
            }
        } else if self.is_dir(path) {
            Some(Cause::Other)
        } else {
            self.denial(path)
        }
    }

    fn denial(&self, path: &str) -> (r: Option<Cause>)
        ensures
            r is Some == self@.denied.dom().contains(path@),
            r matches Some(cause) ==> cause == self@.denied[path@],
    {
        let key: String = String::from_str(path);
        match &self.denied {
            Some(denial) => if denial.path == key {
                Some(denial.cause)
            } else {
                None
            },
            None => None,
        }
    }

    /// Lets nothing be created at `path` from now on, for `cause`. An
    /// earlier denial ends.
    pub fn deny(&mut self, path: &str, cause: Cause)
        ensures
            old(self).wf() ==> final(self).wf(),
            final(self)@ == (Disk {
                dirs: old(self)@.dirs,
                files: old(self)@.files,
                denied: Map::empty().insert(path@, cause),
            }),
    {
        self.denied = Some(Denial { path: String::from_str(path), cause });
    }

    /// Performs one action as the model does. `body` is what the remote
    /// address answers: `None` where the request fails.
    pub fn apply(&mut self, action: &Action, body: Option<&Vec<u8>>) -> (r: Result<
        (),
        ProvisioningError,
    >)
        requires
            old(self).wf(),
        ensures
            final(self).wf(),
            match perform(old(self)@, action@, body_view(body)) {
                Ok(d) => r is Ok && final(self)@ == d,
                Err(e) => error_view(r) == Some(e) && final(self)@ == old(self)@,
            },
    {
        match self.refusal(action, body) {
            Some(cause) => {
                return Err(failure(action, cause));
            },
            None => {},
        }
        match action {
            Action::CreateDir { path } => {
                self.put_dir(path.as_str());
            },
            Action::CreateFile { path } => {
                self.put_file(path.as_str(), Vec::new());
            },
            Action::WriteScript { path, content } => {
                self.put_script(path.as_str(), content.as_str());
            },
            Action::Fetch { url, path } => {
                let mut content: Vec<u8> = Vec::new();
                match body {
                    Some(bytes) => {
                        copy_from(bytes, 0, &mut content);
                        proof {
                            assert(content@ =~= bytes@);
                        }
                    },
                    None => {},
                }
                self.put_file(path.as_str(), content);
            },
        }
        Ok(())
    }

    /// Performs the actions of `plan` in order and stops at the first that
    /// fails; what was created before stays.
    pub fn execute(&mut self, plan: &Vec<Action>, body: Option<&Vec<u8>>) -> (r: Result<
        (),
        ProvisioningError,
    >)
        requires
            old(self).wf(),
        ensures
            final(self).wf(),
            execute(old(self)@, plan_view(plan@), body_view(body)) == (Outcome {
                disk: final(self)@,
                error: error_view(r),
            }),
    {
        let ghost whole = plan_view(plan@);
        let mut i: usize = 0;
        proof {
            assert(whole.skip(0) =~= whole);
        }
        while i < plan.len()
            invariant
                i <= plan.len(),
                self.wf(),
                whole == plan_view(plan@),
                execute(old(self)@, whole, body_view(body)) == execute(
                    self@,
                    whole.skip(i as int),
                    body_view(body),
                ),
            decreases plan.len() - i,
        {
            proof {
                assert(whole.skip(i as int)[0] == plan@[i as int]@);
                assert(whole.skip(i as int).skip(1) =~= whole.skip(i as int + 1));
            }
            match self.apply(&plan[i], body) {
                Ok(_) => {},
                Err(e) => {
                    return Err(e);
                },
            }
            i += 1;
        }
        Ok(())
    }
}

} // verus!
