//! What provisioning leaves on the model filesystem.
use vstd::prelude::*;
use vstd::utf8::encode_utf8;
use crate::config::{is_separator, valid_label, ChalType, ConfigView};
use crate::disk::{within, parent_found, parent_of, execute_stops, execute, execute_concat, execute_keeps, execute_push, perform, Disk, FileView, Outcome};
use crate::error::{failure_of, ErrorView};
use crate::plan::{
    build_script, build_script_path, dockerfile_path, dockerfile_plan, flag_path, flag_plan,
    inner_plan, join, outer_plan, public_path, readme_path, root_path, run_plan, run_script,
    run_script_path, scripts_plan, setup_path, skeleton_plan, solution_path, template_path,
    template_plan, template_url, ActionView,
};

verus! {

/// An empty file that nobody may execute.
pub open spec fn placeholder() -> FileView {
    FileView { content: Seq::empty(), executable: false }
}

/// An executable file that holds `text`.
pub open spec fn script(text: Seq<char>) -> FileView {
    FileView { content: encode_utf8(text), executable: true }
}

/// The directories of a challenge: the root and its three subdirectories.
pub open spec fn created_dirs(c: ConfigView) -> Set<Seq<char>> {
    set![root_path(c), setup_path(c), public_path(c), solution_path(c)]
}

/// The files that the outer skeleton holds.
pub open spec fn outer_files(c: ConfigView) -> Set<Seq<char>> {
    if c.docker {
        set![readme_path(c), build_script_path(c), run_script_path(c)]
    } else {
        set![readme_path(c)]
    }
}

/// The files that the inner content adds.
pub open spec fn inner_files(c: ConfigView) -> Set<Seq<char>> {
    let fixed = if c.docker {
        set![flag_path(c), dockerfile_path(c)]
    } else {
        set![flag_path(c)]
    };
    if c.chal_type == ChalType::Pwn {
        fixed.insert(template_path(c))
    } else {
        fixed
    }
}

/// A joined path is longer than its base by the separator and the leaf,
/// and lies below the base and below whatever the base lies within. Where
/// the leaf is a single component, the base is the parent.
pub proof fn join_shape(base: Seq<char>, leaf: Seq<char>)
    ensures
        join(base, leaf).len() == base.len() + 1 + leaf.len(),
        within(base, join(base, leaf)),
        forall|root: Seq<char>| within(root, base) ==> within(root, join(base, leaf)),
        forall|i: int| 0 <= i < leaf.len() ==> join(base, leaf)[base.len() + 1 + i] == leaf[i],
        (forall|i: int| 0 <= i < leaf.len() ==> leaf[i] != '/') ==> parent_of(join(base, leaf))
            == Some(base),
{
    reveal_strlit("/");
    let whole = join(base, leaf);
    if forall|i: int| 0 <= i < leaf.len() ==> leaf[i] != '/' {
        assert forall|j: int| base.len() < j < whole.len() implies whole[j] != '/' by {
            assert(whole[j] == leaf[j - base.len() - 1]);
        }
        parent_found(whole, base.len() as int);
        assert(whole.subrange(0, base.len() as int) =~= base);
    }
    assert(whole.subrange(0, base.len() as int + 1) =~= base + "/"@);
    assert forall|root: Seq<char>| within(root, base) implies within(root, whole) by {
        if root != base {
            let stem = root + "/"@;
            assert(whole.subrange(0, stem.len() as int) =~= base.subrange(0, stem.len() as int));
        }
    }
}

/// The planned paths all lie below the root, at distances that tell every
/// directory from every other entry, and the readme from the public
/// directory. Each has the directory it is joined to as its parent.
pub proof fn path_shapes(c: ConfigView)
    ensures
        within(root_path(c), root_path(c)),
        within(root_path(c), setup_path(c)),
        within(root_path(c), public_path(c)),
        within(root_path(c), solution_path(c)),
        within(root_path(c), readme_path(c)),
        within(root_path(c), build_script_path(c)),
        within(root_path(c), run_script_path(c)),
        within(root_path(c), dockerfile_path(c)),
        within(root_path(c), flag_path(c)),
        within(root_path(c), template_path(c)),
        setup_path(c).len() == root_path(c).len() + 6,
        public_path(c).len() == root_path(c).len() + 7,
        solution_path(c).len() == root_path(c).len() + 9,
        readme_path(c).len() == root_path(c).len() + 7,
        build_script_path(c).len() == root_path(c).len() + 16,
        run_script_path(c).len() == root_path(c).len() + 14,
        dockerfile_path(c).len() == root_path(c).len() + 17,
        flag_path(c).len() == root_path(c).len() + 11,
        template_path(c).len() == root_path(c).len() + 21,
        readme_path(c) != public_path(c),
        valid_label(c.name) ==> parent_of(root_path(c)) == Some(c.directory),
        parent_of(setup_path(c)) == Some(root_path(c)),
        parent_of(public_path(c)) == Some(root_path(c)),
        parent_of(solution_path(c)) == Some(root_path(c)),
        parent_of(readme_path(c)) == Some(root_path(c)),
        parent_of(build_script_path(c)) == Some(root_path(c)),
        parent_of(run_script_path(c)) == Some(root_path(c)),
        parent_of(dockerfile_path(c)) == Some(setup_path(c)),
        parent_of(flag_path(c)) == Some(setup_path(c)),
        parent_of(template_path(c)) == Some(solution_path(c)),
{
    join_shape(c.directory, c.name);
    let root = root_path(c);
    reveal_strlit("setup");
    reveal_strlit("public");
    reveal_strlit("solution");
    reveal_strlit("readme");
    reveal_strlit("docker_build.sh");
    reveal_strlit("docker_run.sh");
    reveal_strlit("Dockerfile");
    reveal_strlit("flag");
    reveal_strlit("solution.py");
    join_shape(root, "setup"@);
    join_shape(root, "public"@);
    join_shape(root, "solution"@);
    join_shape(root, "readme"@);
    join_shape(root, "docker_build.sh"@);
    join_shape(root, "docker_run.sh"@);
    join_shape(setup_path(c), "Dockerfile"@);
    join_shape(setup_path(c), "flag"@);
    join_shape(solution_path(c), "solution.py"@);
    assert(readme_path(c)[root.len() as int + 1] == 'r');
    assert(public_path(c)[root.len() as int + 1] == 'p');
}

/// The filesystem is ready for the challenge: the name is a single path
/// component, the base directory exists, and nothing exists or is denied
/// at the root's place or below it.
pub open spec fn ready(d: Disk, c: ConfigView) -> bool {
    &&& valid_label(c.name)
    &&& d.dirs.contains(c.directory)
    &&& d.vacant_under(root_path(c))
}

/// Where nothing exists or is denied at the root's place or below it,
/// every planned path is free.
pub proof fn planned_places_free(c: ConfigView, d: Disk)
    requires
        d.vacant_under(root_path(c)),
    ensures
        d.free(root_path(c)),
        d.free(setup_path(c)),
        d.free(public_path(c)),
        d.free(solution_path(c)),
        d.free(readme_path(c)),
        d.free(build_script_path(c)),
        d.free(run_script_path(c)),
        d.free(dockerfile_path(c)),
        d.free(flag_path(c)),
        d.free(template_path(c)),
{
    path_shapes(c);
}

/// On a filesystem that is ready for the challenge, the part of the outer
/// skeleton that every challenge has succeeds and adds exactly the four
/// directories and the empty readme.
proof fn skeleton_result(c: ConfigView, d: Disk, body: Option<Seq<u8>>)
    requires
        ready(d, c),
    ensures
        execute(d, skeleton_plan(c), body) == (Outcome {
            disk: Disk {
                dirs: d.dirs.insert(root_path(c)).insert(setup_path(c)).insert(
                    public_path(c),
                ).insert(solution_path(c)),
                files: d.files.insert(readme_path(c), placeholder()),
                denied: d.denied,
            },
            error: None,
        }),
{
    path_shapes(c);
    let a0 = ActionView::CreateDir { path: root_path(c) };
    let a1 = ActionView::CreateDir { path: setup_path(c) };
    let a2 = ActionView::CreateDir { path: public_path(c) };
    let a3 = ActionView::CreateDir { path: solution_path(c) };
    let a4 = ActionView::CreateFile { path: readme_path(c) };
    let start = Seq::<ActionView>::empty();
    let upto1 = start.push(a0);
    let upto2 = upto1.push(a1);
    let upto3 = upto2.push(a2);
    let upto4 = upto3.push(a3);
    let d1 = d.with_dir(root_path(c));
    let d2 = d1.with_dir(setup_path(c));
    let d3 = d2.with_dir(public_path(c));
    let d4 = d3.with_dir(solution_path(c));
    planned_places_free(c, d);
    execute_push(d, start, a0, body);
    assert(execute(d, upto1, body) == Outcome { disk: d1, error: None });
    execute_push(d, upto1, a1, body);
    assert(execute(d, upto2, body) == Outcome { disk: d2, error: None });
    execute_push(d, upto2, a2, body);
    assert(execute(d, upto3, body) == Outcome { disk: d3, error: None });
    execute_push(d, upto3, a3, body);
    assert(execute(d, upto4, body) == Outcome { disk: d4, error: None });
    execute_push(d, upto4, a4, body);
    assert(skeleton_plan(c) == upto4.push(a4));
}

/// On a filesystem that is ready for the challenge, the outer skeleton
/// succeeds. It creates exactly one root and, inside it, exactly the three
/// subdirectories, which are new and differ from each other; an empty
/// readme; and in docker mode the two executable scripts with their text.
/// It creates no other file.
pub proof fn outer_structure(c: ConfigView, d: Disk, body: Option<Seq<u8>>)
    requires
        ready(d, c),
    ensures
        ({
            let o = execute(d, outer_plan(c), body);
            &&& o.error is None
            &&& o.disk.dirs == d.dirs + created_dirs(c)
            &&& o.disk.denied == d.denied
            &&& d.dirs.disjoint(created_dirs(c))
            &&& root_path(c) != setup_path(c) && root_path(c) != public_path(c) && root_path(c)
                != solution_path(c)
            &&& setup_path(c) != public_path(c) && setup_path(c) != solution_path(c)
                && public_path(c) != solution_path(c)
            &&& o.disk.files.dom() == d.files.dom() + outer_files(c)
            &&& d.files.dom().disjoint(outer_files(c))
            &&& o.disk.files[readme_path(c)] == placeholder()
            &&& c.docker ==> o.disk.files[build_script_path(c)] == script(build_script(c))
            &&& c.docker ==> o.disk.files[run_script_path(c)] == script(run_script(c))
            &&& forall|p: Seq<char>|
                d.files.dom().contains(p) ==> o.disk.files[p] == d.files[p]
        }),
{
    path_shapes(c);
    skeleton_result(c, d, body);
    execute_concat(d, skeleton_plan(c), scripts_plan(c), body);
    let s = execute(d, skeleton_plan(c), body).disk;
    let o = execute(d, outer_plan(c), body);
    planned_places_free(c, d);
    if c.docker {
        let b0 = ActionView::WriteScript { path: build_script_path(c), content: build_script(c) };
        let b1 = ActionView::WriteScript { path: run_script_path(c), content: run_script(c) };
        let none = Seq::<ActionView>::empty();
        let one = none.push(b0);
        let s1 = s.with_script(build_script_path(c), encode_utf8(build_script(c)));
        execute_push(s, none, b0, body);
        assert(execute(s, one, body) == Outcome { disk: s1, error: None });
        execute_push(s, one, b1, body);
        assert(scripts_plan(c) == one.push(b1));
        assert(o.disk.files.dom() =~= d.files.dom() + outer_files(c));
    } else {
        assert(o.disk.files.dom() =~= d.files.dom() + outer_files(c));
    }
    assert(o.disk.dirs =~= d.dirs + created_dirs(c));
}

/// The file that holds a fetched template: the response's bytes as they
/// came, and not executable.
pub open spec fn fetched(bytes: Seq<u8>) -> FileView {
    FileView { content: bytes, executable: false }
}

/// The inner content, on a filesystem that holds the setup and solution
/// directories, and where the three paths are free: the files are created in order, and only a fetch without a
/// response fails, after the placeholders were created.
proof fn inner_result(c: ConfigView, s: Disk, body: Option<Seq<u8>>)
    requires
        s.free(dockerfile_path(c)),
        s.free(flag_path(c)),
        s.free(template_path(c)),
        s.dirs.contains(setup_path(c)),
        s.dirs.contains(solution_path(c)),
    ensures
        ({
            let o = execute(s, inner_plan(c), body);
            let fails = c.chal_type == ChalType::Pwn && body is None;
            &&& o.error == if fails {
                Some(ErrorView::Fetch { url: template_url() })
            } else {
                None
            }
            &&& o.disk.dirs == s.dirs
            &&& o.disk.denied == s.denied
            &&& o.disk.files.dom() == s.files.dom() + if fails {
                inner_files(c).remove(template_path(c))
            } else {
                inner_files(c)
            }
            &&& o.disk.files[flag_path(c)] == placeholder()
            &&& c.docker ==> o.disk.files[dockerfile_path(c)] == placeholder()
            &&& c.chal_type == ChalType::Pwn && body is Some ==> o.disk.files[template_path(c)]
                == fetched(body.unwrap())
            &&& forall|p: Seq<char>|
                s.files.dom().contains(p) ==> o.disk.files[p] == s.files[p]
        }),
{
    path_shapes(c);
    let a0 = ActionView::CreateFile { path: dockerfile_path(c) };
    let a1 = ActionView::CreateFile { path: flag_path(c) };
    let a2 = ActionView::Fetch { url: template_url(), path: template_path(c) };
    let start = Seq::<ActionView>::empty();
    let s1 = if c.docker {
        s.with_file(dockerfile_path(c), Seq::empty())
    } else {
        s
    };
    let s2 = s1.with_file(flag_path(c), Seq::empty());
    if c.docker {
        execute_push(s, start, a0, body);
        assert(dockerfile_plan(c) == start.push(a0));
    }
    assert(execute(s, dockerfile_plan(c), body) == Outcome { disk: s1, error: None });
    execute_push(s1, start, a1, body);
    assert(flag_plan(c) == start.push(a1));
    assert(execute(s1, flag_plan(c), body) == Outcome { disk: s2, error: None });
    execute_concat(s, dockerfile_plan(c), flag_plan(c), body);
    if c.chal_type == ChalType::Pwn {
        execute_push(s2, start, a2, body);
        assert(template_plan(c) == start.push(a2));
    }
    execute_concat(s, dockerfile_plan(c) + flag_plan(c), template_plan(c), body);
    let o = execute(s, inner_plan(c), body);
    let fails = c.chal_type == ChalType::Pwn && body is None;
    assert(o.disk.files.dom() =~= s.files.dom() + if fails {
        inner_files(c).remove(template_path(c))
    } else {
        inner_files(c)
    });
}

/// A whole run on a filesystem that is ready for the challenge. Only the
/// fetch of a Pwn challenge can fail, and then everything else was created.
/// The run creates exactly the four directories. Its files are exactly the
/// readme and the flag placeholder, both empty; in docker mode also the two
/// executable scripts with their text and the empty Dockerfile; and for a
/// Pwn challenge the template, which holds the bytes of the response
/// unchanged. Every file that existed before is as it was, and nothing
/// else exists at the root or below it.
pub proof fn run_structure(c: ConfigView, d: Disk, body: Option<Seq<u8>>)
    requires
        ready(d, c),
    ensures
        ({
            let o = execute(d, run_plan(c), body);
            let fails = c.chal_type == ChalType::Pwn && body is None;
            &&& o.error == if fails {
                Some(ErrorView::Fetch { url: template_url() })
            } else {
                None
            }
            &&& o.disk.dirs == d.dirs + created_dirs(c)
            &&& o.disk.denied == d.denied
            &&& d.dirs.disjoint(created_dirs(c))
            &&& o.disk.files.dom() == d.files.dom() + outer_files(c) + if fails {
                inner_files(c).remove(template_path(c))
            } else {
                inner_files(c)
            }
            &&& d.files.dom().disjoint(outer_files(c) + inner_files(c))
            &&& o.disk.files[readme_path(c)] == placeholder()
            &&& o.disk.files[flag_path(c)] == placeholder()
            &&& c.docker ==> o.disk.files[build_script_path(c)] == script(build_script(c))
            &&& c.docker ==> o.disk.files[run_script_path(c)] == script(run_script(c))
            &&& c.docker ==> o.disk.files[dockerfile_path(c)] == placeholder()
            &&& c.chal_type == ChalType::Pwn && body is Some ==> o.disk.files[template_path(c)]
                == fetched(body.unwrap())
            &&& forall|p: Seq<char>|
                d.files.dom().contains(p) ==> o.disk.files[p] == d.files[p]
            &&& forall|p: Seq<char>|
                within(root_path(c), p) && #[trigger] o.disk.occupied(p) ==> created_dirs(
                    c,
                ).contains(p) || outer_files(c).contains(p) || inner_files(c).contains(p)
        }),
{
    path_shapes(c);
    outer_structure(c, d, body);
    let s = execute(d, outer_plan(c), body).disk;
    planned_places_free(c, d);
    inner_result(c, s, body);
    execute_concat(d, outer_plan(c), inner_plan(c), body);
    let o = execute(d, run_plan(c), body);
    assert forall|p: Seq<char>|
        within(root_path(c), p) && #[trigger] o.disk.occupied(p) implies created_dirs(
        c,
    ).contains(p) || outer_files(c).contains(p) || inner_files(c).contains(p) by {
        assert(d.free(p));
    }
}

/// Docker mode decides the docker artifacts. Without it, after a run none
/// of the two scripts and the Dockerfile exists. With it all three exist,
/// and the scripts are executable and hold exactly their text, the author
/// and the name written out.
pub proof fn docker_artifacts(c: ConfigView, d: Disk, body: Option<Seq<u8>>)
    requires
        ready(d, c),
    ensures
        ({
            let o = execute(d, run_plan(c), body);
            if c.docker {
                &&& o.disk.files.dom().contains(build_script_path(c))
                &&& o.disk.files.dom().contains(run_script_path(c))
                &&& o.disk.files.dom().contains(dockerfile_path(c))
                &&& o.disk.files[build_script_path(c)] == script(build_script(c))
                &&& o.disk.files[run_script_path(c)] == script(run_script(c))
            } else {
                &&& !o.disk.occupied(build_script_path(c))
                &&& !o.disk.occupied(run_script_path(c))
                &&& !o.disk.occupied(dockerfile_path(c))
            }
        }),
{
    path_shapes(c);
    run_structure(c, d, body);
    planned_places_free(c, d);
}

/// Only a Pwn challenge has a solution template: for any other category
/// the plan holds no fetch, so no request is made, and after the run no
/// template exists.
pub proof fn template_only_for_pwn(c: ConfigView, d: Disk, body: Option<Seq<u8>>)
    requires
        ready(d, c),
        c.chal_type != ChalType::Pwn,
    ensures
        forall|i: int| 0 <= i < run_plan(c).len() ==> !(#[trigger] run_plan(c)[i] is Fetch),
        execute(d, run_plan(c), body).error is None,
        !execute(d, run_plan(c), body).disk.occupied(template_path(c)),
{
    path_shapes(c);
    run_structure(c, d, body);
    planned_places_free(c, d);
}

/// The template of a Pwn challenge holds the response's bytes exactly.
pub proof fn template_round_trip(c: ConfigView, d: Disk, bytes: Seq<u8>)
    requires
        ready(d, c),
        c.chal_type == ChalType::Pwn,
    ensures
        execute(d, run_plan(c), Some(bytes)).error is None,
        execute(d, run_plan(c), Some(bytes)).disk.files.dom().contains(template_path(c)),
        execute(d, run_plan(c), Some(bytes)).disk.files[template_path(c)].content == bytes,
{
    run_structure(c, d, Some(bytes));
}

/// Where the root's place is taken and its parent is there, a run fails
/// at once with `AlreadyExists` for the root, and changes nothing.
pub proof fn occupied_root_refuses(c: ConfigView, d: Disk, body: Option<Seq<u8>>)
    requires
        d.occupied(root_path(c)),
        d.blocked(root_path(c)) is None,
    ensures
        execute(d, run_plan(c), body) == (Outcome {
            disk: d,
            error: Some(ErrorView::AlreadyExists { path: root_path(c) }),
        }),
        execute(d, outer_plan(c), body) == (Outcome {
            disk: d,
            error: Some(ErrorView::AlreadyExists { path: root_path(c) }),
        }),
{
    assert(skeleton_plan(c)[0] == ActionView::CreateDir { path: root_path(c) });
    assert(outer_plan(c)[0] == ActionView::CreateDir { path: root_path(c) });
    assert(run_plan(c)[0] == ActionView::CreateDir { path: root_path(c) });
}

/// Where the base directory is missing, a run fails at once with
/// `PathNotFound` for the root, and changes nothing: no parent is made.
pub proof fn missing_base_refuses(c: ConfigView, d: Disk, body: Option<Seq<u8>>)
    requires
        valid_label(c.name),
        c.directory.len() > 0,
        !d.occupied(c.directory),
    ensures
        execute(d, run_plan(c), body) == (Outcome {
            disk: d,
            error: Some(ErrorView::PathNotFound { path: root_path(c) }),
        }),
        execute(d, outer_plan(c), body) == (Outcome {
            disk: d,
            error: Some(ErrorView::PathNotFound { path: root_path(c) }),
        }),
{
    path_shapes(c);
    assert(skeleton_plan(c)[0] == ActionView::CreateDir { path: root_path(c) });
    assert(outer_plan(c)[0] == ActionView::CreateDir { path: root_path(c) });
    assert(run_plan(c)[0] == ActionView::CreateDir { path: root_path(c) });
}

/// The first file of the inner content: the Dockerfile in docker mode,
/// else the flag placeholder.
pub open spec fn first_inner_path(c: ConfigView) -> Seq<char> {
    if c.docker {
        dockerfile_path(c)
    } else {
        flag_path(c)
    }
}

/// Where the setup directory is missing, the inner content fails at its
/// first file with `PathNotFound`, and changes nothing: no directory is
/// made, and the fetch is not reached, whatever the category and the
/// network.
pub proof fn missing_setup_refuses(c: ConfigView, d: Disk, body: Option<Seq<u8>>)
    requires
        d.free(setup_path(c)),
    ensures
        execute(d, inner_plan(c), body) == (Outcome {
            disk: d,
            error: Some(ErrorView::PathNotFound { path: first_inner_path(c) }),
        }),
{
    path_shapes(c);
    let first = ActionView::CreateFile { path: first_inner_path(c) };
    assert(inner_plan(c)[0] == first) by {
        if c.docker {
            assert(dockerfile_plan(c)[0] == first);
        } else {
            assert(flag_plan(c)[0] == first);
        }
    }
}

/// A run that succeeded has made the root, and the root's parent is still
/// there.
pub proof fn run_occupies_root(c: ConfigView, d: Disk, body: Option<Seq<u8>>)
    requires
        execute(d, run_plan(c), body).error is None,
    ensures
        execute(d, run_plan(c), body).disk.occupied(root_path(c)),
        execute(d, run_plan(c), body).disk.blocked(root_path(c)) is None,
{
    let first = ActionView::CreateDir { path: root_path(c) };
    assert(skeleton_plan(c)[0] == first);
    assert(outer_plan(c)[0] == first);
    assert(run_plan(c)[0] == first);
    match perform(d, first, body) {
        Err(e) => {},
        Ok(next) => {
            assert(next.blocked(root_path(c)) is None);
            execute_keeps(next, run_plan(c).skip(1), body, root_path(c));
        },
    }
}

/// Running twice with the same name and base directory: after a first run
/// that succeeded, the second fails with `AlreadyExists` for the root and
/// leaves the filesystem as the first run left it, whatever the network
/// answers.
pub proof fn second_run_refused(
    c: ConfigView,
    d: Disk,
    first_body: Option<Seq<u8>>,
    second_body: Option<Seq<u8>>,
)
    requires
        execute(d, run_plan(c), first_body).error is None,
    ensures
        execute(execute(d, run_plan(c), first_body).disk, run_plan(c), second_body) == (Outcome {
            disk: execute(d, run_plan(c), first_body).disk,
            error: Some(ErrorView::AlreadyExists { path: root_path(c) }),
        }),
{
    run_occupies_root(c, d, first_body);
    occupied_root_refuses(c, execute(d, run_plan(c), first_body).disk, second_body);
}

/// The root of a valid descriptor is a direct child of the base directory:
/// the base, one separator, and the name, which holds no separator.
pub proof fn root_directly_under_base(c: ConfigView)
    requires
        c.wf(),
    ensures
        root_path(c).len() == c.directory.len() + 1 + c.name.len(),
        root_path(c).subrange(0, c.directory.len() as int) == c.directory,
        root_path(c)[c.directory.len() as int] == '/',
        forall|i: int|
            c.directory.len() < i < root_path(c).len() ==> !is_separator(
                #[trigger] root_path(c)[i],
            ),
{
    reveal_strlit("/");
    let root = root_path(c);
    assert(root.subrange(0, c.directory.len() as int) =~= c.directory);
    assert forall|i: int| c.directory.len() < i < root.len() implies !is_separator(
        #[trigger] root[i],
    ) by {
        assert(root[i] == c.name[i - c.directory.len() - 1]);
    }
}

/// The subdirectories in the order in which they are made: the first is
/// setup, the second public, any other solution.
pub open spec fn subdirectory(c: ConfigView, k: int) -> Seq<char> {
    if k == 1 {
        setup_path(c)
    } else if k == 2 {
        public_path(c)
    } else {
        solution_path(c)
    }
}

/// The filesystem once the root and the subdirectories before the `k`-th
/// were made.
pub open spec fn made_before(d: Disk, c: ConfigView, k: int) -> Disk {
    let rooted = d.with_dir(root_path(c));
    if k == 1 {
        rooted
    } else if k == 2 {
        rooted.with_dir(setup_path(c))
    } else {
        rooted.with_dir(setup_path(c)).with_dir(public_path(c))
    }
}

/// Where the operating system denies the `k`-th subdirectory and nothing
/// else, the run fails with the error of that denial. The root and the
/// subdirectories before the `k`-th stay; the `k`-th, the later ones, the
/// readme and everything else are not made, and nothing is undone.
pub proof fn refused_subdirectory(c: ConfigView, d: Disk, body: Option<Seq<u8>>, k: int)
    requires
        1 <= k <= 3,
        valid_label(c.name),
        d.dirs.contains(c.directory),
        forall|p: Seq<char>| within(root_path(c), p) ==> !(#[trigger] d.occupied(p)),
        d.denied.dom().contains(subdirectory(c, k)),
        forall|p: Seq<char>|
            within(root_path(c), p) && p != subdirectory(c, k) ==> !(
            #[trigger] d.denied.dom().contains(p)),
    ensures
        execute(d, outer_plan(c), body) == (Outcome {
            disk: made_before(d, c, k),
            error: Some(
                failure_of(
                    ActionView::CreateDir { path: subdirectory(c, k) },
                    d.denied[subdirectory(c, k)],
                ),
            ),
        }),
        execute(d, run_plan(c), body) == execute(d, outer_plan(c), body),
{
    path_shapes(c);
    let a0 = ActionView::CreateDir { path: root_path(c) };
    let a1 = ActionView::CreateDir { path: setup_path(c) };
    let a2 = ActionView::CreateDir { path: public_path(c) };
    let a3 = ActionView::CreateDir { path: solution_path(c) };
    let outer = outer_plan(c);
    let whole = run_plan(c);
    assert(skeleton_plan(c)[0] == a0 && skeleton_plan(c)[1] == a1 && skeleton_plan(c)[2] == a2
        && skeleton_plan(c)[3] == a3);
    assert(outer[0] == a0 && outer[1] == a1 && outer[2] == a2 && outer[3] == a3);
    assert(whole[0] == a0 && whole[1] == a1 && whole[2] == a2 && whole[3] == a3);
    assert(!d.occupied(root_path(c)) && !d.occupied(setup_path(c)) && !d.occupied(public_path(c))
        && !d.occupied(solution_path(c)));
    assert(!d.denied.dom().contains(root_path(c)));
    let start = Seq::<ActionView>::empty();
    let upto1 = start.push(a0);
    let upto2 = upto1.push(a1);
    let upto3 = upto2.push(a2);
    let d1 = d.with_dir(root_path(c));
    let d2 = d1.with_dir(setup_path(c));
    let d3 = d2.with_dir(public_path(c));
    execute_push(d, start, a0, body);
    assert(execute(d, upto1, body) == Outcome { disk: d1, error: None });
    if k >= 2 {
        assert(!d.denied.dom().contains(setup_path(c)));
        execute_push(d, upto1, a1, body);
        assert(execute(d, upto2, body) == Outcome { disk: d2, error: None });
    }
    if k >= 3 {
        assert(!d.denied.dom().contains(public_path(c)));
        execute_push(d, upto2, a2, body);
        assert(execute(d, upto3, body) == Outcome { disk: d3, error: None });
    }
    let before = if k == 1 {
        upto1
    } else if k == 2 {
        upto2
    } else {
        upto3
    };
    assert(outer.take(k) =~= before);
    assert(whole.take(k) =~= before);
    execute_stops(d, outer, k, body);
    execute_stops(d, whole, k, body);
}

} // verus!
