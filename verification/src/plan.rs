//! The actions that provision a challenge, in the order in which they run.
use vstd::prelude::*;
use vstd::string::*;
use crate::config::{ChalConfig, ChalType, ConfigView};

verus! {

/// One step of provisioning, with every path written out in full.
#[derive(Clone, Debug, PartialEq, Eq)]
pub enum Action {
    /// Create a new directory; an existing entry at `path` is an error.
    CreateDir { path: String },
    /// Create an empty regular file.
    CreateFile { path: String },
    /// Create a file with mode `SCRIPT_MODE` where none exists, and write
    /// `content` to its start.
    WriteScript { path: String, content: String },
    /// Fetch `url` with one GET and stream the response body into a new file.
    Fetch { url: String, path: String },
}

/// The mode of a new script: its owner may read, write and execute it,
/// everyone else read and execute.
pub const SCRIPT_MODE: u32 = 0o755;

/// The mathematical value of an [`Action`].
pub enum ActionView {
    CreateDir { path: Seq<char> },
    CreateFile { path: Seq<char> },
    WriteScript { path: Seq<char>, content: Seq<char> },
    Fetch { url: Seq<char>, path: Seq<char> },
}

impl View for Action {
    type V = ActionView;

    open spec fn view(&self) -> ActionView {
        match self {
            Action::CreateDir { path } => ActionView::CreateDir { path: path@ },
            Action::CreateFile { path } => ActionView::CreateFile { path: path@ },
            Action::WriteScript { path, content } => ActionView::WriteScript {
                path: path@,
                content: content@,
            },
            Action::Fetch { url, path } => ActionView::Fetch { url: url@, path: path@ },
        }
    }
}

impl ActionView {
    /// The filesystem entry that the action creates.
    pub open spec fn target(self) -> Seq<char> {
        match self {
            ActionView::CreateDir { path } => path,
            ActionView::CreateFile { path } => path,
            ActionView::WriteScript { path, .. } => path,
            ActionView::Fetch { path, .. } => path,
        }
    }
}

/// The views of a sequence of actions, in the same order.
pub open spec fn plan_view(plan: Seq<Action>) -> Seq<ActionView> {
    plan.map_values(|a: Action| a@)
}

/// `leaf` directly under `base`.
pub open spec fn join(base: Seq<char>, leaf: Seq<char>) -> Seq<char> {
    base + "/"@ + leaf
}

/// The challenge root: the challenge's name under the base directory.
pub open spec fn root_path(c: ConfigView) -> Seq<char> {
    join(c.directory, c.name)
}

/// The text of the script that builds the challenge's image.
pub open spec fn build_script(c: ConfigView) -> Seq<char> {
    "#!/usr/bin/bash\ndocker build -t "@ + c.author + "/"@ + c.name + " setup/"@
}

/// The text of the script that runs the challenge's image.
pub open spec fn run_script(c: ConfigView) -> Seq<char> {
    "#!/usr/bin/bash\ndocker run -p 69666:69666 -d "@ + c.author + "/"@ + c.name
}

/// Where the solution template of a Pwn challenge is fetched from.
pub open spec fn template_url() -> Seq<char> {
    "https://gist.githubusercontent.com/the-rectifier/9af60d9d85e2600708e582505060258b/raw/8faedc9c67728afa853386aa41a7df873863e0b7/solution.py"@
}

/// The three fixed subdirectories of the root.
pub open spec fn setup_path(c: ConfigView) -> Seq<char> {
    join(root_path(c), "setup"@)
}

pub open spec fn public_path(c: ConfigView) -> Seq<char> {
    join(root_path(c), "public"@)
}

pub open spec fn solution_path(c: ConfigView) -> Seq<char> {
    join(root_path(c), "solution"@)
}

/// The files directly under the root.
pub open spec fn readme_path(c: ConfigView) -> Seq<char> {
    join(root_path(c), "readme"@)
}

pub open spec fn build_script_path(c: ConfigView) -> Seq<char> {
    join(root_path(c), "docker_build.sh"@)
}

pub open spec fn run_script_path(c: ConfigView) -> Seq<char> {
    join(root_path(c), "docker_run.sh"@)
}

/// The files inside the subdirectories.
pub open spec fn dockerfile_path(c: ConfigView) -> Seq<char> {
    join(setup_path(c), "Dockerfile"@)
}

pub open spec fn flag_path(c: ConfigView) -> Seq<char> {
    join(setup_path(c), "flag"@)
}

pub open spec fn template_path(c: ConfigView) -> Seq<char> {
    join(solution_path(c), "solution.py"@)
}

/// The part of the outer skeleton that every challenge has: the root, its
/// three subdirectories in fixed order, and the empty readme.
pub open spec fn skeleton_plan(c: ConfigView) -> Seq<ActionView> {
    seq![
        ActionView::CreateDir { path: root_path(c) },
        ActionView::CreateDir { path: setup_path(c) },
        ActionView::CreateDir { path: public_path(c) },
        ActionView::CreateDir { path: solution_path(c) },
        ActionView::CreateFile { path: readme_path(c) },
    ]
}

/// The two scripts, in docker mode only.
pub open spec fn scripts_plan(c: ConfigView) -> Seq<ActionView> {
    if c.docker {
        seq![
            ActionView::WriteScript { path: build_script_path(c), content: build_script(c) },
            ActionView::WriteScript { path: run_script_path(c), content: run_script(c) },
        ]
    } else {
        Seq::empty()
    }
}

/// The outer skeleton: what every challenge has, then the scripts.
pub open spec fn outer_plan(c: ConfigView) -> Seq<ActionView> {
    skeleton_plan(c) + scripts_plan(c)
}

/// The Dockerfile, in docker mode only.
pub open spec fn dockerfile_plan(c: ConfigView) -> Seq<ActionView> {
    if c.docker {
        seq![ActionView::CreateFile { path: dockerfile_path(c) }]
    } else {
        Seq::empty()
    }
}

/// The flag placeholder, whatever the mode.
pub open spec fn flag_plan(c: ConfigView) -> Seq<ActionView> {
    seq![ActionView::CreateFile { path: flag_path(c) }]
}

/// The solution template, for a Pwn challenge only.
pub open spec fn template_plan(c: ConfigView) -> Seq<ActionView> {
    if c.chal_type == ChalType::Pwn {
        seq![ActionView::Fetch { url: template_url(), path: template_path(c) }]
    } else {
        Seq::empty()
    }
}

/// The inner content: the Dockerfile in docker mode, the flag placeholder
/// always, the solution template for a Pwn challenge.
pub open spec fn inner_plan(c: ConfigView) -> Seq<ActionView> {
    dockerfile_plan(c) + flag_plan(c) + template_plan(c)
}

/// A whole run: the outer skeleton, then the inner content.
pub open spec fn run_plan(c: ConfigView) -> Seq<ActionView> {
    outer_plan(c) + inner_plan(c)
}

/// The path of `leaf` directly under `base`.
pub fn join_path(base: &String, leaf: &str) -> (r: String)
    ensures
        r@ == join(base@, leaf@),
{
    let mut r: String = base.clone();
    r.append("/");
    r.append(leaf);
    r
}

/// The path of the challenge root.
pub fn root_of(chal: &ChalConfig) -> (r: String)
    ensures
        r@ == root_path(chal@),
{
    join_path(&chal.directory, chal.name.as_str())
}

fn build_script_text(chal: &ChalConfig) -> (r: String)
    ensures
        r@ == build_script(chal@),
{
    let mut r: String = String::from_str("#!/usr/bin/bash\ndocker build -t ");
    r.append(chal.author.as_str());
    r.append("/");
    r.append(chal.name.as_str());
    r.append(" setup/");
    r
}

fn run_script_text(chal: &ChalConfig) -> (r: String)
    ensures
        r@ == run_script(chal@),
{
    let mut r: String = String::from_str("#!/usr/bin/bash\ndocker run -p 69666:69666 -d ");
    r.append(chal.author.as_str());
    r.append("/");
    r.append(chal.name.as_str());
    r
}

/// Lists the actions that build the outer skeleton of the challenge.
pub fn create_outer(chal: &ChalConfig) -> (plan: Vec<Action>)
    ensures
        plan_view(plan@) == outer_plan(chal@),
{
    let root: String = root_of(chal);
    let mut plan: Vec<Action> = Vec::new();
    plan.push(Action::CreateDir { path: root.clone() });
    plan.push(Action::CreateDir { path: join_path(&root, "setup") });
    plan.push(Action::CreateDir { path: join_path(&root, "public") });
    plan.push(Action::CreateDir { path: join_path(&root, "solution") });
    plan.push(Action::CreateFile { path: join_path(&root, "readme") });
    if chal.docker {
        plan.push(
            Action::WriteScript {
                path: join_path(&root, "docker_build.sh"),
                content: build_script_text(chal),
            },
        );
        plan.push(
            Action::WriteScript {
                path: join_path(&root, "docker_run.sh"),
                content: run_script_text(chal),
            },
        );
    }
    proof {
        assert(plan_view(plan@) =~= outer_plan(chal@));
    }
    plan
}

/// Lists the actions that fill the subdirectories of the challenge.
pub fn create_inner(chal: &ChalConfig) -> (plan: Vec<Action>)
    ensures
        plan_view(plan@) == inner_plan(chal@),
{
    let root: String = root_of(chal);
    let setup: String = join_path(&root, "setup");
    let mut plan: Vec<Action> = Vec::new();
    if chal.docker {
        plan.push(Action::CreateFile { path: join_path(&setup, "Dockerfile") });
    }
    plan.push(Action::CreateFile { path: join_path(&setup, "flag") });
    if chal.chal_type == ChalType::Pwn {
        let solution: String = join_path(&root, "solution");
        plan.push(
            Action::Fetch {
                url: String::from_str(
                    "https://gist.githubusercontent.com/the-rectifier/9af60d9d85e2600708e582505060258b/raw/8faedc9c67728afa853386aa41a7df873863e0b7/solution.py",
                ),
                path: join_path(&solution, "solution.py"),
            },
        );
    }
    proof {
        assert(plan_view(plan@) =~= inner_plan(chal@));
    }
    plan
}

/// Lists every action of a run: the outer skeleton first, then the inner
/// content. Whoever performs them stops at the first that fails.
pub fn run(chal: &ChalConfig) -> (plan: Vec<Action>)
    ensures
        plan_view(plan@) == run_plan(chal@),
{
    let mut plan: Vec<Action> = create_outer(chal);
    let mut inner: Vec<Action> = create_inner(chal);
    let ghost outer = plan@;
    let ghost rest = inner@;
    plan.append(&mut inner);
    proof {
        assert(plan@ == outer + rest);
        assert(plan_view(plan@) =~= plan_view(outer) + plan_view(rest));
    }
    plan
}

} // verus!
