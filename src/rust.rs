use crate::compilation_service::{mount_arg, mount_argument, guest_dir, starts_with, CompileService};
use vstd::prelude::*;

verus! {

/// Whether the project is run or its tests are run.
#[derive(Debug, Clone, Copy, PartialEq, Eq, Structural)]
pub enum ExecutionType {
    Run,
    Test,
}

impl ExecutionType {
    pub open spec fn spec_str(&self) -> Seq<char> {
        match self {
            ExecutionType::Run => "run"@,
            ExecutionType::Test => "test"@,
        }
    }

    /// The cargo sub-command for this execution type.
    pub fn as_str(&self) -> (r: &'static str)
        ensures
            r@ == self.spec_str(),
    {
        match self {
            ExecutionType::Run => "run",
            ExecutionType::Test => "test",
        }
    }
}

/// The argument vector that builds and runs, or tests, `project_dir` in the Rust image:
/// `run --rm -v <dir>:/usr/src/app -w /usr/src/app systemsc-no-root cargo <mode>`.
pub open spec fn rust_args(project_dir: Seq<char>, execution_type: ExecutionType) -> Seq<Seq<char>> {
    seq![
        "run"@,
        "--rm"@,
        "-v"@,
        mount_arg(project_dir),
        "-w"@,
        guest_dir(),
        "systemsc-no-root"@,
        "cargo"@,
        execution_type.spec_str(),
    ]
}

/// The container arguments that run or test the project at `work_dir_str`.
pub fn build_docker_args(work_dir_str: &str, execution_type: &ExecutionType) -> (r: Vec<String>)
    ensures
        r.deep_view() == rust_args(work_dir_str@, *execution_type),
        r.len() == 9,
        r@[3]@ == mount_arg(work_dir_str@),
        r@[8]@ == execution_type.spec_str(),
{
    let mut v: Vec<String> = Vec::new();
    v.push(String::from_str("run"));
    v.push(String::from_str("--rm"));
    v.push(String::from_str("-v"));
    v.push(mount_argument(work_dir_str));
    v.push(String::from_str("-w"));
    v.push(String::from_str("/usr/src/app"));
    v.push(String::from_str("systemsc-no-root"));
    v.push(String::from_str("cargo"));
    v.push(String::from_str(execution_type.as_str()));
    assert(v.deep_view() =~= rust_args(work_dir_str@, *execution_type));
    v
}

/// No argument of the Rust recipe sets an environment variable: none starts
/// with `-e` or `TYPE=`, provided the project directory itself does not.
pub proof fn lemma_rust_args_set_no_env(project_dir: Seq<char>, execution_type: ExecutionType)
    requires
        !starts_with(project_dir, "-e"@),
        !starts_with(project_dir, "TYPE="@),
    ensures
        forall|i: int|
            0 <= i < rust_args(project_dir, execution_type).len() ==> !starts_with(
                #[trigger] rust_args(project_dir, execution_type)[i],
                "-e"@,
            ) && !starts_with(rust_args(project_dir, execution_type)[i], "TYPE="@),
{
    reveal_strlit("-e");
    reveal_strlit("TYPE=");
    reveal_strlit("run");
    reveal_strlit("--rm");
    reveal_strlit("-v");
    reveal_strlit(":/usr/src/app");
    reveal_strlit("-w");
    reveal_strlit("/usr/src/app");
    reveal_strlit("systemsc-no-root");
    reveal_strlit("cargo");
    reveal_strlit("test");
    let args = rust_args(project_dir, execution_type);
    let m = mount_arg(project_dir);
    if project_dir.len() >= 2 {
        assert(m.subrange(0, 2) =~= project_dir.subrange(0, 2));
    } else {
        assert(m[project_dir.len() as int] == ':');
    }
    if project_dir.len() >= 5 {
        assert(m.subrange(0, 5) =~= project_dir.subrange(0, 5));
    } else {
        assert(m[project_dir.len() as int] == ':');
        assert(m.subrange(0, 5)[project_dir.len() as int] == ':');
    }
    assert forall|i: int| 0 <= i < args.len() implies !starts_with(args[i], "-e"@) && !starts_with(
        args[i],
        "TYPE="@,
    ) by {
        if i != 3 {
            if starts_with(args[i], "-e"@) {
                assert(args[i].subrange(0, 2)[0] == args[i][0]);
                assert(args[i].subrange(0, 2)[1] == args[i][1]);
            }
            if starts_with(args[i], "TYPE="@) {
                assert(args[i].subrange(0, 5)[0] == args[i][0]);
            }
        }
    }
}

/// The Rust recipe, configured with whether to run or to test.
#[derive(Debug, Clone, Copy)]
pub struct RustService {
    execution_type: ExecutionType,
}

impl RustService {
    pub closed spec fn spec_execution_type(&self) -> ExecutionType {
        self.execution_type
    }

    pub fn new(execution_type: ExecutionType) -> (r: Self)
        ensures
            r.spec_execution_type() == execution_type,
    {
        Self { execution_type }
    }
}

impl CompileService for RustService {
    open spec fn spec_needs_entry_file(&self) -> bool {
        false
    }

    open spec fn spec_args(&self, project_dir: Seq<char>, entry_file: Seq<char>) -> Seq<Seq<char>> {
        rust_args(project_dir, self.spec_execution_type())
    }

    fn needs_entry_file(&self) -> (r: bool) {
        false
    }

    fn docker_args(&self, project_dir: &str, entry_file: &str) -> (r: Vec<String>) {
        build_docker_args(project_dir, &self.execution_type)
    }
}

} // verus!
