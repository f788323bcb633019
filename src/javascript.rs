use crate::compilation_service::{
    mount_arg,
    script_args,
    script_docker_args,
    CompileService,
};
use vstd::prelude::*;

verus! {

/// How the project's dependencies are installed before the entry file runs.
#[derive(Debug, Clone, Copy, PartialEq, Eq, Structural)]
pub enum DependencyType {
    Npm,
    Yarn,
    Default,
}

impl DependencyType {
    pub open spec fn spec_str(&self) -> Seq<char> {
        match self {
            DependencyType::Npm => "npm"@,
            DependencyType::Yarn => "yarn"@,
            DependencyType::Default => "default"@,
        }
    }

    /// The value handed to the container in the `TYPE` environment variable.
    pub fn as_str(&self) -> (r: &'static str)
        ensures
            r@ == self.spec_str(),
    {
        match self {
            DependencyType::Npm => "npm",
            DependencyType::Yarn => "yarn",
            DependencyType::Default => "default",
        }
    }
}

/// The mode string for an optional dependency type; absent means `default`.
pub open spec fn mode_of(dependency_type: Option<DependencyType>) -> Seq<char> {
    match dependency_type {
        Some(d) => d.spec_str(),
        None => DependencyType::Default.spec_str(),
    }
}

/// The argument vector that runs `entry_file` of `project_dir` in the JavaScript image.
pub open spec fn javascript_args(
    project_dir: Seq<char>,
    entry_file: Seq<char>,
    dependency_type: Option<DependencyType>,
) -> Seq<Seq<char>> {
    script_args(project_dir, entry_file, mode_of(dependency_type), "scriptb-no-root"@)
}

/// The container arguments that run `file_name_str` of the project at
/// `work_dir_str`; an absent dependency type is sent as `default`.
pub fn build_docker_args(
    work_dir_str: &str,
    file_name_str: &str,
    dependency_type: &Option<DependencyType>,
) -> (r: Vec<String>)
    ensures
        r.deep_view() == javascript_args(work_dir_str@, file_name_str@, *dependency_type),
        r.len() == 10,
        r@[3]@ == mount_arg(work_dir_str@),
        r@[9]@ == file_name_str@,
        r@[5]@ == "TYPE="@ + mode_of(*dependency_type),
        dependency_type is None ==> r@[5]@ == "TYPE=default"@,
{
    let mode = match dependency_type {
        Some(d) => d.as_str(),
        None => DependencyType::Default.as_str(),
    };
    let r = script_docker_args(work_dir_str, file_name_str, mode, "scriptb-no-root");
    proof {
        assert(r.deep_view().len() == 10);
        assert(r@.len() == 10);
        assert(r.deep_view()[5] == r@[5]@);
        reveal_strlit("TYPE=default");
        reveal_strlit("TYPE=");
        reveal_strlit("default");
        assert("TYPE="@ + "default"@ =~= "TYPE=default"@);
    }
    r
}

/// The JavaScript recipe, configured with how dependencies are installed.
#[derive(Debug, Clone, Copy)]
pub struct JSService {
    dependency_type: Option<DependencyType>,
}

impl JSService {
    pub closed spec fn spec_dependency_type(&self) -> Option<DependencyType> {
        self.dependency_type
    }

    pub fn new(dependency_type: Option<DependencyType>) -> (r: Self)
        ensures
            r.spec_dependency_type() == dependency_type,
    {
        Self { dependency_type }
    }
}

impl CompileService for JSService {
    open spec fn spec_needs_entry_file(&self) -> bool {
        true
    }

    open spec fn spec_args(&self, project_dir: Seq<char>, entry_file: Seq<char>) -> Seq<Seq<char>> {
        javascript_args(project_dir, entry_file, self.spec_dependency_type())
    }

    fn needs_entry_file(&self) -> (r: bool) {
        true
    }

    fn docker_args(&self, project_dir: &str, entry_file: &str) -> (r: Vec<String>) {
        build_docker_args(project_dir, entry_file, &self.dependency_type)
    }
}

} // verus!
