use crate::compilation_service::{compile_args, path_str_of, CompileError, DockerOutput, PathKind};
use crate::javascript::{javascript_args, DependencyType as JsDependencyType, JSService};
use crate::python::{python_args, DependencyType as PyDependencyType, PythonService};
use crate::rust::{rust_args, ExecutionType, RustService};
use std::path::PathBuf;
use vstd::prelude::*;

verus! {

/// Input of the Python tool.
#[derive(Debug)]
pub struct PythonInput {
    /// If using uv or requirements.txt; absent when there are no dependencies.
    pub dependency_type: Option<PyDependencyType>,
    /// Path to the project directory.
    pub project_dir: PathBuf,
    /// File name within the project to execute, e.g. `main.py`.
    pub entry_file: PathBuf,
}

/// Input of the JavaScript tool.
#[derive(Debug)]
pub struct JavascriptInput {
    /// If using npm or yarn; absent when there are no dependencies.
    pub dependency_type: Option<JsDependencyType>,
    /// Path to the project directory.
    pub project_dir: PathBuf,
    /// File name within the project to execute, e.g. `index.js`.
    pub entry_file: PathBuf,
}

/// Input of the Rust tool.
#[derive(Debug)]
pub struct RustInput {
    /// `run` to execute the project, `test` to run its tests.
    pub execution_type: ExecutionType,
    /// Path to the project directory.
    pub project_dir: PathBuf,
}

impl PythonInput {
    /// The container arguments for this request. The only fault possible is a
    /// path that is not text.
    pub fn docker_args(&self) -> (r: Result<Vec<String>, CompileError>)
        ensures
            r matches Err(CompileError::PathNotText(PathKind::ProjectDir)) <==> path_str_of(
                self.project_dir,
            ) is None,
            r matches Err(CompileError::PathNotText(PathKind::EntryFile)) <==> path_str_of(
                self.project_dir,
            ) is Some && path_str_of(self.entry_file) is None,
            r is Ok <==> path_str_of(self.project_dir) is Some && path_str_of(self.entry_file) is Some,
            r matches Ok(v) ==> v.deep_view() == python_args(
                path_str_of(self.project_dir).unwrap(),
                path_str_of(self.entry_file).unwrap(),
                self.dependency_type,
            ),
    {
        let service = PythonService::new(self.dependency_type);
        compile_args(&service, &self.project_dir, Some(&self.entry_file))
    }
}

impl JavascriptInput {
    /// The container arguments for this request. The only fault possible is a
    /// path that is not text.
    pub fn docker_args(&self) -> (r: Result<Vec<String>, CompileError>)
        ensures
            r matches Err(CompileError::PathNotText(PathKind::ProjectDir)) <==> path_str_of(
                self.project_dir,
            ) is None,
            r matches Err(CompileError::PathNotText(PathKind::EntryFile)) <==> path_str_of(
                self.project_dir,
            ) is Some && path_str_of(self.entry_file) is None,
            r is Ok <==> path_str_of(self.project_dir) is Some && path_str_of(self.entry_file) is Some,
            r matches Ok(v) ==> v.deep_view() == javascript_args(
                path_str_of(self.project_dir).unwrap(),
                path_str_of(self.entry_file).unwrap(),
                self.dependency_type,
            ),
    {
        let service = JSService::new(self.dependency_type);
        compile_args(&service, &self.project_dir, Some(&self.entry_file))
    }
}

impl RustInput {
    /// The container arguments for this request. The only fault possible is a
    /// project directory that is not text.
    pub fn docker_args(&self) -> (r: Result<Vec<String>, CompileError>)
        ensures
            r matches Err(CompileError::PathNotText(PathKind::ProjectDir)) <==> path_str_of(
                self.project_dir,
            ) is None,
            r is Ok <==> path_str_of(self.project_dir) is Some,
            r matches Ok(v) ==> v.deep_view() == rust_args(
                path_str_of(self.project_dir).unwrap(),
                self.execution_type,
            ),
    {
        let service = RustService::new(self.execution_type);
        compile_args(&service, &self.project_dir, None)
    }
}

/// What a tool call answers: a result in a success or an error envelope, or
/// an internal error with a message when no result could be produced.
#[derive(Debug)]
pub enum ToolResponse {
    Success(DockerOutput),
    Error(DockerOutput),
    InternalError(String),
}

/// Wraps the outcome of a run for the caller: a non-success exit marks the
/// envelope as an error but keeps the result; a fault becomes an internal
/// error carrying the fault's message.
pub fn tool_response(result: Result<DockerOutput, CompileError>) -> (r: ToolResponse)
    ensures
        match result {
            Ok(o) => if o.spec_is_error() {
                r == ToolResponse::Error(o)
            } else {
                r == ToolResponse::Success(o)
            },
            Err(e) => r matches ToolResponse::InternalError(m) && m@ == e.spec_message(),
        },
{
    match result {
        Ok(o) => {
            if o.is_error() {
                ToolResponse::Error(o)
            } else {
                ToolResponse::Success(o)
            }
        },
        Err(e) => ToolResponse::InternalError(e.message()),
    }
}

/// The tags of the supported language families.
pub open spec fn language_tags() -> Seq<Seq<char>> {
    seq!["rust"@, "javascript"@, "python"@]
}

pub fn supported_languages() -> (r: Vec<String>)
    ensures
        r.deep_view() == language_tags(),
{
    let mut v: Vec<String> = Vec::new();
    v.push(String::from_str("rust"));
    v.push(String::from_str("javascript"));
    v.push(String::from_str("python"));
    assert(v.deep_view() =~= language_tags());
    v
}

/// The JSON text that serde_json writes for a list of strings.
pub uninterp spec fn json_of_strings(items: Seq<Seq<char>>) -> Seq<char>;

/// Relies on serde_json::to_string: the JSON array of the given strings. It
/// fails only where a value's `Serialize` impl fails or a map has non-string
/// keys, neither of which a list of strings can do.
#[verifier::external_body]
fn strings_to_json(items: &Vec<String>) -> (r: Option<String>)
    ensures
        r is Some,
        r matches Some(s) ==> s@ == json_of_strings(items.deep_view()),
{
    serde_json::to_string(items).ok()
}

/// The supported language tags as a JSON array.
pub fn supported_languages_json() -> (r: Option<String>)
    ensures
        r is Some,
        r matches Some(s) ==> s@ == json_of_strings(language_tags()),
{
    let tags = supported_languages();
    strings_to_json(&tags)
}

} // verus!
