use code_compiler::compilation_service::{compile_args, CompileError, PathKind};
use code_compiler::javascript::{self, JSService};
use code_compiler::python::{self, PythonService};
use code_compiler::rust::{self, ExecutionType, RustService};
use std::path::PathBuf;

#[test]
fn test_build_docker_args_npm() {
    let args = javascript::build_docker_args(
        "/mock/path",
        "index.js",
        &Some(javascript::DependencyType::Npm),
    );
    assert_eq!(args[3], "/mock/path:/usr/src/app");
    assert_eq!(args[5], "TYPE=npm");
    assert_eq!(args[9], "index.js");
    assert_eq!(args.len(), 10);
}

#[test]
fn test_build_docker_args_yarn() {
    let args = javascript::build_docker_args(
        "/mock/path",
        "index.js",
        &Some(javascript::DependencyType::Yarn),
    );
    assert_eq!(args[3], "/mock/path:/usr/src/app");
    assert_eq!(args[5], "TYPE=yarn");
    assert_eq!(args[9], "index.js");
    assert_eq!(args.len(), 10);
}

#[test]
fn javascript_test_build_docker_args_default() {
    let args = javascript::build_docker_args("/mock/path", "index.js", &None);
    assert_eq!(args[3], "/mock/path:/usr/src/app");
    assert_eq!(args[5], "TYPE=default");
    assert_eq!(args[9], "index.js");
    assert_eq!(args.len(), 10);
}

#[test]
fn test_build_docker_args_requirements_txt() {
    let args = python::build_docker_args(
        "/mock/path",
        "main.py",
        &Some(python::DependencyType::RequirementsTxt),
    );
    assert_eq!(args[3], "/mock/path:/usr/src/app");
    assert_eq!(args[5], "TYPE=requirements.txt");
    assert_eq!(args[9], "main.py");
    assert_eq!(args.len(), 10);
}

#[test]
fn test_build_docker_args_uv() {
    let args = python::build_docker_args("/mock/path", "main.py", &Some(python::DependencyType::Uv));
    assert_eq!(args[3], "/mock/path:/usr/src/app");
    assert_eq!(args[5], "TYPE=uv");
    assert_eq!(args[9], "main.py");
    assert_eq!(args.len(), 10);
}

#[test]
fn python_test_build_docker_args_default() {
    let args = python::build_docker_args("/mock/path", "main.py", &None);
    assert_eq!(args[3], "/mock/path:/usr/src/app");
    assert_eq!(args[5], "TYPE=default");
    assert_eq!(args[9], "main.py");
    assert_eq!(args.len(), 10);
}

#[test]
fn test_build_docker_args_run() {
    let args = rust::build_docker_args("/mock/path", &ExecutionType::Run);
    assert_eq!(args[3], "/mock/path:/usr/src/app");
    assert_eq!(args[8], "run");
    assert_eq!(args.len(), 9);
}

#[test]
fn test_build_docker_args_test() {
    let args = rust::build_docker_args("/mock/path", &ExecutionType::Test);
    assert_eq!(args[3], "/mock/path:/usr/src/app");
    assert_eq!(args[8], "test");
    assert_eq!(args.len(), 9);
}

#[test]
fn python_requirements_full_vector() {
    let args = python::build_docker_args("/p", "main.py", &Some(python::DependencyType::RequirementsTxt));
    assert_eq!(
        args,
        vec![
            "run", "--rm", "-v", "/p:/usr/src/app", "-e", "TYPE=requirements.txt", "-w",
            "/usr/src/app", "scripta-no-root", "main.py",
        ]
    );
}

#[test]
fn python_absent_dependency_type_is_default() {
    let args = python::build_docker_args("/p", "main.py", &None);
    assert_eq!(args[5], "TYPE=default");
    assert_eq!(args[9], "main.py");
}

#[test]
fn javascript_yarn_full_vector() {
    let args = javascript::build_docker_args("/p", "index.js", &Some(javascript::DependencyType::Yarn));
    assert_eq!(
        args,
        vec![
            "run", "--rm", "-v", "/p:/usr/src/app", "-e", "TYPE=yarn", "-w", "/usr/src/app",
            "scriptb-no-root", "index.js",
        ]
    );
}

#[test]
fn rust_test_full_vector() {
    let args = rust::build_docker_args("/p", &ExecutionType::Test);
    assert_eq!(
        args,
        vec!["run", "--rm", "-v", "/p:/usr/src/app", "-w", "/usr/src/app", "systemsc-no-root", "cargo", "test"]
    );
}

#[test]
fn rust_args_set_no_environment_variable() {
    for mode in [ExecutionType::Run, ExecutionType::Test] {
        let args = rust::build_docker_args("/home/user/project", &mode);
        for a in &args {
            assert!(!a.starts_with("-e"));
            assert!(!a.starts_with("TYPE="));
        }
    }
}

#[test]
fn empty_project_dir_mount() {
    let args = rust::build_docker_args("", &ExecutionType::Run);
    assert_eq!(args[3], ":/usr/src/app");
    let args = python::build_docker_args("", "", &None);
    assert_eq!(args[3], ":/usr/src/app");
    assert_eq!(args[9], "");
}

#[test]
fn dependency_type_strings() {
    assert_eq!(python::DependencyType::RequirementsTxt.as_str(), "requirements.txt");
    assert_eq!(python::DependencyType::Uv.as_str(), "uv");
    assert_eq!(python::DependencyType::Default.as_str(), "default");
    assert_eq!(javascript::DependencyType::Npm.as_str(), "npm");
    assert_eq!(javascript::DependencyType::Yarn.as_str(), "yarn");
    assert_eq!(javascript::DependencyType::Default.as_str(), "default");
    assert_eq!(ExecutionType::Run.as_str(), "run");
    assert_eq!(ExecutionType::Test.as_str(), "test");
}

#[test]
fn scripting_recipe_without_entry_file_is_missing_entry_file() {
    let dir = PathBuf::from("/p");
    let r = compile_args(&PythonService::new(None), &dir, None);
    assert!(matches!(r, Err(CompileError::MissingEntryFile)));
    let r = compile_args(&JSService::new(None), &dir, None);
    assert!(matches!(r, Err(CompileError::MissingEntryFile)));
}

#[test]
fn compile_args_renders_paths_as_text() {
    let dir = PathBuf::from("/p");
    let entry = PathBuf::from("main.py");
    let args = compile_args(&PythonService::new(Some(python::DependencyType::Uv)), &dir, Some(&entry)).unwrap();
    assert_eq!(args[3], "/p:/usr/src/app");
    assert_eq!(args[5], "TYPE=uv");
    assert_eq!(args[9], "main.py");
}

#[test]
fn rust_recipe_ignores_entry_file() {
    let dir = PathBuf::from("/p");
    let entry = PathBuf::from("main.rs");
    let with = compile_args(&RustService::new(ExecutionType::Run), &dir, Some(&entry)).unwrap();
    let without = compile_args(&RustService::new(ExecutionType::Run), &dir, None).unwrap();
    assert_eq!(with, without);
    assert_eq!(with.len(), 9);
    assert_eq!(with[8], "run");
}

#[test]
fn compile_error_messages() {
    assert_eq!(CompileError::MissingEntryFile.message(), "main_file needs to be defined");
    assert_eq!(
        CompileError::PathNotText(PathKind::ProjectDir).message(),
        "Supplied working directory is not an actual path"
    );
    assert_eq!(
        CompileError::PathNotText(PathKind::EntryFile).message(),
        "Supplied file name is not an actual path"
    );
    assert_eq!(CompileError::SpawnFailed("no such file".to_string()).message(), "no such file");
}
