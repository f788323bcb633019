use vstd::prelude::*;
use std::path::PathBuf;
use vstd::utf8::*;

verus! {

/// Which captured stream of the child process failed to decode.
#[derive(Debug, Clone, Copy, PartialEq, Eq, Structural)]
pub enum StreamKind {
    Stdout,
    Stderr,
}

/// Which host path could not be rendered as text for the container CLI.
#[derive(Debug, Clone, Copy, PartialEq, Eq, Structural)]
pub enum PathKind {
    ProjectDir,
    EntryFile,
}

#[verifier::external_type_specification]
#[verifier::external_body]
pub struct ExPathBuf(PathBuf);

/// Faults that prevent an execution result from being produced at all.
#[derive(Debug)]
pub enum CompileError {
    /// A scripting recipe was invoked without an entry file.
    MissingEntryFile,
    /// A host path is not valid text.
    PathNotText(PathKind),
    /// The container binary could not be executed; carries the system's message.
    SpawnFailed(String),
    /// A captured stream of the child is not valid UTF-8.
    DecodeFailed(StreamKind),
}

impl CompileError {
    /// The human-readable rendering of a fault.
    pub open spec fn spec_message(&self) -> Seq<char> {
        match self {
            CompileError::MissingEntryFile => "main_file needs to be defined"@,
            CompileError::PathNotText(PathKind::ProjectDir) =>
                "Supplied working directory is not an actual path"@,
            CompileError::PathNotText(PathKind::EntryFile) =>
                "Supplied file name is not an actual path"@,
            CompileError::SpawnFailed(m) => m@,
            CompileError::DecodeFailed(StreamKind::Stdout) => "Unable to convert stdout to string"@,
            CompileError::DecodeFailed(StreamKind::Stderr) => "Unable to convert stderr to string"@,
        }
    }

    pub fn message(&self) -> (r: String)
        ensures
            r@ == self.spec_message(),
    {
        match self {
            CompileError::MissingEntryFile => String::from_str("main_file needs to be defined"),
            CompileError::PathNotText(PathKind::ProjectDir) => String::from_str(
                "Supplied working directory is not an actual path",
            ),
            CompileError::PathNotText(PathKind::EntryFile) => String::from_str(
                "Supplied file name is not an actual path",
            ),
            CompileError::SpawnFailed(m) => m.clone(),
            CompileError::DecodeFailed(StreamKind::Stdout) => String::from_str(
                "Unable to convert stdout to string",
            ),
            CompileError::DecodeFailed(StreamKind::Stderr) => String::from_str(
                "Unable to convert stderr to string",
            ),
        }
    }
}

/// The uniform result of one container run: both captured streams as text and
/// whether the child exited with a non-success status.
#[derive(Debug)]
pub struct DockerOutput {
    stdout: String,
    stderr: String,
    pub is_error: bool,
}

impl DockerOutput {
    pub closed spec fn spec_stdout(&self) -> Seq<char> {
        self.stdout@
    }

    pub closed spec fn spec_stderr(&self) -> Seq<char> {
        self.stderr@
    }

    pub closed spec fn spec_is_error(&self) -> bool {
        self.is_error
    }

    pub fn new(stdout: String, stderr: String, is_error: bool) -> (r: Self)
        ensures
            r.spec_stdout() == stdout@,
            r.spec_stderr() == stderr@,
            r.spec_is_error() == is_error,
    {
        Self { stdout, stderr, is_error }
    }

    pub fn stdout(&self) -> (r: &String)
        ensures
            r@ == self.spec_stdout(),
    {
        &self.stdout
    }

    pub fn is_error(&self) -> (r: bool)
        ensures
            r == self.spec_is_error(),
    {
        self.is_error
    }

    pub fn stderr(&self) -> (r: &String)
        ensures
            r@ == self.spec_stderr(),
    {
        &self.stderr
    }
}

/// Relies on String::from_utf8: it succeeds exactly on valid UTF-8 and the
/// string then holds the characters those bytes encode.
#[verifier::external_body]
fn string_from_utf8(bytes: Vec<u8>) -> (r: Option<String>)
    ensures
        r is Some <==> valid_utf8(bytes@),
        r matches Some(s) ==> s@ == decode_utf8(bytes@),
{
    String::from_utf8(bytes).ok()
}

/// Turns what a finished child process left behind (its two byte streams and
/// whether its exit status was success) into an execution result. Decoding is
/// strict: stdout is checked first, then stderr.
pub fn decode_docker_output(stdout: Vec<u8>, stderr: Vec<u8>, success: bool) -> (r: Result<
    DockerOutput,
    CompileError,
>)
    ensures
        r is Ok <==> valid_utf8(stdout@) && valid_utf8(stderr@),
        !valid_utf8(stdout@) ==> r matches Err(CompileError::DecodeFailed(StreamKind::Stdout)),
        valid_utf8(stdout@) && !valid_utf8(stderr@) ==> r matches Err(
            CompileError::DecodeFailed(StreamKind::Stderr),
        ),
        r matches Ok(o) ==> o.spec_stdout() == decode_utf8(stdout@) && o.spec_stderr()
            == decode_utf8(stderr@) && o.spec_is_error() == !success,
{
    let out = match string_from_utf8(stdout) {
        Some(s) => s,
        None => return Err(CompileError::DecodeFailed(StreamKind::Stdout)),
    };
    let err = match string_from_utf8(stderr) {
        Some(s) => s,
        None => return Err(CompileError::DecodeFailed(StreamKind::Stderr)),
    };
    Ok(DockerOutput::new(out, err, !success))
}

/// The directory inside the container where the project is mounted and run.
pub open spec fn guest_dir() -> Seq<char> {
    "/usr/src/app"@
}

/// The bind-mount argument: the host project directory mapped onto the guest directory.
pub open spec fn mount_arg(project_dir: Seq<char>) -> Seq<char> {
    project_dir + ":/usr/src/app"@
}

/// Whether `s` begins with `prefix`.
pub open spec fn starts_with(s: Seq<char>, prefix: Seq<char>) -> bool {
    prefix.len() <= s.len() && s.subrange(0, prefix.len() as int) == prefix
}

/// The argument vector of a scripting recipe:
/// `run --rm -v <dir>:/usr/src/app -e TYPE=<mode> -w /usr/src/app <image> <entry>`.
pub open spec fn script_args(
    project_dir: Seq<char>,
    entry_file: Seq<char>,
    mode: Seq<char>,
    image: Seq<char>,
) -> Seq<Seq<char>> {
    seq![
        "run"@,
        "--rm"@,
        "-v"@,
        mount_arg(project_dir),
        "-e"@,
        "TYPE="@ + mode,
        "-w"@,
        guest_dir(),
        image,
        entry_file,
    ]
}

pub fn mount_argument(project_dir: &str) -> (r: String)
    ensures
        r@ == mount_arg(project_dir@),
{
    let mut m = String::from_str(project_dir);
    m.append(":/usr/src/app");
    m
}

/// Builds the argument vector shared by the scripting recipes.
pub fn script_docker_args(project_dir: &str, entry_file: &str, mode: &str, image: &str) -> (r: Vec<
    String,
>)
    ensures
        r.deep_view() == script_args(project_dir@, entry_file@, mode@, image@),
{
    let mut env = String::from_str("TYPE=");
    env.append(mode);
    let mut v: Vec<String> = Vec::new();
    v.push(String::from_str("run"));
    v.push(String::from_str("--rm"));
    v.push(String::from_str("-v"));
    v.push(mount_argument(project_dir));
    v.push(String::from_str("-e"));
    v.push(env);
    v.push(String::from_str("-w"));
    v.push(String::from_str("/usr/src/app"));
    v.push(String::from_str(image));
    v.push(String::from_str(entry_file));
    assert(v.deep_view() =~= script_args(project_dir@, entry_file@, mode@, image@));
    v
}

/// A language recipe: how a project directory and an entry file become the
/// argument vector of one container run.
pub trait CompileService {
    /// Whether the recipe needs an entry file to run.
    spec fn spec_needs_entry_file(&self) -> bool;

    /// The argument vector for a project directory and an entry file, both as text.
    spec fn spec_args(&self, project_dir: Seq<char>, entry_file: Seq<char>) -> Seq<Seq<char>>;

    fn needs_entry_file(&self) -> (r: bool)
        ensures
            r == self.spec_needs_entry_file(),
    ;

    fn docker_args(&self, project_dir: &str, entry_file: &str) -> (r: Vec<String>)
        ensures
            r.deep_view() == self.spec_args(project_dir@, entry_file@),
    ;
}

/// The text of a path, or nothing when the path is not valid unicode.
pub uninterp spec fn path_str_of(p: PathBuf) -> Option<Seq<char>>;

/// Relies on Path::to_str (through PathBuf's deref): the path as text, or
/// nothing when it is not valid unicode; the outcome depends on the path alone.
#[verifier::external_body]
fn path_text(p: &PathBuf) -> (r: Option<String>)
    ensures
        r is Some <==> path_str_of(*p) is Some,
        r matches Some(s) ==> path_str_of(*p) == Some(s@),
{
    p.to_str().map(String::from)
}

/// The argument vector for running a project with a recipe. A recipe that
/// needs an entry file fails without one before any path is looked at; the
/// project directory is then rendered as text, and the entry file after it
/// where the recipe uses one. A recipe that needs no entry file ignores it.
pub fn compile_args<S: CompileService>(
    service: &S,
    path: &PathBuf,
    main_file: Option<&PathBuf>,
) -> (r: Result<Vec<String>, CompileError>)
    ensures
        r matches Err(CompileError::MissingEntryFile) <==> service.spec_needs_entry_file()
            && main_file is None,
        r matches Err(CompileError::PathNotText(PathKind::ProjectDir)) <==> !(
        service.spec_needs_entry_file() && main_file is None) && path_str_of(*path) is None,
        r matches Err(CompileError::PathNotText(PathKind::EntryFile)) <==> service.spec_needs_entry_file()
            && main_file is Some && path_str_of(*path) is Some && path_str_of(
            *main_file.unwrap(),
        ) is None,
        r is Ok <==> !(service.spec_needs_entry_file() && main_file is None) && path_str_of(
            *path,
        ) is Some && (service.spec_needs_entry_file() ==> path_str_of(*main_file.unwrap()) is Some),
        r matches Ok(v) ==> v.deep_view() == service.spec_args(
            path_str_of(*path).unwrap(),
            if service.spec_needs_entry_file() {
                path_str_of(*main_file.unwrap()).unwrap()
            } else {
                Seq::empty()
            },
        ),
{
    let needs = service.needs_entry_file();
    if needs && main_file.is_none() {
        return Err(CompileError::MissingEntryFile);
    }
    let dir = match path_text(path) {
        Some(d) => d,
        None => return Err(CompileError::PathNotText(PathKind::ProjectDir)),
    };
    let file = match main_file {
        Some(f) if needs => match path_text(f) {
            Some(t) => t,
            None => return Err(CompileError::PathNotText(PathKind::EntryFile)),
        },
        _ => String::new(),
    };
    Ok(service.docker_args(dir.as_str(), file.as_str()))
}

} // verus!
