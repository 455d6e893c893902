//! The execution dispatcher: where a source is staged, which toolchain runs
//! it, and what result the finished child process makes.
//!
//! The dispatcher decides; it touches neither the file system nor a process.

use crate::message::{ExecutionRequest, ExecutionResult, RequestView, ResultView};
use crate::text::{same_text, strip_suffix_repeatedly, without_trailing};
use crate::unicode::{utf8_lossy, utf8_lossy_text};
use vstd::prelude::*;
use vstd::utf8::{decode_utf8, valid_utf8};

verus! {

/// The permission bits of a staged file: readable and executable by all,
/// writable by its owner.
pub const STAGED_MODE: u32 = 0o755;

/// The toolchains that the agent knows.
#[derive(Debug, Clone, Copy, PartialEq, Eq, Structural)]
pub enum Language {
    Python,
    JavaScript,
    TypeScript,
    Java,
    C,
    Cpp,
    Go,
    Rust,
}

/// The toolchain that an identifier names. Identifiers are matched exactly,
/// letter case included.
pub open spec fn language_of(id: Seq<char>) -> Option<Language> {
    if id == "python"@ {
        Some(Language::Python)
    } else if id == "javascript"@ || id == "node"@ {
        Some(Language::JavaScript)
    } else if id == "typescript"@ {
        Some(Language::TypeScript)
    } else if id == "java"@ {
        Some(Language::Java)
    } else if id == "c"@ {
        Some(Language::C)
    } else if id == "cpp"@ {
        Some(Language::Cpp)
    } else if id == "go"@ {
        Some(Language::Go)
    } else if id == "rust"@ {
        Some(Language::Rust)
    } else {
        None
    }
}

/// Finds the toolchain that `id` names.
pub fn parse_language(id: &str) -> (r: Option<Language>)
    ensures
        r == language_of(id@),
{
    if same_text(id, "python") {
        Some(Language::Python)
    } else if same_text(id, "javascript") || same_text(id, "node") {
        Some(Language::JavaScript)
    } else if same_text(id, "typescript") {
        Some(Language::TypeScript)
    } else if same_text(id, "java") {
        Some(Language::Java)
    } else if same_text(id, "c") {
        Some(Language::C)
    } else if same_text(id, "cpp") {
        Some(Language::Cpp)
    } else if same_text(id, "go") {
        Some(Language::Go)
    } else if same_text(id, "rust") {
        Some(Language::Rust)
    } else {
        None
    }
}

/// A file to write before anything runs.
#[derive(Debug, Clone, PartialEq, Eq)]
pub struct Staging {
    /// Where the file goes.
    pub path: String,
    /// What it holds.
    pub contents: String,
    /// Its permission bits.
    pub mode: u32,
}

/// The mathematical value of a [`Staging`].
pub struct StagingView {
    pub path: Seq<char>,
    pub contents: Seq<char>,
    pub mode: u32,
}

impl View for Staging {
    type V = StagingView;

    open spec fn view(&self) -> StagingView {
        StagingView { path: self.path@, contents: self.contents@, mode: self.mode }
    }
}

/// A child process to spawn: a program and its arguments.
#[derive(Debug, Clone, PartialEq, Eq)]
pub struct Invocation {
    /// The program, looked up on the command-search path.
    pub program: String,
    /// Its arguments, in order.
    pub arguments: Vec<String>,
}

/// The mathematical value of an [`Invocation`].
pub struct InvocationView {
    pub program: Seq<char>,
    pub arguments: Seq<Seq<char>>,
}

impl View for Invocation {
    type V = InvocationView;

    open spec fn view(&self) -> InvocationView {
        InvocationView {
            program: self.program@,
            arguments: Seq::new(self.arguments@.len(), |i: int| self.arguments@[i]@),
        }
    }
}

/// The path of a staged file: `filename` under the scratch directory.
pub open spec fn scratch_path(filename: Seq<char>) -> Seq<char> {
    "/tmp/"@ + filename
}

/// How a request's source is staged: verbatim, under its file name in the
/// scratch directory, executable.
pub open spec fn staging_of(request: RequestView) -> StagingView {
    StagingView {
        path: scratch_path(request.filename),
        contents: request.code,
        mode: STAGED_MODE,
    }
}

/// A program run directly on the staged file.
pub open spec fn direct(program: Seq<char>, filename: Seq<char>) -> InvocationView {
    InvocationView { program, arguments: seq![scratch_path(filename)] }
}

/// A shell that runs `script`.
pub open spec fn shell(script: Seq<char>) -> InvocationView {
    InvocationView { program: "sh"@, arguments: seq!["-c"@, script] }
}

/// The script that compiles the staged file to the binary `program` with
/// `compiler` and runs it.
pub open spec fn compile_and_run(compiler: Seq<char>, filename: Seq<char>) -> Seq<char> {
    "cd /tmp && "@ + compiler + " "@ + filename + " -o program && ./program"@
}

/// The name of the class that a Java source file declares: the file name
/// without its trailing `.java`.
pub open spec fn class_name(filename: Seq<char>) -> Seq<char> {
    strip_suffix_repeatedly(filename, ".java"@)
}

/// The recipe of each toolchain.
pub open spec fn invocation_of(language: Language, filename: Seq<char>) -> InvocationView {
    match language {
        Language::Python => direct("python3"@, filename),
        Language::JavaScript => direct("node"@, filename),
        Language::TypeScript => direct("ts-node"@, filename),
        Language::Java => shell(
            "cd /tmp && javac "@ + filename + " && java "@ + class_name(filename),
        ),
        Language::C => shell(compile_and_run("gcc"@, filename)),
        Language::Cpp => shell(compile_and_run("g++"@, filename)),
        Language::Go => shell("cd /tmp && go run "@ + filename),
        Language::Rust => shell(compile_and_run("rustc"@, filename)),
    }
}

/// Says where and how the source of `request` is staged.
pub fn staging(request: &ExecutionRequest) -> (r: Staging)
    ensures
        r@ == staging_of(request@),
{
    let mut path = String::from_str("/tmp/");
    path.append(request.filename.as_str());
    Staging { path, contents: request.code.clone(), mode: STAGED_MODE }
}

fn run_directly(program: &str, filename: &str) -> (r: Invocation)
    ensures
        r@ == direct(program@, filename@),
{
    let mut path = String::from_str("/tmp/");
    path.append(filename);
    let mut arguments: Vec<String> = Vec::new();
    arguments.push(path);
    let r = Invocation { program: String::from_str(program), arguments };
    assert(r@.arguments =~= seq![scratch_path(filename@)]);
    r
}

fn run_in_shell(script: String) -> (r: Invocation)
    ensures
        r@ == shell(script@),
{
    let mut arguments: Vec<String> = Vec::new();
    arguments.push(String::from_str("-c"));
    arguments.push(script);
    let r = Invocation { program: String::from_str("sh"), arguments };
    assert(r@.arguments =~= seq!["-c"@, script@]);
    r
}

fn compile_and_run_script(compiler: &str, filename: &str) -> (r: String)
    ensures
        r@ == compile_and_run(compiler@, filename@),
{
    let mut script = String::from_str("cd /tmp && ");
    script.append(compiler);
    script.append(" ");
    script.append(filename);
    script.append(" -o program && ./program");
    script
}

/// Builds the child process that runs the staged file `filename` with the
/// toolchain of `language`.
pub fn invocation(language: Language, filename: &str) -> (r: Invocation)
    ensures
        r@ == invocation_of(language, filename@),
{
    match language {
        Language::Python => run_directly("python3", filename),
        Language::JavaScript => run_directly("node", filename),
        Language::TypeScript => run_directly("ts-node", filename),
        Language::Java => {
            let class = without_trailing(filename, ".java");
            let mut script = String::from_str("cd /tmp && javac ");
            script.append(filename);
            script.append(" && java ");
            script.append(class.as_str());
            run_in_shell(script)
        },
        Language::C => run_in_shell(compile_and_run_script("gcc", filename)),
        Language::Cpp => run_in_shell(compile_and_run_script("g++", filename)),
        Language::Go => {
            let mut script = String::from_str("cd /tmp && go run ");
            script.append(filename);
            run_in_shell(script)
        },
        Language::Rust => run_in_shell(compile_and_run_script("rustc", filename)),
    }
}

/// The result that a finished child process makes. A child that left no
/// exit code, as one killed by a signal, counts as failed with code -1.
pub open spec fn collected(exit_code: Option<i32>, stdout: Seq<u8>, stderr: Seq<u8>) -> ResultView {
    ResultView {
        success: exit_code == Some(0i32),
        stdout: utf8_lossy(stdout),
        stderr: utf8_lossy(stderr),
        exit_code: match exit_code {
            Some(code) => code,
            None => crate::message::NO_EXIT_CODE,
        },
    }
}

/// Makes the result of a finished child process from its exit code and the
/// bytes it wrote. Output that is not well-formed UTF-8 is decoded with
/// replacement characters and never fails the exchange.
pub fn collect_result(exit_code: Option<i32>, stdout: &[u8], stderr: &[u8]) -> (r: ExecutionResult)
    ensures
        r@ == collected(exit_code, stdout@, stderr@),
        r.success <==> r.exit_code == 0,
        exit_code matches Some(code) ==> r.exit_code == code,
        exit_code is None ==> r.exit_code == -1,
        valid_utf8(stdout@) ==> r.stdout@ == decode_utf8(stdout@),
        valid_utf8(stderr@) ==> r.stderr@ == decode_utf8(stderr@),
{
    let code: i32 = match exit_code {
        Some(code) => code,
        None => crate::message::NO_EXIT_CODE,
    };
    ExecutionResult {
        success: code == 0 && exit_code.is_some(),
        stdout: utf8_lossy_text(stdout),
        stderr: utf8_lossy_text(stderr),
        exit_code: code,
    }
}

/// The result that answers a request for a language the agent does not know.
pub open spec fn unsupported() -> ResultView {
    ExecutionResult::failure("Unsupported language"@)
}

/// The result that answers a request for a language the agent does not know.
pub fn unsupported_language() -> (r: ExecutionResult)
    ensures
        r@ == unsupported(),
{
    ExecutionResult::failed(String::from_str("Unsupported language"))
}

/// The result that answers a request whose toolchain could not be started.
pub open spec fn launch_failed(detail: Seq<char>) -> ResultView {
    ExecutionResult::failure("Failed to start the toolchain: "@ + detail)
}

/// The result that answers a request whose toolchain could not be started;
/// `detail` is the system's description of the failure.
pub fn launch_failure(detail: &str) -> (r: ExecutionResult)
    ensures
        r@ == launch_failed(detail@),
{
    let mut stderr = String::from_str("Failed to start the toolchain: ");
    stderr.append(detail);
    ExecutionResult::failed(stderr)
}

/// What the dispatcher does about a request.
#[derive(Debug)]
pub enum Plan {
    /// Run this child process on the staged source.
    Run(Invocation),
    /// Run nothing and answer with this result.
    Reject(ExecutionResult),
}

/// The mathematical value of a [`Plan`].
pub enum PlanView {
    Run(InvocationView),
    Reject(ResultView),
}

impl View for Plan {
    type V = PlanView;

    open spec fn view(&self) -> PlanView {
        match self {
            Plan::Run(invocation) => PlanView::Run(invocation@),
            Plan::Reject(result) => PlanView::Reject(result@),
        }
    }
}

/// The plan for a request: the recipe of its language, or a rejection where
/// the language is not supported.
pub open spec fn plan_of(request: RequestView) -> PlanView {
    match language_of(request.language) {
        Some(language) => PlanView::Run(invocation_of(language, request.filename)),
        None => PlanView::Reject(unsupported()),
    }
}

/// Decides what to do about `request`.
pub fn plan(request: &ExecutionRequest) -> (r: Plan)
    ensures
        r@ == plan_of(request@),
{
    match parse_language(request.language.as_str()) {
        Some(language) => Plan::Run(invocation(language, request.filename.as_str())),
        None => Plan::Reject(unsupported_language()),
    }
}

} // verus!
