//! One exploration, without the I/O: how the files of a request are named,
//! which arguments the toolchain is run with, and what is reported of a run
//! once it is over. Running the toolchain is left to the caller, who hands
//! back what came of it.

use crate::output::{bounded_text, is_truncated, process_output, CompileOptions};
use crate::stage::{CompileStage, EmissionMode};
use crate::text::{
    decimal, lemma_decimal_injective, line_count, lines_of, push_decimal, trim, trimmed,
};
use rand::Rng;
use vstd::prelude::*;

verus! {

/// What is reported of one exploration.
#[derive(Debug, Clone)]
pub struct CompileResult {
    /// Whether the toolchain produced the output that was asked for.
    pub success: bool,
    /// The bounded output; empty where there is none.
    pub output: String,
    /// What went wrong; present exactly where `success` is false.
    pub error: Option<String>,
    /// The stage that was asked for.
    pub stage: CompileStage,
    /// The number of lines of the output before it was bounded.
    pub lines: usize,
    /// Whether lines were left out of `output`.
    pub truncated: bool,
}

/// A `CompileResult` with its texts as sequences of characters.
pub struct CompileResultView {
    pub success: bool,
    pub output: Seq<char>,
    pub error: Option<Seq<char>>,
    pub stage: CompileStage,
    pub lines: nat,
    pub truncated: bool,
}

impl View for CompileResult {
    type V = CompileResultView;

    open spec fn view(&self) -> CompileResultView {
        CompileResultView {
            success: self.success,
            output: self.output@,
            error: self.error.deep_view(),
            stage: self.stage,
            lines: self.lines as nat,
            truncated: self.truncated,
        }
    }
}

impl CompileResultView {
    /// A success carries no error; a failure carries an error and nothing
    /// else: no output, no lines, no truncation.
    pub open spec fn is_well_formed(self) -> bool {
        if self.success {
            self.error is None
        } else {
            self.error is Some && self.output.len() == 0 && self.lines == 0 && !self.truncated
        }
    }
}

/// What came of one run of the toolchain.
#[derive(Debug, Clone)]
pub struct ToolchainOutcome {
    /// Whether the toolchain exited with status zero.
    pub exit_ok: bool,
    /// What it wrote to standard output.
    pub stdout: String,
    /// What it wrote to standard error.
    pub stderr: String,
    /// The text of the artifact file, where that file exists after the run.
    pub artifact: Option<String>,
}

/// A `ToolchainOutcome` with its texts as sequences of characters.
pub struct ToolchainOutcomeView {
    pub exit_ok: bool,
    pub stdout: Seq<char>,
    pub stderr: Seq<char>,
    pub artifact: Option<Seq<char>>,
}

impl View for ToolchainOutcome {
    type V = ToolchainOutcomeView;

    open spec fn view(&self) -> ToolchainOutcomeView {
        ToolchainOutcomeView {
            exit_ok: self.exit_ok,
            stdout: self.stdout@,
            stderr: self.stderr@,
            artifact: self.artifact.deep_view(),
        }
    }
}

/// Whether a run produced what the stage was asked for. A stage that writes
/// to standard output succeeds by its exit status alone; one that emits an
/// artifact file succeeds only if the file is there as well.
pub open spec fn succeeded(stage: CompileStage, outcome: ToolchainOutcomeView) -> bool {
    match stage.spec_emission_mode() {
        EmissionMode::StdoutCapture => outcome.exit_ok,
        EmissionMode::ArtifactFile => outcome.exit_ok && outcome.artifact is Some,
    }
}

/// The text that a successful run produced for the stage.
pub open spec fn emitted_text(stage: CompileStage, outcome: ToolchainOutcomeView) -> Seq<char> {
    match stage.spec_emission_mode() {
        EmissionMode::StdoutCapture => outcome.stdout,
        EmissionMode::ArtifactFile => outcome.artifact->0,
    }
}

/// The error text of a run that did not succeed. After an exit with a status
/// other than zero it is what the toolchain wrote to standard error, as it
/// stands. After an exit with status zero, which fails only a stage whose
/// artifact file is missing, it is a sentence that names the stage.
pub open spec fn failure_message(stage: CompileStage, outcome: ToolchainOutcomeView) -> Seq<char> {
    if !outcome.exit_ok {
        outcome.stderr
    } else {
        "Failed to generate "@ + stage.spec_name() + " output"@
    }
}

/// The result of an exploration of `stage` under `options`, given what came of
/// the run.
pub open spec fn explored(
    stage: CompileStage,
    options: CompileOptions,
    outcome: ToolchainOutcomeView,
) -> CompileResultView {
    if succeeded(stage, outcome) {
        let text = emitted_text(stage, outcome);
        CompileResultView {
            success: true,
            output: bounded_text(text, options),
            error: None,
            stage,
            lines: lines_of(text).len(),
            truncated: is_truncated(text, options),
        }
    } else {
        CompileResultView {
            success: false,
            output: Seq::empty(),
            error: Some(failure_message(stage, outcome)),
            stage,
            lines: 0,
            truncated: false,
        }
    }
}

impl CompileResult {
    /// The result of a run that produced `text`: the text bounded as the
    /// options ask, with the number of lines it had before.
    pub fn completed(stage: CompileStage, options: &CompileOptions, text: &str) -> (result: Self)
        ensures
            result@ == (CompileResultView {
                success: true,
                output: bounded_text(text@, *options),
                error: None,
                stage,
                lines: lines_of(text@).len(),
                truncated: is_truncated(text@, *options),
            }),
    {
        let (output, truncated) = process_output(text, options);
        CompileResult {
            success: true,
            output,
            error: None,
            stage,
            lines: line_count(text),
            truncated,
        }
    }

    /// The result of a run that produced nothing to show: it carries
    /// `message` and nothing else.
    pub fn failed(stage: CompileStage, message: String) -> (result: Self)
        ensures
            result@ == (CompileResultView {
                success: false,
                output: Seq::empty(),
                error: Some(message@),
                stage,
                lines: 0,
                truncated: false,
            }),
    {
        CompileResult {
            success: false,
            output: String::new(),
            error: Some(message),
            stage,
            lines: 0,
            truncated: false,
        }
    }
}

/// Reads what came of a run of the toolchain for `stage` and reports it. A
/// run that succeeded gives its output, bounded as `options` ask. A run that
/// the toolchain ended with a status other than zero gives a failure that
/// carries what the toolchain wrote to standard error, as it stands. A run
/// that ended with status zero and left no artifact file where one was asked
/// for gives a failure that says so. A failed compilation is a result like
/// any other: this function has no error of its own.
pub fn explore_compile(
    stage: CompileStage,
    options: &CompileOptions,
    outcome: &ToolchainOutcome,
) -> (result: CompileResult)
    ensures
        result@ == explored(stage, *options, outcome@),
        result@.is_well_formed(),
{
    if !outcome.exit_ok {
        return CompileResult::failed(stage, outcome.stderr.clone());
    }
    match stage.emission_mode() {
        EmissionMode::ArtifactFile => {
            if let Some(text) = &outcome.artifact {
                CompileResult::completed(stage, options, text.as_str())
            } else {
                let mut message = "Failed to generate ".to_owned();
                message.append(stage.name());
                message.append(" output");
                CompileResult::failed(stage, message)
            }
        },
        EmissionMode::StdoutCapture => {
            CompileResult::completed(stage, options, outcome.stdout.as_str())
        },
    }
}

/// Whether the artifact file is to be looked for and read after a run: only
/// for a stage that emits one, and only after the toolchain exited with
/// status zero.
pub fn artifact_expected(stage: CompileStage, exit_ok: bool) -> (expected: bool)
    ensures
        expected == (exit_ok && stage.spec_emission_mode() == EmissionMode::ArtifactFile),
{
    exit_ok && stage.emission_mode() == EmissionMode::ArtifactFile
}

/// A run that did not succeed is reported as a failure: no output, no lines
/// counted, nothing truncated, and an error. After an exit with a status
/// other than zero the error is what the toolchain wrote to standard error,
/// unchanged; so the error is empty only where the toolchain failed without a
/// word.
pub proof fn failed_run_is_reported(
    stage: CompileStage,
    options: CompileOptions,
    outcome: ToolchainOutcomeView,
)
    requires
        !succeeded(stage, outcome),
    ensures
        !explored(stage, options, outcome).success,
        explored(stage, options, outcome).output.len() == 0,
        explored(stage, options, outcome).error is Some,
        !outcome.exit_ok ==> explored(stage, options, outcome).error == Some(outcome.stderr),
        outcome.exit_ok || outcome.stderr.len() > 0 ==> explored(
            stage,
            options,
            outcome,
        ).error->0.len() > 0,
        explored(stage, options, outcome).lines == 0,
        !explored(stage, options, outcome).truncated,
{
    reveal_strlit("Failed to generate ");
}

/// The names under which one request keeps its files in its own directory.
#[derive(Debug, Clone)]
pub struct Workspace {
    /// The token that tells this request's names from those of any other.
    pub token: u32,
    /// The name of the file that holds the source text.
    pub source_file: String,
    /// The name under which the toolchain compiles the source.
    pub crate_name: String,
    /// The name of the artifact file, for a stage that emits one.
    pub artifact_file: Option<String>,
}

/// A `Workspace` with its names as sequences of characters.
pub struct WorkspaceView {
    pub token: u32,
    pub source_file: Seq<char>,
    pub crate_name: Seq<char>,
    pub artifact_file: Option<Seq<char>>,
}

impl View for Workspace {
    type V = WorkspaceView;

    open spec fn view(&self) -> WorkspaceView {
        WorkspaceView {
            token: self.token,
            source_file: self.source_file@,
            crate_name: self.crate_name@,
            artifact_file: self.artifact_file.deep_view(),
        }
    }
}

/// The crate name of the request with the given token.
pub open spec fn crate_name_of(token: u32) -> Seq<char> {
    "temp_"@ + decimal(token as nat)
}

/// The name of the source file of the request with the given token.
pub open spec fn source_file_of(token: u32) -> Seq<char> {
    crate_name_of(token) + ".rs"@
}

/// The workspace of a request for `stage` with the given token.
pub open spec fn planned(stage: CompileStage, token: u32) -> WorkspaceView {
    WorkspaceView {
        token,
        source_file: source_file_of(token),
        crate_name: crate_name_of(token),
        artifact_file: stage.spec_artifact_file(),
    }
}

/// A number drawn by `rand::thread_rng().gen::<u32>()`: any number may come
/// back, and another one at each call, so nothing is claimed of it. The
/// generator of the `rand` crate panics if the operating system cannot seed
/// it.
#[verifier::external_body]
fn random_token() -> (token: u32) {
    rand::thread_rng().gen()
}

/// Names the files of a request for `stage` after `token`.
pub fn plan_workspace(stage: CompileStage, token: u32) -> (workspace: Workspace)
    ensures
        workspace@ == planned(stage, token),
{
    let mut crate_name = "temp_".to_owned();
    push_decimal(&mut crate_name, token as usize);
    let mut source_file = crate_name.clone();
    source_file.append(".rs");
    let artifact_file = match stage.artifact_file() {
        Some(name) => Some(name.to_owned()),
        None => None,
    };
    Workspace { token, source_file, crate_name, artifact_file }
}

/// Names the files of a new request for `stage` after a token drawn at random.
pub fn open_workspace(stage: CompileStage) -> (workspace: Workspace)
    ensures
        workspace@ == planned(stage, workspace.token),
{
    plan_workspace(stage, random_token())
}

/// Requests with different tokens have different names: neither their source
/// files nor their crate names coincide.
pub proof fn tokens_tell_workspaces_apart(a: u32, b: u32)
    requires
        a != b,
    ensures
        crate_name_of(a) != crate_name_of(b),
        source_file_of(a) != source_file_of(b),
{
    let prefix = "temp_"@;
    let suffix = ".rs"@;
    if crate_name_of(a) == crate_name_of(b) {
        assert(decimal(a as nat) == crate_name_of(a).skip(prefix.len() as int));
        assert(decimal(b as nat) == crate_name_of(b).skip(prefix.len() as int));
        lemma_decimal_injective(a as nat, b as nat);
    }
    if source_file_of(a) == source_file_of(b) {
        let both = source_file_of(a);
        assert(crate_name_of(a) == both.take(both.len() - suffix.len()));
        assert(crate_name_of(b) == both.take(both.len() - suffix.len()));
    }
}

/// The name of the program that is run.
pub fn toolchain_program() -> (program: &'static str)
    ensures
        program@ == "rustc"@,
{
    "rustc"
}

/// One argument of a run of the toolchain. The two paths are named, not
/// spelled out: they lie in the directory of the request, which only the
/// caller knows, and are handed to the toolchain as the caller holds them.
#[derive(Debug, Clone, PartialEq, Eq)]
pub enum Argument {
    /// The path of the source file of the request.
    SourcePath,
    /// The path of the artifact file of the request.
    ArtifactPath,
    /// A text that is handed over as it stands.
    Text(String),
}

/// An `Argument` with its text as a sequence of characters.
pub enum ArgumentView {
    SourcePath,
    ArtifactPath,
    Text(Seq<char>),
}

impl View for Argument {
    type V = ArgumentView;

    open spec fn view(&self) -> ArgumentView {
        match *self {
            Argument::SourcePath => ArgumentView::SourcePath,
            Argument::ArtifactPath => ArgumentView::ArtifactPath,
            Argument::Text(text) => ArgumentView::Text(text@),
        }
    }
}

impl DeepView for Argument {
    type V = ArgumentView;

    open spec fn deep_view(&self) -> ArgumentView {
        self@
    }
}

/// The flags as arguments: each is handed over as it stands.
pub open spec fn as_texts(flags: Seq<Seq<char>>) -> Seq<ArgumentView> {
    flags.map_values(|flag: Seq<char>| ArgumentView::Text(flag))
}

/// The arguments the toolchain is run with for `stage`: the source file, the
/// crate name, colour switched off, the flags of the stage, and for a stage
/// that emits an artifact file the file to write.
pub open spec fn toolchain_args(stage: CompileStage, crate_name: Seq<char>) -> Seq<ArgumentView> {
    seq![
        ArgumentView::SourcePath,
        ArgumentView::Text("--crate-name"@),
        ArgumentView::Text(crate_name),
        ArgumentView::Text("--color"@),
        ArgumentView::Text("never"@),
    ] + as_texts(stage.spec_rustc_args()) + if stage.spec_emission_mode()
        == EmissionMode::ArtifactFile {
        seq![ArgumentView::Text("-o"@), ArgumentView::ArtifactPath]
    } else {
        Seq::empty()
    }
}

/// The arguments the toolchain is run with for `stage`, in order. The path
/// of the artifact file is among them exactly for a stage that emits one.
pub fn toolchain_arguments(stage: CompileStage, crate_name: &str) -> (args: Vec<Argument>)
    ensures
        args.deep_view() == toolchain_args(stage, crate_name@),
{
    let mut args: Vec<Argument> = Vec::new();
    args.push(Argument::SourcePath);
    args.push(Argument::Text("--crate-name".to_owned()));
    args.push(Argument::Text(crate_name.to_owned()));
    args.push(Argument::Text("--color".to_owned()));
    args.push(Argument::Text("never".to_owned()));
    let ghost head = args.deep_view();
    assert(head == seq![
        ArgumentView::SourcePath,
        ArgumentView::Text("--crate-name"@),
        ArgumentView::Text(crate_name@),
        ArgumentView::Text("--color"@),
        ArgumentView::Text("never"@),
    ]);
    let flags = stage.get_rustc_args();
    let mut i: usize = 0;
    while i < flags.len()
        invariant
            i <= flags.len(),
            flags.deep_view() == stage.spec_rustc_args(),
            args.deep_view() == head + as_texts(stage.spec_rustc_args().take(i as int)),
        decreases flags.len() - i,
    {
        let ghost before = args.deep_view();
        args.push(Argument::Text(flags[i].to_owned()));
        proof {
            let wanted = stage.spec_rustc_args();
            assert(flags.deep_view()[i as int] == flags[i as int]@);
            assert(args.deep_view() =~= before.push(ArgumentView::Text(wanted[i as int])));
            assert(as_texts(wanted.take(i + 1)) =~= as_texts(wanted.take(i as int)).push(
                ArgumentView::Text(wanted[i as int]),
            ));
        }
        i += 1;
    }
    assert(stage.spec_rustc_args().take(i as int) == stage.spec_rustc_args());
    if stage.emission_mode() == EmissionMode::ArtifactFile {
        let ghost before = args.deep_view();
        args.push(Argument::Text("-o".to_owned()));
        args.push(Argument::ArtifactPath);
        assert(args.deep_view() =~= before + seq![
            ArgumentView::Text("-o"@),
            ArgumentView::ArtifactPath,
        ]);
    }
    args
}

/// The arguments the toolchain is run with to learn its version.
pub fn version_arguments() -> (args: Vec<&'static str>)
    ensures
        args.deep_view() == seq!["--version"@],
{
    let args = vec!["--version"];
    assert(args.deep_view() == seq!["--version"@]);
    args
}

/// The version that a run of the toolchain for its version reports: what it
/// wrote to standard output, without the white space at either end, where it
/// exited with status zero; `"Unknown"` where it did not.
pub open spec fn reported_version(exit_ok: bool, stdout: Seq<char>) -> Seq<char> {
    if exit_ok {
        trimmed(stdout)
    } else {
        "Unknown"@
    }
}

/// Reads the version of the toolchain from what came of a run for it.
pub fn get_rust_version(exit_ok: bool, stdout: &str) -> (version: String)
    ensures
        version@ == reported_version(exit_ok, stdout@),
{
    if exit_ok {
        trim(stdout)
    } else {
        "Unknown".to_owned()
    }
}

/// The JSON value type of the `serde_json` crate, carried through as it is.
#[verifier::external_type_specification]
#[verifier::external_body]
pub struct ExJsonValue(serde_json::Value);

/// The error type of the `serde_json` crate, carried through as it is.
#[verifier::external_type_specification]
#[verifier::external_body]
pub struct ExJsonError(serde_json::Error);

/// Whether the `serde_json` crate reads the text as one JSON value: whether
/// `serde_json::from_str::<serde_json::Value>` returns `Ok` for it.
pub uninterp spec fn is_json(text: Seq<char>) -> bool;

/// `serde_json::from_str::<serde_json::Value>`: parses the text as one JSON
/// value. Whether it succeeds depends on the text alone and is named
/// `is_json`; nothing is claimed of the value or of the error.
#[verifier::external_body]
fn parse_json(text: &str) -> (parsed: Result<serde_json::Value, serde_json::Error>)
    ensures
        parsed is Ok <==> is_json(text@),
{
    serde_json::from_str(text)
}

/// The text of a `serde_json::Error`, as its `Display` writes it. Nothing is
/// claimed of it.
#[verifier::external_body]
fn describe_json_error(error: &serde_json::Error) -> (message: String) {
    error.to_string()
}

/// Why no syntax tree in JSON could be had.
#[derive(Debug)]
pub enum AstJsonError {
    /// The toolchain did not exit with status zero; `message` carries what it
    /// wrote to standard error.
    Toolchain { message: String },
    /// The toolchain's output is not JSON; `message` says where it went wrong.
    Malformed { message: String },
}

impl AstJsonError {
    /// The text of the error.
    pub fn message(&self) -> (message: &str)
        ensures
            message@ == match *self {
                AstJsonError::Toolchain { message } => message@,
                AstJsonError::Malformed { message } => message@,
            },
    {
        match self {
            AstJsonError::Toolchain { message } => message.as_str(),
            AstJsonError::Malformed { message } => message.as_str(),
        }
    }
}

/// The name of the source file of a request for the syntax tree in JSON.
pub fn ast_json_source_file() -> (name: &'static str)
    ensures
        name@ == "temp_ast.rs"@,
{
    "temp_ast.rs"
}

/// The arguments the toolchain is run with for the syntax tree in JSON.
pub fn ast_json_arguments() -> (args: Vec<Argument>)
    ensures
        args.deep_view() == seq![
            ArgumentView::SourcePath,
            ArgumentView::Text("-Z"@),
            ArgumentView::Text("ast-json"@),
            ArgumentView::Text("--crate-name"@),
            ArgumentView::Text("temp_ast"@),
            ArgumentView::Text("--color"@),
            ArgumentView::Text("never"@),
        ],
{
    let mut args: Vec<Argument> = Vec::new();
    args.push(Argument::SourcePath);
    args.push(Argument::Text("-Z".to_owned()));
    args.push(Argument::Text("ast-json".to_owned()));
    args.push(Argument::Text("--crate-name".to_owned()));
    args.push(Argument::Text("temp_ast".to_owned()));
    args.push(Argument::Text("--color".to_owned()));
    args.push(Argument::Text("never".to_owned()));
    assert(args.deep_view() == seq![
        ArgumentView::SourcePath,
        ArgumentView::Text("-Z"@),
        ArgumentView::Text("ast-json"@),
        ArgumentView::Text("--crate-name"@),
        ArgumentView::Text("temp_ast"@),
        ArgumentView::Text("--color"@),
        ArgumentView::Text("never"@),
    ]);
    args
}

/// What is handed back for a parsed syntax tree: the value where there is
/// one, and where there is none an error that carries the parser's words.
pub fn ast_json_parsed(parsed: Result<serde_json::Value, serde_json::Error>) -> (tree: Result<
    serde_json::Value,
    AstJsonError,
>)
    ensures
        parsed matches Ok(value) ==> tree == Ok::<serde_json::Value, AstJsonError>(value),
        parsed is Err ==> tree matches Err(AstJsonError::Malformed { .. }),
{
    match parsed {
        Ok(value) => Ok(value),
        Err(error) => Err(AstJsonError::Malformed { message: describe_json_error(&error) }),
    }
}

/// Reads the syntax tree in JSON from what came of a run of the toolchain for
/// it. A run that did not exit with status zero gives an error that carries
/// what the toolchain wrote to standard error; any other run gives the JSON
/// value in its standard output, or an error where that is not JSON.
pub fn get_ast_json(exit_ok: bool, stdout: &str, stderr: &str) -> (tree: Result<
    serde_json::Value,
    AstJsonError,
>)
    ensures
        tree is Ok <==> exit_ok && is_json(stdout@),
        !exit_ok ==> (tree matches Err(AstJsonError::Toolchain { message }) && message@
            == "Failed to get AST JSON: "@ + stderr@),
        exit_ok && !is_json(stdout@) ==> tree matches Err(AstJsonError::Malformed { .. }),
{
    if exit_ok {
        ast_json_parsed(parse_json(stdout))
    } else {
        let mut message = "Failed to get AST JSON: ".to_owned();
        message.append(stderr);
        Err(AstJsonError::Toolchain { message })
    }
}

} // verus!
