//! What the service answers: the shapes of its requests and responses, and
//! the decisions between them. A request is admitted or refused before
//! anything runs; a result and a version are put together into a response;
//! the catalog and the version are listed.

use crate::compiler::{CompileResult, CompileResultView};
use crate::output::CompileOptions;
use crate::stage::{catalog, get_available_stages, CompileStage};
use crate::text::{contains, contains_text};
use vstd::prelude::*;

verus! {

/// A request to explore one stage of the compilation of `code`.
#[derive(Debug)]
pub struct CompileRequest {
    /// The source text.
    pub code: String,
    /// The identifier of the stage, in any case and under any of its aliases.
    pub stage: String,
    /// The options; all are off where none are given.
    pub options: Option<CompileOptionsRequest>,
}

/// The options of a request, each of which may be missing.
#[derive(Debug)]
pub struct CompileOptionsRequest {
    pub verbose: Option<bool>,
    pub brief: Option<bool>,
    pub full_output: Option<bool>,
}

/// The answer to a request that was explored.
#[derive(Debug)]
pub struct CompileResponse {
    pub success: bool,
    pub output: String,
    pub error: Option<String>,
    /// The canonical identifier of the stage.
    pub stage: String,
    pub stage_name: String,
    pub stage_description: String,
    pub lines: usize,
    pub truncated: bool,
    pub rust_version: String,
}

/// One entry of the catalog as it is listed.
#[derive(Debug)]
pub struct StageInfo {
    pub id: String,
    pub name: String,
    pub description: String,
}

/// The catalog as it is listed.
#[derive(Debug)]
pub struct StagesResponse {
    pub stages: Vec<StageInfo>,
}

/// The version of the toolchain as it is reported.
#[derive(Debug)]
pub struct VersionResponse {
    pub version: String,
    /// Whether the toolchain is of the nightly channel.
    pub is_nightly: bool,
}

/// An answer that reports an error instead of a result.
#[derive(Debug)]
pub enum ApiError {
    /// The request is at fault: it names no stage.
    BadRequest { error: String },
    /// The service is at fault: something it relies on failed.
    Internal { error: String },
}

/// A request that was admitted: the stage it resolved to and its options,
/// with every missing one switched off.
#[derive(Debug, Clone, Copy, PartialEq, Eq, Structural)]
pub struct CompileJob {
    pub stage: CompileStage,
    pub options: CompileOptions,
}

/// A `CompileResponse` with its texts as sequences of characters.
pub struct CompileResponseView {
    pub success: bool,
    pub output: Seq<char>,
    pub error: Option<Seq<char>>,
    pub stage: Seq<char>,
    pub stage_name: Seq<char>,
    pub stage_description: Seq<char>,
    pub lines: nat,
    pub truncated: bool,
    pub rust_version: Seq<char>,
}

impl View for CompileResponse {
    type V = CompileResponseView;

    open spec fn view(&self) -> CompileResponseView {
        CompileResponseView {
            success: self.success,
            output: self.output@,
            error: self.error.deep_view(),
            stage: self.stage@,
            stage_name: self.stage_name@,
            stage_description: self.stage_description@,
            lines: self.lines as nat,
            truncated: self.truncated,
            rust_version: self.rust_version@,
        }
    }
}

/// A `StageInfo` with its texts as sequences of characters.
pub struct StageInfoView {
    pub id: Seq<char>,
    pub name: Seq<char>,
    pub description: Seq<char>,
}

impl View for StageInfo {
    type V = StageInfoView;

    open spec fn view(&self) -> StageInfoView {
        StageInfoView { id: self.id@, name: self.name@, description: self.description@ }
    }
}

/// An option that is missing is off.
pub open spec fn flag(requested: Option<bool>) -> bool {
    requested == Some(true)
}

/// The options that a request asks for.
pub open spec fn options_of(requested: Option<CompileOptionsRequest>) -> CompileOptions {
    match requested {
        Some(given) => CompileOptions {
            verbose: flag(given.verbose),
            brief: flag(given.brief),
            full_output: flag(given.full_output),
        },
        None => CompileOptions { verbose: false, brief: false, full_output: false },
    }
}

/// The words with which an identifier that names no stage is refused.
pub open spec fn unknown_stage_message(identifier: Seq<char>) -> Seq<char> {
    "Unknown compile stage: "@ + identifier
}

/// The entry of `stage` in the listed catalog.
pub open spec fn info_of(stage: CompileStage) -> StageInfoView {
    StageInfoView {
        id: stage.spec_id(),
        name: stage.spec_name(),
        description: stage.spec_description(),
    }
}

/// The version reported where the toolchain could not be asked for it.
pub open spec fn version_or_unknown(version: Option<Seq<char>>) -> Seq<char> {
    match version {
        Some(text) => text,
        None => "Unknown"@,
    }
}

/// The response for `result`, with the version of the toolchain beside it.
pub open spec fn response_for(
    result: CompileResultView,
    version: Option<Seq<char>>,
) -> CompileResponseView {
    CompileResponseView {
        success: result.success,
        output: result.output,
        error: result.error,
        stage: result.stage.spec_id(),
        stage_name: result.stage.spec_name(),
        stage_description: result.stage.spec_description(),
        lines: result.lines,
        truncated: result.truncated,
        rust_version: version_or_unknown(version),
    }
}

impl ApiError {
    /// The HTTP status that goes with the error.
    pub fn status(&self) -> (status: u16)
        ensures
            status == match *self {
                ApiError::BadRequest { .. } => 400u16,
                ApiError::Internal { .. } => 500u16,
            },
    {
        match self {
            ApiError::BadRequest { .. } => 400,
            ApiError::Internal { .. } => 500,
        }
    }

    /// The text of the error.
    pub fn message(&self) -> (message: &str)
        ensures
            message@ == match *self {
                ApiError::BadRequest { error } => error@,
                ApiError::Internal { error } => error@,
            },
    {
        match self {
            ApiError::BadRequest { error } => error.as_str(),
            ApiError::Internal { error } => error.as_str(),
        }
    }
}

/// The options that a request asks for: each one that is missing is off.
pub fn resolve_options(requested: &Option<CompileOptionsRequest>) -> (options: CompileOptions)
    ensures
        options == options_of(*requested),
{
    match requested {
        Some(given) => CompileOptions {
            verbose: given.verbose == Some(true),
            brief: given.brief == Some(true),
            full_output: given.full_output == Some(true),
        },
        None => CompileOptions::default(),
    }
}

/// Admits a request or refuses it, before anything is run for it. A request
/// whose identifier resolves to a stage is admitted with that stage and its
/// options; any other is refused as the caller's fault, in words that repeat
/// the identifier as it was sent.
pub fn compile(request: &CompileRequest) -> (admitted: Result<CompileJob, ApiError>)
    ensures
        match CompileStage::resolve(request.stage@) {
            Some(stage) => admitted == Ok::<CompileJob, ApiError>(
                CompileJob { stage, options: options_of(request.options) },
            ),
            None => admitted matches Err(ApiError::BadRequest { error }) && error@
                == unknown_stage_message(request.stage@),
        },
{
    match CompileStage::from_str(request.stage.as_str()) {
        Some(stage) => Ok(CompileJob { stage, options: resolve_options(&request.options) }),
        None => {
            let mut error = "Unknown compile stage: ".to_owned();
            error.append(request.stage.as_str());
            Err(ApiError::BadRequest { error })
        },
    }
}

/// Puts the result of an exploration and the version of the toolchain
/// together into the response. Where the toolchain could not be asked for its
/// version, the response says `"Unknown"`.
pub fn respond(result: CompileResult, rust_version: Option<String>) -> (response: CompileResponse)
    ensures
        response@ == response_for(result@, rust_version.deep_view()),
{
    let stage = result.stage;
    let rust_version = match rust_version {
        Some(text) => text,
        None => "Unknown".to_owned(),
    };
    CompileResponse {
        success: result.success,
        output: result.output,
        error: result.error,
        stage: stage.id().to_owned(),
        stage_name: stage.name().to_owned(),
        stage_description: stage.description().to_owned(),
        lines: result.lines,
        truncated: result.truncated,
        rust_version,
    }
}

/// The answer to a request whose exploration could not be carried out.
pub fn internal_error(detail: &str) -> (error: ApiError)
    ensures
        error matches ApiError::Internal { error: text } && text@ == "Internal server error: "@
            + detail@,
{
    let mut error = "Internal server error: ".to_owned();
    error.append(detail);
    ApiError::Internal { error }
}

impl StageInfo {
    /// The entry of `stage` in the listed catalog.
    pub fn of(stage: CompileStage) -> (info: StageInfo)
        ensures
            info@ == info_of(stage),
    {
        StageInfo {
            id: stage.id().to_owned(),
            name: stage.name().to_owned(),
            description: stage.description().to_owned(),
        }
    }
}

/// Lists the catalog: one entry for each stage, in the order of the catalog.
pub fn list_stages() -> (response: StagesResponse)
    ensures
        response.stages@.len() == catalog().len(),
        forall|i: int|
            0 <= i < catalog().len() ==> (#[trigger] response.stages@[i])@ == info_of(catalog()[i]),
{
    let available = get_available_stages();
    let mut stages: Vec<StageInfo> = Vec::new();
    let mut i: usize = 0;
    while i < available.len()
        invariant
            i <= available.len(),
            available@ == catalog(),
            stages@.len() == i,
            forall|k: int| 0 <= k < i ==> (#[trigger] stages@[k])@ == info_of(catalog()[k]),
        decreases available.len() - i,
    {
        stages.push(StageInfo::of(available[i]));
        i += 1;
    }
    StagesResponse { stages }
}

/// Reports the version of the toolchain: the version as it was read, or
/// `"Unknown"` where the toolchain could not be asked for it, and whether it
/// is of the nightly channel, which it is exactly if it holds the word
/// `nightly`. A toolchain that cannot be asked is no error here: the version
/// is advice and holds up no request.
pub fn rust_version(version: Option<String>) -> (response: VersionResponse)
    ensures
        response.version@ == version_or_unknown(version.deep_view()),
        response.is_nightly == contains_text(response.version@, "nightly"@),
{
    let version = match version {
        Some(text) => text,
        None => "Unknown".to_owned(),
    };
    let is_nightly = contains(version.as_str(), "nightly");
    VersionResponse { version, is_nightly }
}

} // verus!
