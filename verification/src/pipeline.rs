//! The packaging pipeline as a linear state machine.
//!
//! One run is strictly sequential: the machine names one action for the host
//! to perform, the host reports the outcome, and the machine names the next
//! action. Every failure is fatal to the run (there is no retry and no
//! resumption), with two deliberate exceptions: a failed rename of the
//! finished image falls back to copy-and-delete, and the two best-effort
//! removal steps (the leftover compiler output after the fallback copy, and
//! the staging tree after success when `cleanup_staging` is set) proceed
//! whatever their outcome.
//!
//! A host may cancel a run between steps simply by not asking for the next
//! action; cancellation never means terminating a step already in flight.
//! Concurrent runs against the same output path are unsupported (they race
//! on the pre-clean step): the host must serialize builds per output path.

use vstd::prelude::*;
use crate::paths::PlannedPaths;
use crate::paths::plan_paths;
use crate::paths::spec_app_bundle_dst;
use crate::paths::spec_app_bundle_file_name;
use crate::paths::spec_app_bundle_src;
use crate::paths::spec_bundle_dir;
use crate::paths::spec_compiler_output_path;
use crate::paths::spec_image_name;
use crate::paths::spec_image_path;
use crate::paths::spec_output_dir;
use crate::paths::spec_staging_dir;
use crate::paths::spec_support_dir;
use crate::paths::spec_support_template_path;
use crate::paths::spec_volume_icon_path;
use crate::settings::Bundle;
use crate::settings::Settings;
use crate::settings::needs_app_bundle;
use crate::settings::spec_needs_app_bundle;

verus! {

/// Where one run currently stands. Every stage other than `Done` and
/// `Failed` means the host is performing the action issued on entering
/// that stage and owes the machine its outcome.
#[derive(Clone, Copy, Debug, PartialEq, Eq, Structural)]
pub enum Stage {
    EnsurePrerequisite,
    CleanOldOutput,
    CreateStagingDir,
    CreateSupportDir,
    CopyAppBundle,
    WriteSupportTemplate,
    SynthesizeIcon,
    CopyVolumeIcon,
    InvokeCompiler,
    Relocate,
    RelocateFallbackCopy,
    RelocateFallbackRemove,
    Sign,
    CleanupStaging,
    Done,
    Failed,
}

/// Which step of a run failed. Each variant identifies the most specific
/// failing step, so the caller can report exact context.
#[derive(Clone, Copy, Debug, PartialEq, Eq, Structural)]
pub enum PipelineError {
    PrerequisiteFailed,
    RemoveOldOutputFailed,
    CreateStagingDirFailed,
    CreateSupportDirFailed,
    CopyAppBundleFailed,
    WriteSupportTemplateFailed,
    IconSynthesisFailed,
    CopyVolumeIconFailed,
    CompilerFailed,
    RelocationFailed,
    SigningFailed,
}

/// One unit of work the host must perform for the machine.
///
/// Semantics the host must honor:
/// - `RemoveDirIfExists` succeeds when the directory is already absent and
///   otherwise deletes it recursively; it fails only when deletion fails.
/// - `CreateDirAll` creates the directory and any missing parents.
/// - `CopyDir` is a deep copy preserving structure and contents exactly.
/// - `WriteSupportTemplate` writes the fixed embedded license-resource
///   template (see `crate::resources::support_template_content`).
/// - `SynthesizeIcon` asks the external icon generator for an optional
///   generated icon-resource file for the staging tree.
/// - `RunCompiler` invokes the external disk-image compiler from
///   `working_dir`, with captured (piped, not inherited) output streams,
///   blocking until it exits; a non-zero exit or a launch error is failure.
/// - `RemoveFileBestEffort` may fail; the machine proceeds either way.
/// - `SignImage` hands the path and identity to the external signer.
/// - `Finish` and `Abort` end the run; no further outcome is owed.
#[derive(Clone, Debug, PartialEq, Eq)]
pub enum Action {
    BuildAppBundle,
    RemoveDirIfExists { path: String },
    CreateDirAll { path: String },
    CopyDir { src: String, dst: String },
    WriteSupportTemplate { path: String },
    SynthesizeIcon { staging_dir: String },
    CopyFile { src: String, dst: String },
    RunCompiler {
        working_dir: String,
        image_name: String,
        volume_name: String,
        fs_format: String,
        src_folder: String,
        license_path: Option<String>,
        skip_ci_checks: bool,
        timeout_ms: Option<u64>,
    },
    RenameFile { from: String, to: String },
    RemoveFileBestEffort { path: String },
    SignImage { path: String, identity: String, deep: bool },
    Finish { image_path: String },
    Abort { error: PipelineError },
}

/// Mathematical model of an `Action`, over sequences of characters.
pub enum ActionV {
    BuildAppBundle,
    RemoveDirIfExists { path: Seq<char> },
    CreateDirAll { path: Seq<char> },
    CopyDir { src: Seq<char>, dst: Seq<char> },
    WriteSupportTemplate { path: Seq<char> },
    SynthesizeIcon { staging_dir: Seq<char> },
    CopyFile { src: Seq<char>, dst: Seq<char> },
    RunCompiler {
        working_dir: Seq<char>,
        image_name: Seq<char>,
        volume_name: Seq<char>,
        fs_format: Seq<char>,
        src_folder: Seq<char>,
        license_path: Option<Seq<char>>,
        skip_ci_checks: bool,
        timeout_ms: Option<u64>,
    },
    RenameFile { from: Seq<char>, to: Seq<char> },
    RemoveFileBestEffort { path: Seq<char> },
    SignImage { path: Seq<char>, identity: Seq<char>, deep: bool },
    Finish { image_path: Seq<char> },
    Abort { error: PipelineError },
}

/// View of an optional string as an optional character sequence.
pub open spec fn spec_opt_str(o: Option<String>) -> Option<Seq<char>> {
    match o {
        Option::Some(p) => Option::Some(p@),
        Option::None => Option::None,
    }
}

impl View for Action {
    type V = ActionV;

    open spec fn view(&self) -> ActionV {
        match self {
            Action::BuildAppBundle => ActionV::BuildAppBundle,
            Action::RemoveDirIfExists { path } => ActionV::RemoveDirIfExists { path: path@ },
            Action::CreateDirAll { path } => ActionV::CreateDirAll { path: path@ },
            Action::CopyDir { src, dst } => ActionV::CopyDir { src: src@, dst: dst@ },
            Action::WriteSupportTemplate { path } => ActionV::WriteSupportTemplate { path: path@ },
            Action::SynthesizeIcon { staging_dir } => ActionV::SynthesizeIcon { staging_dir: staging_dir@ },
            Action::CopyFile { src, dst } => ActionV::CopyFile { src: src@, dst: dst@ },
            Action::RunCompiler {
                working_dir,
                image_name,
                volume_name,
                fs_format,
                src_folder,
                license_path,
                skip_ci_checks,
                timeout_ms,
            } => ActionV::RunCompiler {
                working_dir: working_dir@,
                image_name: image_name@,
                volume_name: volume_name@,
                fs_format: fs_format@,
                src_folder: src_folder@,
                license_path: spec_opt_str(*license_path),
                skip_ci_checks: *skip_ci_checks,
                timeout_ms: *timeout_ms,
            },
            Action::RenameFile { from, to } => ActionV::RenameFile { from: from@, to: to@ },
            Action::RemoveFileBestEffort { path } => ActionV::RemoveFileBestEffort { path: path@ },
            Action::SignImage { path, identity, deep } => ActionV::SignImage {
                path: path@,
                identity: identity@,
                deep: *deep,
            },
            Action::Finish { image_path } => ActionV::Finish { image_path: image_path@ },
            Action::Abort { error } => ActionV::Abort { error: *error },
        }
    }
}

/// Outcome the host reports for the action of the current stage.
/// `IconReady` is the outcome of icon synthesis alone and carries the
/// optional path of the generated icon resource; every other action
/// reports plain success or failure.
#[derive(Clone, Debug, PartialEq, Eq)]
pub enum StepOutcome {
    Succeeded,
    IconReady { icon_path: Option<String> },
    Failed,
}

/// Mathematical model of a `StepOutcome`.
pub enum OutcomeV {
    Succeeded,
    IconReady { icon_path: Option<Seq<char>> },
    Failed,
}

impl View for StepOutcome {
    type V = OutcomeV;

    open spec fn view(&self) -> OutcomeV {
        match self {
            StepOutcome::Succeeded => OutcomeV::Succeeded,
            StepOutcome::IconReady { icon_path } => OutcomeV::IconReady {
                icon_path: spec_opt_str(*icon_path),
            },
            StepOutcome::Failed => OutcomeV::Failed,
        }
    }
}

/// The outcome kind the host may report at a stage: icon synthesis reports
/// `IconReady` (or failure), every other stage reports `Succeeded` or
/// `Failed`.
pub open spec fn spec_outcome_fits(stage: Stage, o: OutcomeV) -> bool {
    match o {
        OutcomeV::Succeeded => stage != Stage::SynthesizeIcon,
        OutcomeV::IconReady { .. } => stage == Stage::SynthesizeIcon,
        OutcomeV::Failed => true,
    }
}

/// The error reported when the action of `stage` fails fatally.
pub open spec fn spec_fatal_error(stage: Stage) -> PipelineError {
    match stage {
        Stage::EnsurePrerequisite => PipelineError::PrerequisiteFailed,
        Stage::CleanOldOutput => PipelineError::RemoveOldOutputFailed,
        Stage::CreateStagingDir => PipelineError::CreateStagingDirFailed,
        Stage::CreateSupportDir => PipelineError::CreateSupportDirFailed,
        Stage::CopyAppBundle => PipelineError::CopyAppBundleFailed,
        Stage::WriteSupportTemplate => PipelineError::WriteSupportTemplateFailed,
        Stage::SynthesizeIcon => PipelineError::IconSynthesisFailed,
        Stage::CopyVolumeIcon => PipelineError::CopyVolumeIconFailed,
        Stage::InvokeCompiler => PipelineError::CompilerFailed,
        Stage::Relocate => PipelineError::RelocationFailed,
        Stage::RelocateFallbackCopy => PipelineError::RelocationFailed,
        Stage::Sign => PipelineError::SigningFailed,
        // The remaining stages are terminal or best-effort: failure there
        // is never fatal, so this value is immaterial.
        _ => PipelineError::PrerequisiteFailed,
    }
}

/// The disk-image compiler invocation: working directory is the
/// application-bundle directory (the compiler writes its output relative to
/// its working directory), volume name is the product name, target format is
/// a journaled filesystem, and the source folder is the staging tree.
pub open spec fn spec_compiler_action(s: Settings) -> ActionV {
    ActionV::RunCompiler {
        working_dir: spec_bundle_dir(s),
        image_name: spec_image_name(s),
        volume_name: s.binary_name@,
        fs_format: "HFS+"@,
        src_folder: spec_staging_dir(s),
        license_path: spec_opt_str(s.license_path),
        skip_ci_checks: s.skip_ci_checks,
        timeout_ms: s.compiler_timeout_ms,
    }
}

/// After successful signing (or when signing is skipped): either remove the
/// staging tree best-effort, or finish.
pub open spec fn spec_after_signing(s: Settings) -> (Stage, ActionV) {
    if s.cleanup_staging {
        (Stage::CleanupStaging, ActionV::RemoveDirIfExists { path: spec_staging_dir(s) })
    } else {
        (Stage::Done, ActionV::Finish { image_path: spec_image_path(s) })
    }
}

/// After the image stands at its final path: sign it there if an identity
/// is configured (always after relocation, never before), else go on.
pub open spec fn spec_after_relocation(s: Settings) -> (Stage, ActionV) {
    match s.signing_identity {
        Option::Some(id) => (
            Stage::Sign,
            ActionV::SignImage { path: spec_image_path(s), identity: id@, deep: false },
        ),
        Option::None => spec_after_signing(s),
    }
}

/// The first stage and action of a run: build the application bundle when
/// no produced bundle carries its tag, else begin by removing the previous
/// run's output directory.
pub open spec fn spec_start(s: Settings, needs_bundle: bool) -> (Stage, ActionV) {
    if needs_bundle {
        (Stage::EnsurePrerequisite, ActionV::BuildAppBundle)
    } else {
        (Stage::CleanOldOutput, ActionV::RemoveDirIfExists { path: spec_output_dir(s) })
    }
}

/// The whole transition relation of one run: from the current stage and the
/// reported outcome to the next stage and the next action. Failure at any
/// stage is fatal, except at `Relocate` (fall back to copy-and-delete) and
/// at the two best-effort removal stages. The arms for `Done` and `Failed`
/// are never taken by `Pipeline::advance`, whose precondition excludes
/// finished runs.
pub open spec fn spec_step(s: Settings, stage: Stage, o: OutcomeV) -> (Stage, ActionV) {
    match (stage, o) {
        (Stage::Done, _) => (Stage::Done, ActionV::Finish { image_path: spec_image_path(s) }),
        (Stage::Failed, _) => (Stage::Failed, ActionV::Abort { error: spec_fatal_error(stage) }),
        (Stage::RelocateFallbackRemove, _) => spec_after_relocation(s),
        (Stage::CleanupStaging, _) => (Stage::Done, ActionV::Finish { image_path: spec_image_path(s) }),
        (Stage::Relocate, OutcomeV::Failed) => (
            Stage::RelocateFallbackCopy,
            ActionV::CopyFile { src: spec_compiler_output_path(s), dst: spec_image_path(s) },
        ),
        (st, OutcomeV::Failed) => (Stage::Failed, ActionV::Abort { error: spec_fatal_error(st) }),
        (Stage::EnsurePrerequisite, _) => (
            Stage::CleanOldOutput,
            ActionV::RemoveDirIfExists { path: spec_output_dir(s) },
        ),
        (Stage::CleanOldOutput, _) => (
            Stage::CreateStagingDir,
            ActionV::CreateDirAll { path: spec_staging_dir(s) },
        ),
        (Stage::CreateStagingDir, _) => (
            Stage::CreateSupportDir,
            ActionV::CreateDirAll { path: spec_support_dir(s) },
        ),
        (Stage::CreateSupportDir, _) => (
            Stage::CopyAppBundle,
            ActionV::CopyDir { src: spec_app_bundle_src(s), dst: spec_app_bundle_dst(s) },
        ),
        (Stage::CopyAppBundle, _) => (
            Stage::WriteSupportTemplate,
            ActionV::WriteSupportTemplate { path: spec_support_template_path(s) },
        ),
        (Stage::WriteSupportTemplate, _) => (
            Stage::SynthesizeIcon,
            ActionV::SynthesizeIcon { staging_dir: spec_staging_dir(s) },
        ),
        (Stage::SynthesizeIcon, OutcomeV::IconReady { icon_path: Option::Some(p) }) => (
            Stage::CopyVolumeIcon,
            ActionV::CopyFile { src: p, dst: spec_volume_icon_path(s) },
        ),
        (Stage::SynthesizeIcon, _) => (Stage::InvokeCompiler, spec_compiler_action(s)),
        (Stage::CopyVolumeIcon, _) => (Stage::InvokeCompiler, spec_compiler_action(s)),
        (Stage::InvokeCompiler, _) => (
            Stage::Relocate,
            ActionV::RenameFile { from: spec_compiler_output_path(s), to: spec_image_path(s) },
        ),
        (Stage::Relocate, _) => spec_after_relocation(s),
        (Stage::RelocateFallbackCopy, _) => (
            Stage::RelocateFallbackRemove,
            ActionV::RemoveFileBestEffort { path: spec_compiler_output_path(s) },
        ),
        (Stage::Sign, _) => spec_after_signing(s),
    }
}

/// One packaging run: the settings, the precomputed output locations, and
/// where the run currently stands.
#[derive(Clone, Debug)]
pub struct Pipeline {
    pub settings: Settings,
    pub paths: PlannedPaths,
    pub stage: Stage,
}

impl Pipeline {
    /// The precomputed paths agree with the pure path functions of the
    /// settings. Established by `start` and preserved by `advance`.
    pub open spec fn wf(self) -> bool {
        self.paths.wf(self.settings)
    }

    /// The run still owes the host an action outcome.
    pub open spec fn in_progress(self) -> bool {
        self.stage != Stage::Done && self.stage != Stage::Failed
    }

    /// Begins a run: plans all output locations and issues the first
    /// action, building the prerequisite application bundle exactly when no
    /// given descriptor carries its tag.
    pub fn start(settings: Settings, bundles: &Vec<Bundle>) -> (r: (Pipeline, Action))
        ensures
            r.0.wf(),
            r.0.settings == settings,
            (r.0.stage, r.1@) == spec_start(settings, spec_needs_app_bundle(bundles@)),
    {
        let needs_bundle = needs_app_bundle(bundles);
        let paths = plan_paths(&settings);
        if needs_bundle {
            let p = Pipeline { settings, paths, stage: Stage::EnsurePrerequisite };
            (p, Action::BuildAppBundle)
        } else {
            let path = paths.output_dir.clone();
            let p = Pipeline { settings, paths, stage: Stage::CleanOldOutput };
            (p, Action::RemoveDirIfExists { path })
        }
    }

    /// Consumes the outcome of the current stage's action and issues the
    /// next action, exactly as the transition relation `spec_step` says.
    pub fn advance(&mut self, outcome: StepOutcome) -> (a: Action)
        requires
            old(self).wf(),
            old(self).in_progress(),
            spec_outcome_fits(old(self).stage, outcome@),
        ensures
            final(self).wf(),
            final(self).settings == old(self).settings,
            final(self).paths == old(self).paths,
            (final(self).stage, a@) == spec_step(old(self).settings, old(self).stage, outcome@),
    {
        match (self.stage, outcome) {
            (Stage::Done, _) | (Stage::Failed, _) => unreached(),
            (Stage::RelocateFallbackRemove, _) => self.proceed_after_relocation(),
            (Stage::CleanupStaging, _) => {
                self.stage = Stage::Done;
                Action::Finish { image_path: self.paths.image_path.clone() }
            },
            (Stage::Relocate, StepOutcome::Failed) => {
                self.stage = Stage::RelocateFallbackCopy;
                Action::CopyFile {
                    src: self.paths.compiler_output_path.clone(),
                    dst: self.paths.image_path.clone(),
                }
            },
            (st, StepOutcome::Failed) => {
                self.stage = Stage::Failed;
                Action::Abort { error: fatal_error_of(st) }
            },
            (Stage::EnsurePrerequisite, _) => {
                self.stage = Stage::CleanOldOutput;
                Action::RemoveDirIfExists { path: self.paths.output_dir.clone() }
            },
            (Stage::CleanOldOutput, _) => {
                self.stage = Stage::CreateStagingDir;
                Action::CreateDirAll { path: self.paths.staging_dir.clone() }
            },
            (Stage::CreateStagingDir, _) => {
                self.stage = Stage::CreateSupportDir;
                Action::CreateDirAll { path: self.paths.support_dir.clone() }
            },
            (Stage::CreateSupportDir, _) => {
                self.stage = Stage::CopyAppBundle;
                Action::CopyDir {
                    src: self.paths.app_bundle_src.clone(),
                    dst: self.paths.app_bundle_dst.clone(),
                }
            },
            (Stage::CopyAppBundle, _) => {
                self.stage = Stage::WriteSupportTemplate;
                Action::WriteSupportTemplate { path: self.paths.support_template_path.clone() }
            },
            (Stage::WriteSupportTemplate, _) => {
                self.stage = Stage::SynthesizeIcon;
                Action::SynthesizeIcon { staging_dir: self.paths.staging_dir.clone() }
            },
            (Stage::SynthesizeIcon, StepOutcome::IconReady { icon_path: Some(p) }) => {
                self.stage = Stage::CopyVolumeIcon;
                Action::CopyFile { src: p, dst: self.paths.volume_icon_path.clone() }
            },
            (Stage::SynthesizeIcon, _) => self.invoke_compiler(),
            (Stage::CopyVolumeIcon, _) => self.invoke_compiler(),
            (Stage::InvokeCompiler, _) => {
                self.stage = Stage::Relocate;
                Action::RenameFile {
                    from: self.paths.compiler_output_path.clone(),
                    to: self.paths.image_path.clone(),
                }
            },
            (Stage::Relocate, _) => self.proceed_after_relocation(),
            (Stage::RelocateFallbackCopy, _) => {
                self.stage = Stage::RelocateFallbackRemove;
                Action::RemoveFileBestEffort { path: self.paths.compiler_output_path.clone() }
            },
            (Stage::Sign, _) => self.proceed_after_signing(),
        }
    }

    /// Enters the compiler stage and issues the compiler invocation.
    fn invoke_compiler(&mut self) -> (a: Action)
        requires
            old(self).wf(),
        ensures
            final(self).wf(),
            final(self).settings == old(self).settings,
            final(self).paths == old(self).paths,
            final(self).stage == Stage::InvokeCompiler,
            a@ == spec_compiler_action(old(self).settings),
    {
        self.stage = Stage::InvokeCompiler;
        Action::RunCompiler {
            working_dir: self.paths.bundle_dir.clone(),
            image_name: self.paths.image_name.clone(),
            volume_name: self.settings.binary_name.clone(),
            fs_format: String::from_str("HFS+"),
            src_folder: self.paths.staging_dir.clone(),
            license_path: clone_opt_string(&self.settings.license_path),
            skip_ci_checks: self.settings.skip_ci_checks,
            timeout_ms: self.settings.compiler_timeout_ms,
        }
    }

    /// Signs at the final path when an identity is configured, else goes on
    /// past the signing step.
    fn proceed_after_relocation(&mut self) -> (a: Action)
        requires
            old(self).wf(),
        ensures
            final(self).wf(),
            final(self).settings == old(self).settings,
            final(self).paths == old(self).paths,
            (final(self).stage, a@) == spec_after_relocation(old(self).settings),
    {
        let identity: Option<String> = clone_opt_string(&self.settings.signing_identity);
        match identity {
            Some(id) => {
                self.stage = Stage::Sign;
                Action::SignImage { path: self.paths.image_path.clone(), identity: id, deep: false }
            },
            None => self.proceed_after_signing(),
        }
    }

    /// Removes the staging tree best-effort when configured to, else
    /// finishes the run.
    fn proceed_after_signing(&mut self) -> (a: Action)
        requires
            old(self).wf(),
        ensures
            final(self).wf(),
            final(self).settings == old(self).settings,
            final(self).paths == old(self).paths,
            (final(self).stage, a@) == spec_after_signing(old(self).settings),
    {
        if self.settings.cleanup_staging {
            self.stage = Stage::CleanupStaging;
            Action::RemoveDirIfExists { path: self.paths.staging_dir.clone() }
        } else {
            self.stage = Stage::Done;
            Action::Finish { image_path: self.paths.image_path.clone() }
        }
    }
}

/// The most specific context the run can report for each failure: which
/// step failed, and at which path.
pub open spec fn spec_error_message(e: PipelineError, s: Settings) -> Seq<char> {
    match e {
        PipelineError::PrerequisiteFailed => "failed to build the macOS application bundle"@,
        PipelineError::RemoveOldOutputFailed => "failed to remove old "@ + spec_image_name(s),
        PipelineError::CreateStagingDirFailed => "failed to create staging directory at "@
            + spec_staging_dir(s),
        PipelineError::CreateSupportDirFailed => "failed to create support directory at "@
            + spec_support_dir(s),
        PipelineError::CopyAppBundleFailed => "failed to copy "@ + spec_app_bundle_file_name(s)
            + " into the staging directory"@,
        PipelineError::WriteSupportTemplateFailed => "failed to write the license resource template at "@
            + spec_support_template_path(s),
        PipelineError::IconSynthesisFailed => "failed to synthesize the volume icon"@,
        PipelineError::CopyVolumeIconFailed => "failed to create the volume icon at "@
            + spec_volume_icon_path(s),
        PipelineError::CompilerFailed => "error creating the disk image "@ + spec_image_name(s),
        PipelineError::RelocationFailed => "failed to move the disk image to "@ + spec_image_path(s),
        PipelineError::SigningFailed => "failed to sign the disk image at "@ + spec_image_path(s),
    }
}

impl Pipeline {
    /// Renders the most specific failure context of `e` for this run, with
    /// the affected path or file name spelled out.
    pub fn failure_message(&self, e: PipelineError) -> (r: String)
        requires
            self.wf(),
        ensures
            r@ == spec_error_message(e, self.settings),
    {
        match e {
            PipelineError::PrerequisiteFailed => String::from_str(
                "failed to build the macOS application bundle",
            ),
            PipelineError::RemoveOldOutputFailed => String::from_str("failed to remove old ")
                .concat(self.paths.image_name.as_str()),
            PipelineError::CreateStagingDirFailed => String::from_str(
                "failed to create staging directory at ",
            ).concat(self.paths.staging_dir.as_str()),
            PipelineError::CreateSupportDirFailed => String::from_str(
                "failed to create support directory at ",
            ).concat(self.paths.support_dir.as_str()),
            PipelineError::CopyAppBundleFailed => String::from_str("failed to copy ").concat(
                self.paths.app_bundle_file_name.as_str(),
            ).concat(" into the staging directory"),
            PipelineError::WriteSupportTemplateFailed => String::from_str(
                "failed to write the license resource template at ",
            ).concat(self.paths.support_template_path.as_str()),
            PipelineError::IconSynthesisFailed => String::from_str(
                "failed to synthesize the volume icon",
            ),
            PipelineError::CopyVolumeIconFailed => String::from_str(
                "failed to create the volume icon at ",
            ).concat(self.paths.volume_icon_path.as_str()),
            PipelineError::CompilerFailed => String::from_str("error creating the disk image ")
                .concat(self.paths.image_name.as_str()),
            PipelineError::RelocationFailed => String::from_str("failed to move the disk image to ")
                .concat(self.paths.image_path.as_str()),
            PipelineError::SigningFailed => String::from_str("failed to sign the disk image at ")
                .concat(self.paths.image_path.as_str()),
        }
    }
}

/// The error reported when the action of `st` fails fatally.
pub fn fatal_error_of(st: Stage) -> (e: PipelineError)
    ensures
        e == spec_fatal_error(st),
{
    match st {
        Stage::EnsurePrerequisite => PipelineError::PrerequisiteFailed,
        Stage::CleanOldOutput => PipelineError::RemoveOldOutputFailed,
        Stage::CreateStagingDir => PipelineError::CreateStagingDirFailed,
        Stage::CreateSupportDir => PipelineError::CreateSupportDirFailed,
        Stage::CopyAppBundle => PipelineError::CopyAppBundleFailed,
        Stage::WriteSupportTemplate => PipelineError::WriteSupportTemplateFailed,
        Stage::SynthesizeIcon => PipelineError::IconSynthesisFailed,
        Stage::CopyVolumeIcon => PipelineError::CopyVolumeIconFailed,
        Stage::InvokeCompiler => PipelineError::CompilerFailed,
        Stage::Relocate => PipelineError::RelocationFailed,
        Stage::RelocateFallbackCopy => PipelineError::RelocationFailed,
        Stage::Sign => PipelineError::SigningFailed,
        // The remaining stages are terminal or best-effort: failure there
        // is never fatal, so this value is immaterial.
        _ => PipelineError::PrerequisiteFailed,
    }
}

/// Clone of an optional string.
fn clone_opt_string(o: &Option<String>) -> (r: Option<String>)
    ensures
        r == *o,
{
    match o {
        Some(p) => Some(p.clone()),
        None => None,
    }
}

} // verus!
