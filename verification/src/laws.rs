//! Proved laws of the pipeline, stated over the pure path functions and the
//! transition relation that the executable functions' contracts use.

use vstd::prelude::*;
use crate::paths::spec_arch_alias;
use crate::paths::spec_compiler_output_path;
use crate::paths::spec_image_name;
use crate::paths::spec_image_path;
use crate::paths::spec_output_dir;
use crate::pipeline::ActionV;
use crate::pipeline::OutcomeV;
use crate::pipeline::PipelineError;
use crate::pipeline::Stage;
use crate::pipeline::spec_opt_str;
use crate::pipeline::spec_start;
use crate::pipeline::spec_step;
use crate::settings::Settings;

verus! {

/// The architecture label `x86_64` is always published as `x64`.
pub proof fn lemma_arch_alias_x86_64()
    ensures
        spec_arch_alias("x86_64"@) == "x64"@,
{
}

/// Every architecture label other than `x86_64` passes through unchanged.
pub proof fn lemma_arch_alias_passthrough(arch: Seq<char>)
    requires
        arch != "x86_64"@,
    ensures
        spec_arch_alias(arch) == arch,
{
}

/// The planned final image path is a function of the binary name, version,
/// architecture and output root alone: settings that agree on those agree
/// on the final path, whatever their optional fields and flags.
pub proof fn lemma_image_path_deterministic(s1: Settings, s2: Settings)
    requires
        s1.binary_name@ == s2.binary_name@,
        s1.version@ == s2.version@,
        s1.arch@ == s2.arch@,
        s1.output_root@ == s2.output_root@,
    ensures
        spec_image_path(s1) == spec_image_path(s2),
{
}

/// The first action of a run is the prerequisite application-bundle build
/// exactly when no produced bundle descriptor carries its tag.
pub proof fn lemma_prerequisite_built_iff_missing(s: Settings, needs_bundle: bool)
    ensures
        (spec_start(s, needs_bundle).1 == ActionV::BuildAppBundle) <==> needs_bundle,
{
}

/// No transition of a running pipeline ever issues the prerequisite build:
/// with `lemma_prerequisite_built_iff_missing`, a run issues it exactly
/// once, as its very first action, or never.
pub proof fn lemma_step_never_builds_prerequisite(s: Settings, st: Stage, o: OutcomeV)
    ensures
        spec_step(s, st, o).1 != ActionV::BuildAppBundle,
{
}

/// A failure of the staging copy is fatal: the run moves to `Failed` with
/// the copy step named, and (as `Pipeline::advance` cannot be called on a
/// failed run) no further action — in particular no compiler invocation —
/// is ever issued.
pub proof fn lemma_copy_failure_aborts(s: Settings)
    ensures
        spec_step(s, Stage::CopyAppBundle, OutcomeV::Failed) == (
            Stage::Failed,
            ActionV::Abort { error: PipelineError::CopyAppBundleFailed },
        ),
{
}

/// The disk-image compiler is invoked only from the staging tail of a run —
/// directly after icon synthesis, or after the volume-icon copy — and never
/// after a failure outcome.
pub proof fn lemma_compiler_only_after_staging(s: Settings, st: Stage, o: OutcomeV)
    ensures
        spec_step(s, st, o).1 is RunCompiler ==> !(o is Failed) && (st == Stage::SynthesizeIcon
            || st == Stage::CopyVolumeIcon),
{
}

/// The signer, when it runs at all, is handed the final relocated image
/// path — never the compiler's intermediate output path — together with the
/// configured identity and a shallow (not deep) signing request.
pub proof fn lemma_signer_gets_final_path(s: Settings, st: Stage, o: OutcomeV)
    ensures
        spec_step(s, st, o).1 matches ActionV::SignImage { path, identity, deep } ==> ({
            &&& path == spec_image_path(s)
            &&& s.signing_identity matches Some(id) && identity == id@
            &&& !deep
        }),
        spec_step(s, st, o).1 is SignImage ==> st == Stage::Relocate || st
            == Stage::RelocateFallbackRemove,
{
}

/// When a signing identity is configured, a successful relocation is always
/// followed by the signing step; when none is configured, the signing step
/// is skipped entirely and the run goes on without error.
pub proof fn lemma_signing_follows_relocation(s: Settings)
    ensures
        s.signing_identity is Some ==> spec_step(s, Stage::Relocate, OutcomeV::Succeeded).1
            is SignImage,
        s.signing_identity is None ==> spec_step(s, Stage::Relocate, OutcomeV::Succeeded).0
            != Stage::Sign && !(spec_step(s, Stage::Relocate, OutcomeV::Succeeded).1 is Abort),
{
}

/// The compiler invocation carries the configured license path verbatim:
/// when no license path is configured, no license argument is passed — the
/// license path of every issued compiler action is exactly the configured
/// one.
pub proof fn lemma_license_passed_through(s: Settings, st: Stage, o: OutcomeV)
    ensures
        (spec_step(s, st, o).1 matches ActionV::RunCompiler { license_path, .. } ==> license_path
            == spec_opt_str(s.license_path)),
{
}

/// Failure policy: a failure outcome at any stage is fatal and names the
/// failing step, except at `Relocate` (where the run falls back to
/// copy-and-delete) and at the two best-effort removal stages (where the
/// run proceeds regardless).
pub proof fn lemma_failure_is_fatal(s: Settings, st: Stage)
    requires
        st != Stage::Done,
        st != Stage::Failed,
        st != Stage::Relocate,
        st != Stage::RelocateFallbackRemove,
        st != Stage::CleanupStaging,
    ensures
        spec_step(s, st, OutcomeV::Failed).0 == Stage::Failed,
        spec_step(s, st, OutcomeV::Failed).1 == (ActionV::Abort {
            error: crate::pipeline::spec_fatal_error(st),
        }),
{
}

/// The final image path lies directly inside the directory that the
/// pre-clean step removes: together with `lemma_image_path_deterministic`,
/// a second run against the same settings first removes the first run's
/// artifact and then deposits its own at the very same path, so exactly one
/// image stands at the canonical path after the second run succeeds.
pub proof fn lemma_artifact_inside_cleaned_directory(s: Settings)
    ensures
        spec_image_path(s) == spec_output_dir(s) + "/"@ + spec_image_name(s),
{
}

/// The pipeline touches only the locations it planned: every directory it
/// creates, every file it writes or deposits, and everything it removes is
/// one of the planned locations — recursive deletion in particular hits
/// only the output directory (the pre-clean step) and the staging tree
/// (the optional cleanup step), never anything else.
pub proof fn lemma_actions_touch_only_planned_paths(s: Settings, st: Stage, o: OutcomeV)
    ensures
        spec_step(s, st, o).1 matches ActionV::RemoveDirIfExists { path } ==> path
            == spec_output_dir(s) || path == crate::paths::spec_staging_dir(s),
        spec_step(s, st, o).1 matches ActionV::CreateDirAll { path } ==> path
            == crate::paths::spec_staging_dir(s) || path == crate::paths::spec_support_dir(s),
        spec_step(s, st, o).1 matches ActionV::CopyDir { src, dst } ==> src
            == crate::paths::spec_app_bundle_src(s) && dst == crate::paths::spec_app_bundle_dst(s),
        spec_step(s, st, o).1 matches ActionV::WriteSupportTemplate { path } ==> path
            == crate::paths::spec_support_template_path(s),
        spec_step(s, st, o).1 matches ActionV::CopyFile { dst, .. } ==> dst
            == crate::paths::spec_volume_icon_path(s) || dst == spec_image_path(s),
        spec_step(s, st, o).1 matches ActionV::RenameFile { from, to } ==> from
            == spec_compiler_output_path(s) && to == spec_image_path(s),
        spec_step(s, st, o).1 matches ActionV::RemoveFileBestEffort { path } ==> path
            == spec_compiler_output_path(s),
{
}

/// Position of each stage along the linear pipeline.
pub open spec fn spec_stage_rank(st: Stage) -> nat {
    match st {
        Stage::EnsurePrerequisite => 0,
        Stage::CleanOldOutput => 1,
        Stage::CreateStagingDir => 2,
        Stage::CreateSupportDir => 3,
        Stage::CopyAppBundle => 4,
        Stage::WriteSupportTemplate => 5,
        Stage::SynthesizeIcon => 6,
        Stage::CopyVolumeIcon => 7,
        Stage::InvokeCompiler => 8,
        Stage::Relocate => 9,
        Stage::RelocateFallbackCopy => 10,
        Stage::RelocateFallbackRemove => 11,
        Stage::Sign => 12,
        Stage::CleanupStaging => 13,
        Stage::Done => 14,
        Stage::Failed => 15,
    }
}

/// The pipeline is linear and loop-free: every step from a stage still in
/// progress either fails or moves strictly forward, and the two terminal
/// stages absorb — so a run ends after a bounded number of steps, no step
/// is ever repeated, and there is no resumption out of a failed run.
pub proof fn lemma_runs_are_linear(s: Settings, st: Stage, o: OutcomeV)
    ensures
        st != Stage::Done && st != Stage::Failed ==> spec_step(s, st, o).0 == Stage::Failed
            || spec_stage_rank(spec_step(s, st, o).0) > spec_stage_rank(st),
        st == Stage::Done ==> spec_step(s, st, o).0 == Stage::Done,
        st == Stage::Failed ==> spec_step(s, st, o).0 == Stage::Failed,
{
}

/// The steps of a run driven from stage `st` by the outcome sequence
/// `outcomes`: the stage entered and the action issued at each step.
pub open spec fn spec_run(s: Settings, st: Stage, outcomes: Seq<OutcomeV>) -> Seq<(Stage, ActionV)>
    decreases outcomes.len(),
{
    if outcomes.len() == 0 {
        Seq::empty()
    } else {
        let step0 = spec_step(s, st, outcomes[0]);
        seq![step0] + spec_run(s, step0.0, outcomes.subrange(1, outcomes.len() as int))
    }
}

/// Every action of one full run, in order: the start action, then the
/// actions issued while consuming `outcomes`.
pub open spec fn spec_full_run(s: Settings, needs_bundle: bool, outcomes: Seq<OutcomeV>) -> Seq<
    ActionV,
> {
    seq![spec_start(s, needs_bundle).1] + spec_run(
        s,
        spec_start(s, needs_bundle).0,
        outcomes,
    ).map_values(|p: (Stage, ActionV)| p.1)
}

/// An action that deposits the disk image at its final, public path.
pub open spec fn spec_deposits_image(s: Settings, a: ActionV) -> bool {
    ||| a matches ActionV::RenameFile { to, .. } && to == spec_image_path(s)
    ||| a matches ActionV::CopyFile { dst, .. } && dst == spec_image_path(s)
}

/// A failed run does no further work: every later step only aborts.
pub proof fn lemma_failed_run_only_aborts(s: Settings, outcomes: Seq<OutcomeV>)
    ensures
        forall|i: int|
            0 <= i < spec_run(s, Stage::Failed, outcomes).len() ==> spec_run(
                s,
                Stage::Failed,
                outcomes,
            )[i].1 is Abort,
    decreases outcomes.len(),
{
    if outcomes.len() > 0 {
        lemma_failed_run_only_aborts(s, outcomes.subrange(1, outcomes.len() as int));
    }
}

/// No step of a run ever issues the prerequisite build.
pub proof fn lemma_run_never_builds_prerequisite(s: Settings, st: Stage, outcomes: Seq<OutcomeV>)
    ensures
        forall|i: int|
            0 <= i < spec_run(s, st, outcomes).len() ==> spec_run(s, st, outcomes)[i].1
                != ActionV::BuildAppBundle,
    decreases outcomes.len(),
{
    if outcomes.len() > 0 {
        let step0 = spec_step(s, st, outcomes[0]);
        lemma_step_never_builds_prerequisite(s, st, outcomes[0]);
        lemma_run_never_builds_prerequisite(s, step0.0, outcomes.subrange(1, outcomes.len() as int));
    }
}

/// Over one full run — whatever the outcomes — the prerequisite
/// application-bundle build appears exactly once, as the very first action,
/// when no produced bundle descriptor carries its tag, and never at all
/// otherwise: it always precedes every staging action.
pub proof fn lemma_prerequisite_once_in_full_run(
    s: Settings,
    needs_bundle: bool,
    outcomes: Seq<OutcomeV>,
)
    ensures
        (spec_full_run(s, needs_bundle, outcomes)[0] == ActionV::BuildAppBundle) <==> needs_bundle,
        forall|i: int|
            1 <= i < spec_full_run(s, needs_bundle, outcomes).len() ==> spec_full_run(
                s,
                needs_bundle,
                outcomes,
            )[i] != ActionV::BuildAppBundle,
{
    let st0 = spec_start(s, needs_bundle).0;
    lemma_run_never_builds_prerequisite(s, st0, outcomes);
    assert forall|i: int|
        1 <= i < spec_full_run(s, needs_bundle, outcomes).len() implies spec_full_run(
        s,
        needs_bundle,
        outcomes,
    )[i] != ActionV::BuildAppBundle by {
        assert(spec_full_run(s, needs_bundle, outcomes)[i] == spec_run(s, st0, outcomes)[i - 1].1);
    }
}

/// Idempotence of the canonical artifact: in every full run, any action
/// that deposits the disk image at its final path is preceded by the
/// removal of the output directory that contains that path. Since the
/// final path is a function of the settings alone
/// (`lemma_image_path_deterministic`) and lies directly inside the removed
/// directory (`lemma_artifact_inside_cleaned_directory`), a second run
/// against the same settings removes the first run's artifact before
/// depositing its own at the very same path: after the second run succeeds,
/// exactly one image stands at the canonical path.
pub proof fn lemma_clean_precedes_deposit(
    s: Settings,
    needs_bundle: bool,
    outcomes: Seq<OutcomeV>,
)
    ensures
        forall|i: int|
            0 <= i < spec_full_run(s, needs_bundle, outcomes).len() && spec_deposits_image(
                s,
                spec_full_run(s, needs_bundle, outcomes)[i],
            ) ==> exists|j: int|
                0 <= j < i && spec_full_run(s, needs_bundle, outcomes)[j]
                    == (ActionV::RemoveDirIfExists { path: spec_output_dir(s) }),
{
    let full = spec_full_run(s, needs_bundle, outcomes);
    let clean = ActionV::RemoveDirIfExists { path: spec_output_dir(s) };
    if !needs_bundle {
        assert(full[0] == clean);
        assert forall|i: int|
            0 <= i < full.len() && spec_deposits_image(s, full[i]) implies exists|j: int|
            0 <= j < i && full[j] == clean by {
            assert(!spec_deposits_image(s, full[0]));
            assert(full[0] == clean && 0 < i);
        }
    } else {
        let st0 = spec_start(s, needs_bundle).0;
        let run = spec_run(s, st0, outcomes);
        if outcomes.len() == 0 {
            assert forall|i: int|
                0 <= i < full.len() && spec_deposits_image(s, full[i]) implies exists|j: int|
                0 <= j < i && full[j] == clean by {
                assert(full.len() == 1);
                assert(!spec_deposits_image(s, full[0]));
            }
        } else {
            let o0 = outcomes[0];
            let rest = outcomes.subrange(1, outcomes.len() as int);
            let step0 = spec_step(s, st0, o0);
            assert(run == seq![step0] + spec_run(s, step0.0, rest));
            if o0 is Failed {
                lemma_failed_run_only_aborts(s, rest);
                assert forall|i: int|
                    0 <= i < full.len() && spec_deposits_image(s, full[i]) implies exists|j: int|
                    0 <= j < i && full[j] == clean by {
                    assert(!spec_deposits_image(s, full[0]));
                    assert(i >= 1);
                    assert(full[i] == run[i - 1].1);
                    if i == 1 {
                        assert(run[0].1 is Abort);
                        assert(!spec_deposits_image(s, full[i]));
                    } else {
                        assert(run[i - 1] == spec_run(s, Stage::Failed, rest)[i - 2]);
                        assert(run[i - 1].1 is Abort);
                        assert(!spec_deposits_image(s, full[i]));
                    }
                }
            } else {
                assert(step0.1 == clean);
                assert(full[1] == run[0].1);
                assert(full[1] == clean);
                assert forall|i: int|
                    0 <= i < full.len() && spec_deposits_image(s, full[i]) implies exists|j: int|
                    0 <= j < i && full[j] == clean by {
                    assert(!spec_deposits_image(s, full[0]));
                    assert(!spec_deposits_image(s, full[1]));
                    assert(i >= 2);
                    assert(full[1] == clean && 1 < i);
                }
            }
        }
    }
}

} // verus!
