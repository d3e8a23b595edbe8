//! The whole run: sync the job descriptor, stage the input, send it to the
//! remote host, submit the job, wait for its output, and bring the result
//! back. The stages follow one another; the first that fails ends the run,
//! and only the wait for the output repeats anything.

use crate::effect::{Effect, EffectModel, Outcome, OutcomeModel};
use crate::error::{ErrorModel, PipelineError};
use crate::poll::{
    await_output, output_name, output_name_text, poll_start, poll_step,
    polling_goes_on_until_it_is_over, PhaseModel, PollPhase, Poller, PollerModel,
};
use crate::stage::{
    stage, stage_start, staged_path, stager_step, staging_goes_on_until_it_is_over,
    ArtifactModel, StagedArtifact, StagerModel, StagerState,
};
use crate::submit::{
    metis_qsub, submission_result, submission_verdict, submit_command, JobHandle, JobHandleModel,
};
use crate::transfer::{copy_command, copy_file, copy_result, copy_verdict, PlaceModel, SSHPath};
use vstd::prelude::*;

verus! {

/// What a run needs to know about the two hosts.
#[derive(Debug, Clone, PartialEq, Eq)]
pub struct PipelineConfig {
    pub remote_user: String,
    pub remote_host: String,
    /// Where the job descriptor lies on the remote host.
    pub job_descriptor_remote_path: String,
    /// Where the job descriptor lies on this host.
    pub job_descriptor_local_path: String,
    /// The remote directory that staged inputs are sent to.
    pub remote_inputs_dir: String,
    /// The remote directory under which the job leaves its results, one
    /// directory for each digest.
    pub remote_outputs_dir: String,
    /// The directory on this host that inputs are staged in.
    pub local_staging_dir: String,
    /// The directory on this host under which results are kept, one
    /// directory for each digest.
    pub local_serve_dir: String,
    /// How long to wait between two probes for the output, in milliseconds.
    pub poll_interval_millis: u64,
    /// How long to wait for the output in all, in milliseconds; forever if `None`.
    pub poll_deadline_millis: Option<u64>,
    /// The name that the scheduler knows the job by.
    pub job_name: String,
    /// Whether the job's log is moved in with the results before they are
    /// brought back.
    pub relocate_log: bool,
}

/// The mathematical value of a [`PipelineConfig`].
pub struct ConfigModel {
    pub remote_user: Seq<char>,
    pub remote_host: Seq<char>,
    pub job_descriptor_remote_path: Seq<char>,
    pub job_descriptor_local_path: Seq<char>,
    pub remote_inputs_dir: Seq<char>,
    pub remote_outputs_dir: Seq<char>,
    pub local_staging_dir: Seq<char>,
    pub local_serve_dir: Seq<char>,
    pub poll_interval_millis: u64,
    pub poll_deadline_millis: Option<u64>,
    pub job_name: Seq<char>,
    pub relocate_log: bool,
}

impl DeepView for PipelineConfig {
    type V = ConfigModel;

    open spec fn deep_view(&self) -> ConfigModel {
        ConfigModel {
            remote_user: self.remote_user@,
            remote_host: self.remote_host@,
            job_descriptor_remote_path: self.job_descriptor_remote_path@,
            job_descriptor_local_path: self.job_descriptor_local_path@,
            remote_inputs_dir: self.remote_inputs_dir@,
            remote_outputs_dir: self.remote_outputs_dir@,
            local_staging_dir: self.local_staging_dir@,
            local_serve_dir: self.local_serve_dir@,
            poll_interval_millis: self.poll_interval_millis,
            poll_deadline_millis: self.poll_deadline_millis,
            job_name: self.job_name@,
            relocate_log: self.relocate_log,
        }
    }
}

impl View for PipelineConfig {
    type V = ConfigModel;

    open spec fn view(&self) -> ConfigModel {
        self.deep_view()
    }
}

/// The stages of a run, in their order.
#[derive(Debug, Clone, Copy, PartialEq, Eq)]
pub enum Stage {
    SyncDescriptor,
    StageInput,
    TransferInput,
    Submit,
    AwaitOutput,
    RelocateLog,
    Retrieve,
}

/// Where a run stands.
#[derive(Debug, Clone, PartialEq, Eq)]
pub enum PipelineState {
    /// The job descriptor is being copied to the remote host.
    SyncingDescriptor { input: Vec<u8> },
    /// The input is being staged.
    Staging { stager: StagerState },
    /// The staged input is being copied to the remote host.
    TransferringInput { artifact: StagedArtifact },
    /// The job is being submitted.
    Submitting { artifact: StagedArtifact },
    /// The job runs; its output is being waited for.
    AwaitingOutput { artifact: StagedArtifact, handle: JobHandle, poller: Poller },
    /// The job's log is being moved in with the results.
    RelocatingLog { artifact: StagedArtifact, handle: JobHandle },
    /// The results are being copied to this host.
    Retrieving { artifact: StagedArtifact, handle: JobHandle },
    /// The results are here.
    Finished { artifact: StagedArtifact, handle: JobHandle },
    /// The run ended at `stage` with `error`.
    Aborted { stage: Stage, error: PipelineError },
}

/// The mathematical value of a [`PipelineState`].
pub enum PipelineModel {
    SyncingDescriptor { input: Seq<u8> },
    Staging { stager: StagerModel },
    TransferringInput { artifact: ArtifactModel },
    Submitting { artifact: ArtifactModel },
    AwaitingOutput { artifact: ArtifactModel, handle: JobHandleModel, poller: PollerModel },
    RelocatingLog { artifact: ArtifactModel, handle: JobHandleModel },
    Retrieving { artifact: ArtifactModel, handle: JobHandleModel },
    Finished { artifact: ArtifactModel, handle: JobHandleModel },
    Aborted { stage: Stage, error: ErrorModel },
}

impl DeepView for PipelineState {
    type V = PipelineModel;

    open spec fn deep_view(&self) -> PipelineModel {
        match self {
            PipelineState::SyncingDescriptor { input } => PipelineModel::SyncingDescriptor {
                input: input@,
            },
            PipelineState::Staging { stager } => PipelineModel::Staging { stager: stager@ },
            PipelineState::TransferringInput { artifact } => PipelineModel::TransferringInput {
                artifact: artifact@,
            },
            PipelineState::Submitting { artifact } => PipelineModel::Submitting {
                artifact: artifact@,
            },
            PipelineState::AwaitingOutput { artifact, handle, poller } => {
                PipelineModel::AwaitingOutput {
                    artifact: artifact@,
                    handle: handle@,
                    poller: poller@,
                }
            },
            PipelineState::RelocatingLog { artifact, handle } => PipelineModel::RelocatingLog {
                artifact: artifact@,
                handle: handle@,
            },
            PipelineState::Retrieving { artifact, handle } => PipelineModel::Retrieving {
                artifact: artifact@,
                handle: handle@,
            },
            PipelineState::Finished { artifact, handle } => PipelineModel::Finished {
                artifact: artifact@,
                handle: handle@,
            },
            PipelineState::Aborted { stage, error } => PipelineModel::Aborted {
                stage: *stage,
                error: error@,
            },
        }
    }
}

impl View for PipelineState {
    type V = PipelineModel;

    open spec fn view(&self) -> PipelineModel {
        self.deep_view()
    }
}

impl PipelineModel {
    /// Whether the run is over.
    pub open spec fn is_over(self) -> bool {
        self is Finished || self is Aborted
    }

    /// The stage that the run is in, or ended at; none once it has finished.
    pub open spec fn stage(self) -> Option<Stage> {
        match self {
            PipelineModel::SyncingDescriptor { .. } => Some(Stage::SyncDescriptor),
            PipelineModel::Staging { .. } => Some(Stage::StageInput),
            PipelineModel::TransferringInput { .. } => Some(Stage::TransferInput),
            PipelineModel::Submitting { .. } => Some(Stage::Submit),
            PipelineModel::AwaitingOutput { .. } => Some(Stage::AwaitOutput),
            PipelineModel::RelocatingLog { .. } => Some(Stage::RelocateLog),
            PipelineModel::Retrieving { .. } => Some(Stage::Retrieve),
            PipelineModel::Finished { .. } => None,
            PipelineModel::Aborted { stage, .. } => Some(stage),
        }
    }

    /// Whether the stage that goes on has not ended within: staging is
    /// coherent and unfinished, and the wait is still polling.
    pub open spec fn coherent(self) -> bool {
        match self {
            PipelineModel::Staging { stager } => stager.coherent() && !stager.is_over(),
            PipelineModel::AwaitingOutput { artifact, handle, poller } => poller.phase is Polling,
            _ => true,
        }
    }

    /// How far the run has come: the number of its stage, a finished run
    /// last of all.
    pub open spec fn progress(self) -> nat {
        match self.stage() {
            Some(Stage::SyncDescriptor) => 0,
            Some(Stage::StageInput) => 1,
            Some(Stage::TransferInput) => 2,
            Some(Stage::Submit) => 3,
            Some(Stage::AwaitOutput) => 4,
            Some(Stage::RelocateLog) => 5,
            Some(Stage::Retrieve) => 6,
            None => 7,
        }
    }

    /// What holds of every state that a run reaches: it is coherent, and
    /// its artifacts and handles are well formed.
    pub open spec fn well_formed(self) -> bool {
        &&& self.coherent()
        &&& match self {
            PipelineModel::SyncingDescriptor { input } => true,
            PipelineModel::Staging { stager } => stager.well_formed(),
            PipelineModel::TransferringInput { artifact } => artifact.well_formed(),
            PipelineModel::Submitting { artifact } => artifact.well_formed(),
            PipelineModel::AwaitingOutput { artifact, handle, poller } => artifact.well_formed()
                && handle.well_formed(),
            PipelineModel::RelocatingLog { artifact, handle } => artifact.well_formed()
                && handle.well_formed(),
            PipelineModel::Retrieving { artifact, handle } => artifact.well_formed()
                && handle.well_formed(),
            PipelineModel::Finished { artifact, handle } => artifact.well_formed()
                && handle.well_formed(),
            PipelineModel::Aborted { stage, error } => true,
        }
    }
}

/// A directory of results: `<base>/<digest>`.
pub open spec fn result_dir(base: Seq<char>, digest: Seq<char>) -> Seq<char> {
    base + "/"@ + digest
}

/// The variables that the job is given: `SHA256='<digest>',EXTENSION='<extension>'`.
pub open spec fn job_environment(digest: Seq<char>, extension: Seq<char>) -> Seq<char> {
    "SHA256='"@ + digest + "',EXTENSION='"@ + extension + "'"@
}

/// The copy of the job descriptor to the remote host.
pub open spec fn sync_command(config: ConfigModel) -> EffectModel {
    copy_command(
        config.remote_user,
        config.remote_host,
        PlaceModel::Local(config.job_descriptor_local_path),
        PlaceModel::Remote(config.job_descriptor_remote_path),
        false,
    )
}

/// The copy of the staged input into the remote inputs directory, under its
/// staged name.
pub open spec fn input_transfer(config: ConfigModel, artifact: ArtifactModel) -> EffectModel {
    copy_command(
        config.remote_user,
        config.remote_host,
        PlaceModel::Local(artifact.local_path),
        PlaceModel::Remote(
            staged_path(config.remote_inputs_dir, artifact.digest, artifact.extension),
        ),
        false,
    )
}

/// The submission of the job, with the digest and the extension of the input
/// as its variables.
pub open spec fn submission(config: ConfigModel, artifact: ArtifactModel) -> EffectModel {
    submit_command(
        config.remote_user,
        config.remote_host,
        config.job_descriptor_remote_path,
        seq![("v"@, job_environment(artifact.digest, artifact.extension))],
    )
}

/// The file whose appearance shows that the job is done.
pub open spec fn output_target(config: ConfigModel, handle: JobHandleModel) -> Seq<char> {
    output_name(config.job_name, handle.job_number)
}

/// The move of the job's log into the remote directory of results.
pub open spec fn log_relocation(
    config: ConfigModel,
    artifact: ArtifactModel,
    handle: JobHandleModel,
) -> EffectModel {
    copy_command(
        config.remote_user,
        config.remote_host,
        PlaceModel::Remote(output_target(config, handle)),
        PlaceModel::Remote(result_dir(config.remote_outputs_dir, artifact.digest)),
        false,
    )
}

/// The copy of the remote directory of results to this host.
pub open spec fn retrieval(config: ConfigModel, artifact: ArtifactModel) -> EffectModel {
    copy_command(
        config.remote_user,
        config.remote_host,
        PlaceModel::Remote(result_dir(config.remote_outputs_dir, artifact.digest)),
        PlaceModel::Local(result_dir(config.local_serve_dir, artifact.digest)),
        true,
    )
}

/// The end of a run at `stage`.
pub open spec fn aborted(stage: Stage, error: ErrorModel) -> (PipelineModel, Option<EffectModel>) {
    (PipelineModel::Aborted { stage, error }, None)
}

/// How a run begins: with the copy of the job descriptor.
pub open spec fn pipeline_start(config: ConfigModel, input: Seq<u8>) -> (
    PipelineModel,
    EffectModel,
) {
    (PipelineModel::SyncingDescriptor { input }, sync_command(config))
}

/// What follows the wait for the output, once the output is there.
pub open spec fn after_output(
    config: ConfigModel,
    artifact: ArtifactModel,
    handle: JobHandleModel,
) -> (PipelineModel, Option<EffectModel>) {
    if config.relocate_log {
        (
            PipelineModel::RelocatingLog { artifact, handle },
            Some(log_relocation(config, artifact, handle)),
        )
    } else {
        (PipelineModel::Retrieving { artifact, handle }, Some(retrieval(config, artifact)))
    }
}

/// One step of a run, at the time `now`.
///
/// Each stage judges the outcome of its own effect. Success hands on to the
/// next stage and its first effect; failure ends the run at that stage with
/// the stage's error. A run that is over stays as it is.
pub open spec fn pipeline_step(
    config: ConfigModel,
    state: PipelineModel,
    outcome: OutcomeModel,
    now: u64,
) -> (PipelineModel, Option<EffectModel>) {
    match state {
        PipelineModel::SyncingDescriptor { input } => match copy_verdict(outcome) {
            Ok(_) => {
                let (stager, effect) = stage_start(input, config.local_staging_dir);
                (PipelineModel::Staging { stager }, Some(effect))
            },
            Err(error) => aborted(Stage::SyncDescriptor, error),
        },
        PipelineModel::Staging { stager } => {
            let (next, effect) = stager_step(stager, outcome);
            match next {
                StagerModel::Staged { artifact, written } => (
                    PipelineModel::TransferringInput { artifact },
                    Some(input_transfer(config, artifact)),
                ),
                StagerModel::Failed { error } => aborted(Stage::StageInput, error),
                _ => (PipelineModel::Staging { stager: next }, effect),
            }
        },
        PipelineModel::TransferringInput { artifact } => match copy_verdict(outcome) {
            Ok(_) => (PipelineModel::Submitting { artifact }, Some(submission(config, artifact))),
            Err(error) => aborted(Stage::TransferInput, error),
        },
        PipelineModel::Submitting { artifact } => match submission_verdict(outcome) {
            Ok(handle) => {
                let (poller, effect) = poll_start(
                    config.remote_user,
                    config.remote_host,
                    output_target(config, handle),
                    config.poll_interval_millis,
                    config.poll_deadline_millis,
                    now,
                );
                (PipelineModel::AwaitingOutput { artifact, handle, poller }, Some(effect))
            },
            Err(error) => aborted(Stage::Submit, error),
        },
        PipelineModel::AwaitingOutput { artifact, handle, poller } => {
            let (next, effect) = poll_step(poller, outcome, now);
            match next.phase {
                PhaseModel::Polling => (
                    PipelineModel::AwaitingOutput { artifact, handle, poller: next },
                    effect,
                ),
                PhaseModel::Found => after_output(config, artifact, handle),
                PhaseModel::TimedOut => aborted(Stage::AwaitOutput, ErrorModel::PollTimedOut),
                PhaseModel::Failed(error) => aborted(Stage::AwaitOutput, error),
            }
        },
        PipelineModel::RelocatingLog { artifact, handle } => match copy_verdict(outcome) {
            Ok(_) => (
                PipelineModel::Retrieving { artifact, handle },
                Some(retrieval(config, artifact)),
            ),
            Err(error) => aborted(Stage::RelocateLog, error),
        },
        PipelineModel::Retrieving { artifact, handle } => match copy_verdict(outcome) {
            Ok(_) => (PipelineModel::Finished { artifact, handle }, None),
            Err(error) => aborted(Stage::Retrieve, error),
        },
        PipelineModel::Finished { .. } => (state, None),
        PipelineModel::Aborted { .. } => (state, None),
    }
}

/// A run goes on until it is over, and then no further: a step hands out an
/// effect exactly if it leaves the run unfinished, and a run that is over
/// stays as it is.
pub proof fn a_run_goes_on_until_it_is_over(
    config: ConfigModel,
    state: PipelineModel,
    outcome: OutcomeModel,
    now: u64,
)
    requires
        state.coherent(),
    ensures
        pipeline_step(config, state, outcome, now).0.coherent(),
        pipeline_step(config, state, outcome, now).1 is None <==> pipeline_step(
            config,
            state,
            outcome,
            now,
        ).0.is_over(),
        state.is_over() ==> pipeline_step(config, state, outcome, now).0 == state,
{
    if let PipelineModel::Staging { stager } = state {
        staging_goes_on_until_it_is_over(stager, outcome);
    }
    if let PipelineModel::AwaitingOutput { artifact, handle, poller } = state {
        polling_goes_on_until_it_is_over(poller, outcome, now);
    }
}

/// A failure ends the run at the stage that failed, and nothing of the
/// later stages is begun: a run that a step aborts is aborted at the stage
/// it was in, with no effect left to perform.
pub proof fn a_failure_ends_the_run_at_its_stage(
    config: ConfigModel,
    state: PipelineModel,
    outcome: OutcomeModel,
    now: u64,
)
    requires
        !state.is_over(),
    ensures
        pipeline_step(config, state, outcome, now).0 matches PipelineModel::Aborted {
            stage,
            error,
        } ==> Some(stage) == state.stage() && pipeline_step(config, state, outcome, now).1 is None,
{
}

/// The stages follow one another: no step takes a run back to an earlier
/// stage, and a step that does not abort the run takes it on by one stage
/// at most, or by two where the move of the log is left out.
pub proof fn a_run_never_goes_back(
    config: ConfigModel,
    state: PipelineModel,
    outcome: OutcomeModel,
    now: u64,
)
    ensures
        ({
            let next = pipeline_step(config, state, outcome, now).0;
            let skips_the_log = state is AwaitingOutput && !config.relocate_log;
            &&& state.progress() <= next.progress()
            &&& !(next is Aborted) ==> next.progress() <= state.progress() + if skips_the_log {
                2nat
            } else {
                1nat
            }
        }),
{
}

/// Plans a copy between two places of which the remote host is one.
fn planned<'a>(config: &PipelineConfig, source: SSHPath<'a>, destination: SSHPath<'a>, directory: bool) -> (effect:
    Effect)
    requires
        source is Remote || destination is Remote,
    ensures
        effect@ == copy_command(
            config@.remote_user,
            config@.remote_host,
            source@,
            destination@,
            directory,
        ),
{
    let plan = copy_file(
        config.remote_user.as_str(),
        config.remote_host.as_str(),
        source,
        destination,
        directory,
    );
    plan.unwrap()
}

/// A directory of results.
fn result_dir_text(base: &str, digest: &str) -> (out: String)
    ensures
        out@ == result_dir(base@, digest@),
{
    let mut out = String::from_str(base);
    out.append("/");
    out.append(digest);
    out
}

/// Plans the copy of the job descriptor.
fn sync_effect(config: &PipelineConfig) -> (effect: Effect)
    ensures
        effect@ == sync_command(config@),
{
    planned(
        config,
        SSHPath::Local(config.job_descriptor_local_path.as_str()),
        SSHPath::Remote(config.job_descriptor_remote_path.as_str()),
        false,
    )
}

/// Plans the copy of the staged input.
fn input_transfer_effect(config: &PipelineConfig, artifact: &StagedArtifact) -> (effect: Effect)
    ensures
        effect@ == input_transfer(config@, artifact@),
{
    let mut remote = String::from_str(config.remote_inputs_dir.as_str());
    remote.append("/");
    remote.append(artifact.digest.as_str());
    remote.append(".");
    remote.append(artifact.extension.as_str());
    proof {
        assert(remote@ =~= staged_path(
            config@.remote_inputs_dir,
            artifact@.digest,
            artifact@.extension,
        ));
    }
    planned(
        config,
        SSHPath::Local(artifact.local_path.as_str()),
        SSHPath::Remote(remote.as_str()),
        false,
    )
}

/// Plans the submission of the job.
fn submission_effect(config: &PipelineConfig, artifact: &StagedArtifact) -> (effect: Effect)
    ensures
        effect@ == submission(config@, artifact@),
{
    let mut environment = String::from_str("SHA256='");
    environment.append(artifact.digest.as_str());
    environment.append("',EXTENSION='");
    environment.append(artifact.extension.as_str());
    environment.append("'");
    let mut parameters: Vec<(&str, &str)> = Vec::new();
    parameters.push(("v", environment.as_str()));
    proof {
        assert(parameters.deep_view() =~= seq![
            ("v"@, job_environment(artifact@.digest, artifact@.extension)),
        ]);
    }
    metis_qsub(
        config.remote_user.as_str(),
        config.remote_host.as_str(),
        config.job_descriptor_remote_path.as_str(),
        parameters,
    )
}

/// Plans the move of the job's log.
fn log_relocation_effect(
    config: &PipelineConfig,
    artifact: &StagedArtifact,
    handle: &JobHandle,
) -> (effect: Effect)
    ensures
        effect@ == log_relocation(config@, artifact@, handle@),
{
    let log = output_name_text(config.job_name.as_str(), handle.job_number.as_str());
    let results = result_dir_text(config.remote_outputs_dir.as_str(), artifact.digest.as_str());
    planned(config, SSHPath::Remote(log.as_str()), SSHPath::Remote(results.as_str()), false)
}

/// Plans the copy of the results to this host.
fn retrieval_effect(config: &PipelineConfig, artifact: &StagedArtifact) -> (effect: Effect)
    ensures
        effect@ == retrieval(config@, artifact@),
{
    let results = result_dir_text(config.remote_outputs_dir.as_str(), artifact.digest.as_str());
    let served = result_dir_text(config.local_serve_dir.as_str(), artifact.digest.as_str());
    planned(config, SSHPath::Remote(results.as_str()), SSHPath::Local(served.as_str()), true)
}

/// Ends a run.
fn abort(stage: Stage, error: PipelineError) -> (next: (PipelineState, Option<Effect>))
    ensures
        (next.0@, next.1.deep_view()) == aborted(stage, error@),
{
    (PipelineState::Aborted { stage, error }, None)
}

/// Decides what follows the wait for the output, once the output is there.
fn proceed_after_output(config: &PipelineConfig, artifact: StagedArtifact, handle: JobHandle) -> (next:
    (PipelineState, Option<Effect>))
    ensures
        (next.0@, next.1.deep_view()) == after_output(config@, artifact@, handle@),
{
    if config.relocate_log {
        let effect = log_relocation_effect(config, &artifact, &handle);
        (PipelineState::RelocatingLog { artifact, handle }, Some(effect))
    } else {
        let effect = retrieval_effect(config, &artifact);
        (PipelineState::Retrieving { artifact, handle }, Some(effect))
    }
}

/// Begins a run on the input file at `input_path`.
pub fn start(config: &PipelineConfig, input_path: Vec<u8>) -> (begun: (PipelineState, Effect))
    ensures
        (begun.0@, begun.1@) == pipeline_start(config@, input_path@),
        begun.0@.well_formed(),
{
    let effect = sync_effect(config);
    (PipelineState::SyncingDescriptor { input: input_path }, effect)
}

impl PipelineState {
    /// Takes the driver's report on the last effect, and the time, and
    /// decides what follows.
    pub fn step(self, config: &PipelineConfig, outcome: Outcome, now: u64) -> (next: (
        PipelineState,
        Option<Effect>,
    ))
        ensures
            (next.0@, next.1.deep_view()) == pipeline_step(config@, self@, outcome@, now),
            self@.well_formed() ==> next.0@.well_formed(),
    {
        match self {
            PipelineState::SyncingDescriptor { input } => match copy_result(outcome) {
                Ok(_) => {
                    let (stager, effect) = stage(input, config.local_staging_dir.as_str());
                    (PipelineState::Staging { stager }, Some(effect))
                },
                Err(error) => abort(Stage::SyncDescriptor, error),
            },
            PipelineState::Staging { stager } => {
                let (next, effect) = stager.step(outcome);
                match next {
                    StagerState::Staged { artifact, written: _ } => {
                        let transfer = input_transfer_effect(config, &artifact);
                        (PipelineState::TransferringInput { artifact }, Some(transfer))
                    },
                    StagerState::Failed { error } => abort(Stage::StageInput, error),
                    _ => (PipelineState::Staging { stager: next }, effect),
                }
            },
            PipelineState::TransferringInput { artifact } => match copy_result(outcome) {
                Ok(_) => {
                    let effect = submission_effect(config, &artifact);
                    (PipelineState::Submitting { artifact }, Some(effect))
                },
                Err(error) => abort(Stage::TransferInput, error),
            },
            PipelineState::Submitting { artifact } => match submission_result(outcome) {
                Ok(handle) => {
                    let target = output_name_text(
                        config.job_name.as_str(),
                        handle.job_number.as_str(),
                    );
                    let (poller, effect) = await_output(
                        config.remote_user.as_str(),
                        config.remote_host.as_str(),
                        target.as_str(),
                        config.poll_interval_millis,
                        config.poll_deadline_millis,
                        now,
                    );
                    (PipelineState::AwaitingOutput { artifact, handle, poller }, Some(effect))
                },
                Err(error) => abort(Stage::Submit, error),
            },
            PipelineState::AwaitingOutput { artifact, handle, poller } => {
                let (next, effect) = poller.step(outcome, now);
                let Poller {
                    username,
                    hostname,
                    target,
                    interval_millis,
                    deadline_millis,
                    started_millis,
                    phase,
                } = next;
                match phase {
                    PollPhase::Polling => (
                        PipelineState::AwaitingOutput {
                            artifact,
                            handle,
                            poller: Poller {
                                username,
                                hostname,
                                target,
                                interval_millis,
                                deadline_millis,
                                started_millis,
                                phase: PollPhase::Polling,
                            },
                        },
                        effect,
                    ),
                    PollPhase::Found => proceed_after_output(config, artifact, handle),
                    PollPhase::TimedOut => abort(Stage::AwaitOutput, PipelineError::PollTimedOut),
                    PollPhase::Failed(error) => abort(Stage::AwaitOutput, error),
                }
            },
            PipelineState::RelocatingLog { artifact, handle } => match copy_result(outcome) {
                Ok(_) => {
                    let effect = retrieval_effect(config, &artifact);
                    (PipelineState::Retrieving { artifact, handle }, Some(effect))
                },
                Err(error) => abort(Stage::RelocateLog, error),
            },
            PipelineState::Retrieving { artifact, handle } => match copy_result(outcome) {
                Ok(_) => (PipelineState::Finished { artifact, handle }, None),
                Err(error) => abort(Stage::Retrieve, error),
            },
            PipelineState::Finished { artifact, handle } => (
                PipelineState::Finished { artifact, handle },
                None,
            ),
            PipelineState::Aborted { stage, error } => (
                PipelineState::Aborted { stage, error },
                None,
            ),
        }
    }
}

/// A run together with what it was configured with.
#[derive(Debug, Clone, PartialEq, Eq)]
pub struct Pipeline {
    pub config: PipelineConfig,
    pub state: PipelineState,
}

impl Pipeline {
    /// Begins a run with `config` on the input file at `input_path`.
    pub fn start(config: PipelineConfig, input_path: Vec<u8>) -> (begun: (Pipeline, Effect))
        ensures
            begun.0.config == config,
            (begun.0.state@, begun.1@) == pipeline_start(config@, input_path@),
            begun.0.state@.well_formed(),
    {
        let (state, effect) = start(&config, input_path);
        (Pipeline { config, state }, effect)
    }

    /// Takes the driver's report on the last effect, and the time, and
    /// decides what follows. The configuration stays as it is.
    pub fn step(self, outcome: Outcome, now: u64) -> (next: (Pipeline, Option<Effect>))
        ensures
            next.0.config == self.config,
            (next.0.state@, next.1.deep_view()) == pipeline_step(
                self.config@,
                self.state@,
                outcome@,
                now,
            ),
            self.state@.well_formed() ==> next.0.state@.well_formed(),
    {
        let Pipeline { config, state } = self;
        let (state, effect) = state.step(&config, outcome, now);
        (Pipeline { config, state }, effect)
    }

    /// Whether the run is over, finished or aborted.
    pub fn is_over(&self) -> (over: bool)
        ensures
            over == self.state@.is_over(),
    {
        match &self.state {
            PipelineState::Finished { .. } => true,
            PipelineState::Aborted { .. } => true,
            _ => false,
        }
    }
}

} // verus!
