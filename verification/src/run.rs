//! Whole runs: what becomes of a run when nothing fails.

use crate::effect::{EffectModel, OutcomeModel};
use crate::error::ErrorModel;
use crate::pipeline::{
    after_output, input_transfer, log_relocation, output_target, pipeline_start, pipeline_step,
    retrieval, submission, ConfigModel, PipelineModel,
};
use crate::poll::{poll_start, poll_step, presence, probe_command, PollerModel};
use crate::stage::{artifact_for, ArtifactModel};
use crate::submit::{submission_verdict, JobHandleModel};
use crate::transfer::copy_verdict;
use vstd::prelude::*;
use vstd::utf8::encode_utf8;

verus! {

/// What the driver reports, and when.
pub type Report = (OutcomeModel, u64);

/// A run carried on from `state` as the driver answers with `reports`: the
/// state it is left in, and the effects it has handed out on the way.
pub open spec fn run(config: ConfigModel, state: PipelineModel, reports: Seq<Report>) -> (
    PipelineModel,
    Seq<EffectModel>,
)
    decreases reports.len(),
{
    if reports.len() == 0 {
        (state, Seq::empty())
    } else {
        let (next, effect) = pipeline_step(config, state, reports.first().0, reports.first().1);
        let (end, later) = run(config, next, reports.drop_first());
        match effect {
            Some(effect) => (end, seq![effect] + later),
            None => (end, later),
        }
    }
}

/// The effects of a staging that nothing hinders: read, delete, look, and
/// write unless something was there.
pub open spec fn staging_effects(
    source: Seq<u8>,
    artifact: ArtifactModel,
    contents: Seq<u8>,
    was_there: bool,
) -> Seq<EffectModel> {
    let place = encode_utf8(artifact.local_path);
    let first = seq![
        EffectModel::ReadFile { path: source },
        EffectModel::RemoveFile { path: source },
        EffectModel::ProbeFile { path: place },
    ];
    if was_there {
        first
    } else {
        first.push(EffectModel::WriteFile { path: place, contents })
    }
}

/// The effects of a wait that sees its target missing `absences` times: a
/// sleep of the full interval and another probe for each.
pub open spec fn waiting_effects(poller: PollerModel, absences: nat) -> Seq<EffectModel> {
    Seq::new(
        2 * absences,
        |i: int|
            if i % 2 == 0 {
                EffectModel::Sleep { millis: poller.interval_millis }
            } else {
                poller.probe()
            },
    )
}

/// The effects that bring the results back: the move of the log where that
/// is wanted, then the retrieval.
pub open spec fn closing_effects(
    config: ConfigModel,
    artifact: ArtifactModel,
    handle: JobHandleModel,
) -> Seq<EffectModel> {
    if config.relocate_log {
        seq![log_relocation(config, artifact, handle), retrieval(config, artifact)]
    } else {
        seq![retrieval(config, artifact)]
    }
}

/// The reports of a wait that sees its target missing `absences` times and
/// then finds it: an absence and the end of a sleep in turn, and a presence
/// last.
pub open spec fn waits_and_finds(reports: Seq<Report>, absences: nat) -> bool {
    &&& reports.len() == 2 * absences + 1
    &&& forall|i: int|
        0 <= i < absences ==> presence(#[trigger] reports[2 * i].0) == Ok::<bool, ErrorModel>(false)
    &&& forall|i: int| 0 <= i < absences ==> (#[trigger] reports[2 * i + 1]).0 is Slept
    &&& presence(reports[2 * (absences as int)].0) == Ok::<bool, ErrorModel>(true)
}

/// A run that is carried on in two parts is carried on as in one.
pub proof fn a_run_in_two_parts(
    config: ConfigModel,
    state: PipelineModel,
    first: Seq<Report>,
    second: Seq<Report>,
)
    ensures
        ({
            let (between, before) = run(config, state, first);
            let (end, after) = run(config, between, second);
            run(config, state, first + second) == (end, before + after)
        }),
    decreases first.len(),
{
    if first.len() == 0 {
        assert(first + second =~= second);
        let (end, after) = run(config, state, second);
        assert(Seq::<EffectModel>::empty() + after =~= after);
    } else {
        let (next, effect) = pipeline_step(config, state, first.first().0, first.first().1);
        a_run_in_two_parts(config, next, first.drop_first(), second);
        assert((first + second).drop_first() =~= first.drop_first() + second);
        assert((first + second).first() == first.first());
        let (between, before) = run(config, next, first.drop_first());
        let (end, after) = run(config, between, second);
        match effect {
            Some(effect) => {
                assert(seq![effect] + (before + after) =~= (seq![effect] + before) + after);
            },
            None => {},
        }
    }
}

/// The first stages of a run that nothing hinders: once the descriptor is
/// synced, the input is staged, whether or not a file of the artifact's name
/// was there, and its transfer is begun.
pub proof fn a_run_stages_its_input(
    config: ConfigModel,
    input: Seq<u8>,
    contents: Seq<u8>,
    was_there: bool,
    reports: Seq<Report>,
)
    requires
        artifact_for(config.local_staging_dir, input, contents) is Ok,
        reports.len() == if was_there {
            4int
        } else {
            5int
        },
        copy_verdict(reports[0].0) is Ok,
        reports[1].0 == OutcomeModel::FileRead(Some(contents)),
        reports[2].0 == OutcomeModel::FileRemoved(true),
        reports[3].0 == OutcomeModel::FileProbed(Some(was_there)),
        !was_there ==> reports[4].0 == OutcomeModel::FileWritten(true),
    ensures
        ({
            let artifact = artifact_for(config.local_staging_dir, input, contents)->Ok_0;
            run(config, pipeline_start(config, input).0, reports) == (
                PipelineModel::TransferringInput { artifact },
                staging_effects(input, artifact, contents, was_there).push(
                    input_transfer(config, artifact),
                ),
            )
        }),
{
    reveal_with_fuel(run, 6);
    let artifact = artifact_for(config.local_staging_dir, input, contents)->Ok_0;
    let wanted = staging_effects(input, artifact, contents, was_there).push(
        input_transfer(config, artifact),
    );
    let r1 = reports.drop_first();
    let r2 = r1.drop_first();
    let r3 = r2.drop_first();
    let r4 = r3.drop_first();
    assert(r1.first() == reports[1]);
    assert(r2.first() == reports[2]);
    assert(r3.first() == reports[3]);
    if !was_there {
        assert(r4.first() == reports[4]);
        assert(r4.drop_first().len() == 0);
    } else {
        assert(r4.len() == 0);
    }
    assert(run(config, pipeline_start(config, input).0, reports).1 =~= wanted);
}

/// The middle stages of a run that nothing hinders: once the input is
/// transferred, the job is submitted, and once it has its identifier, the
/// wait for its output begins with a first probe.
pub proof fn a_run_submits_its_job(
    config: ConfigModel,
    artifact: ArtifactModel,
    handle: JobHandleModel,
    transferred: Report,
    submitted: Report,
)
    requires
        copy_verdict(transferred.0) is Ok,
        submission_verdict(submitted.0) == Ok::<JobHandleModel, ErrorModel>(handle),
    ensures
        run(
            config,
            PipelineModel::TransferringInput { artifact },
            seq![transferred, submitted],
        ) == (
            PipelineModel::AwaitingOutput {
                artifact,
                handle,
                poller: the_wait(config, handle, submitted.1),
            },
            seq![submission(config, artifact), the_wait(config, handle, submitted.1).probe()],
        ),
{
    reveal_with_fuel(run, 3);
    let reports = seq![transferred, submitted];
    assert(reports.drop_first().first() == submitted);
    assert(reports.drop_first().drop_first().len() == 0);
    assert(run(config, PipelineModel::TransferringInput { artifact }, reports).1 =~= seq![
        submission(config, artifact),
        the_wait(config, handle, submitted.1).probe(),
    ]);
}

/// The wait that a run begins at the time `now` for the output of the job
/// with the handle `handle`.
pub open spec fn the_wait(config: ConfigModel, handle: JobHandleModel, now: u64) -> PollerModel {
    poll_start(
        config.remote_user,
        config.remote_host,
        output_target(config, handle),
        config.poll_interval_millis,
        config.poll_deadline_millis,
        now,
    ).0
}

/// The wait of a run without a deadline: however often the output is
/// missing, the run sleeps and probes again, and when the output is there it
/// goes on to bring the results back.
pub proof fn a_run_waits_for_the_output(
    config: ConfigModel,
    artifact: ArtifactModel,
    handle: JobHandleModel,
    poller: PollerModel,
    absences: nat,
    reports: Seq<Report>,
)
    requires
        poller.phase is Polling,
        poller.deadline_millis is None,
        waits_and_finds(reports, absences),
    ensures
        run(config, PipelineModel::AwaitingOutput { artifact, handle, poller }, reports) == (
            after_output(config, artifact, handle).0,
            waiting_effects(poller, absences).push(after_output(config, artifact, handle).1->0),
        ),
    decreases absences,
{
    reveal_with_fuel(run, 3);
    let state = PipelineModel::AwaitingOutput { artifact, handle, poller };
    let wanted = waiting_effects(poller, absences).push(
        after_output(config, artifact, handle).1->0,
    );
    if absences == 0 {
        assert(reports.drop_first().len() == 0);
        assert(run(config, state, reports).1 =~= wanted);
    } else {
        let rest = reports.drop_first().drop_first();
        assert(reports[2 * 0int] == reports[0]);
        assert(reports[2 * 0int + 1] == reports[1]);
        assert(reports.drop_first().first() == reports[1]);
        assert(waits_and_finds(rest, (absences - 1) as nat)) by {
            assert forall|i: int| 0 <= i < absences - 1 implies presence(
                #[trigger] rest[2 * i].0,
            ) == Ok::<bool, ErrorModel>(false) by {
                assert(rest[2 * i] == reports[2 * (i + 1)]);
            }
            assert forall|i: int| 0 <= i < absences - 1 implies (#[trigger] rest[2 * i
                + 1]).0 is Slept by {
                assert(rest[2 * i + 1] == reports[2 * (i + 1) + 1]);
            }
            assert(rest[2 * (absences - 1)] == reports[2 * (absences as int)]);
        }
        a_run_waits_for_the_output(config, artifact, handle, poller, (absences - 1) as nat, rest);
        assert(poll_step(poller, reports[0].0, reports[0].1) == (
            poller,
            Some(EffectModel::Sleep { millis: poller.interval_millis }),
        ));
        assert(poll_step(poller, reports[1].0, reports[1].1) == (poller, Some(poller.probe())));
        let inner = run(config, state, rest).1;
        let found = run(config, state, reports).1;
        assert(found == seq![EffectModel::Sleep { millis: poller.interval_millis }] + (seq![
            poller.probe(),
        ] + inner));
        assert forall|i: int| 0 <= i < wanted.len() implies found[i] == wanted[i] by {
            if i >= 2 {
                assert(found[i] == inner[i - 2]);
                assert((i - 2) % 2 == i % 2);
            }
        }
        assert(found =~= wanted);
    }
}

/// The last stages of a run that nothing hinders: once the output is there,
/// the log is moved where that is wanted, the results are brought back, and
/// the run has finished.
pub proof fn a_run_brings_the_results_back(
    config: ConfigModel,
    artifact: ArtifactModel,
    handle: JobHandleModel,
    reports: Seq<Report>,
)
    requires
        reports.len() == if config.relocate_log {
            2int
        } else {
            1int
        },
        forall|i: int| 0 <= i < reports.len() ==> copy_verdict(#[trigger] reports[i].0) is Ok,
    ensures
        run(config, after_output(config, artifact, handle).0, reports) == (
            PipelineModel::Finished { artifact, handle },
            closing_effects(config, artifact, handle).drop_first(),
        ),
{
    reveal_with_fuel(run, 3);
    let state = after_output(config, artifact, handle).0;
    assert(copy_verdict(reports[0].0) is Ok);
    if config.relocate_log {
        assert(copy_verdict(reports[1].0) is Ok);
        assert(reports.drop_first().first() == reports[1]);
        assert(reports.drop_first().drop_first().len() == 0);
    } else {
        assert(reports.drop_first().len() == 0);
    }
    assert(run(config, state, reports).1 =~= closing_effects(config, artifact, handle).drop_first());
}

/// A run that nothing hinders, from its beginning to its end.
///
/// Let the descriptor be synced, the input be read as `contents`, deleted
/// and written unless a file of the artifact's name was there; let the
/// transfer go through, the scheduler answer with the identifier of
/// `handle`, and the output be missing `absences` times before it is there;
/// and let the last copies go through. Then the run finishes with the
/// artifact named after the digest of `contents` and with `handle`, and the
/// effects that it handed out after the first are, in this order: those of
/// the staging, the transfer of the input, the submission, a first probe,
/// a sleep and a probe for each absence, and those that bring the results
/// back.
pub proof fn a_run_that_nothing_hinders(
    config: ConfigModel,
    input: Seq<u8>,
    contents: Seq<u8>,
    was_there: bool,
    handle: JobHandleModel,
    absences: nat,
    staging: Seq<Report>,
    transferred: Report,
    submitted: Report,
    waiting: Seq<Report>,
    closing: Seq<Report>,
)
    requires
        config.poll_deadline_millis is None,
        artifact_for(config.local_staging_dir, input, contents) is Ok,
        staging.len() == if was_there {
            4int
        } else {
            5int
        },
        copy_verdict(staging[0].0) is Ok,
        staging[1].0 == OutcomeModel::FileRead(Some(contents)),
        staging[2].0 == OutcomeModel::FileRemoved(true),
        staging[3].0 == OutcomeModel::FileProbed(Some(was_there)),
        !was_there ==> staging[4].0 == OutcomeModel::FileWritten(true),
        copy_verdict(transferred.0) is Ok,
        submission_verdict(submitted.0) == Ok::<JobHandleModel, ErrorModel>(handle),
        waits_and_finds(waiting, absences),
        closing.len() == if config.relocate_log {
            2int
        } else {
            1int
        },
        forall|i: int| 0 <= i < closing.len() ==> copy_verdict(#[trigger] closing[i].0) is Ok,
    ensures
        ({
            let artifact = artifact_for(config.local_staging_dir, input, contents)->Ok_0;
            let poller = the_wait(config, handle, submitted.1);
            run(
                config,
                pipeline_start(config, input).0,
                staging + seq![transferred, submitted] + waiting + closing,
            ) == (
                PipelineModel::Finished { artifact, handle },
                staging_effects(input, artifact, contents, was_there) + seq![
                    input_transfer(config, artifact),
                    submission(config, artifact),
                    probe_command(
                        config.remote_user,
                        config.remote_host,
                        output_target(config, handle),
                    ),
                ] + waiting_effects(poller, absences) + closing_effects(config, artifact, handle),
            )
        }),
{
    let artifact = artifact_for(config.local_staging_dir, input, contents)->Ok_0;
    let poller = the_wait(config, handle, submitted.1);
    let begun = pipeline_start(config, input).0;
    let middle = seq![transferred, submitted];
    let transferring = PipelineModel::TransferringInput { artifact };
    let awaiting = PipelineModel::AwaitingOutput { artifact, handle, poller };
    let found = after_output(config, artifact, handle).0;

    a_run_stages_its_input(config, input, contents, was_there, staging);
    a_run_submits_its_job(config, artifact, handle, transferred, submitted);
    a_run_waits_for_the_output(config, artifact, handle, poller, absences, waiting);
    a_run_brings_the_results_back(config, artifact, handle, closing);

    a_run_in_two_parts(config, begun, staging, middle);
    a_run_in_two_parts(config, begun, staging + middle, waiting);
    a_run_in_two_parts(config, begun, staging + middle + waiting, closing);

    let all = run(config, begun, staging + middle + waiting + closing).1;
    let wanted = staging_effects(input, artifact, contents, was_there) + seq![
        input_transfer(config, artifact),
        submission(config, artifact),
        probe_command(config.remote_user, config.remote_host, output_target(config, handle)),
    ] + waiting_effects(poller, absences) + closing_effects(config, artifact, handle);
    let closing_all = closing_effects(config, artifact, handle);
    assert(seq![after_output(config, artifact, handle).1->0] + closing_all.drop_first()
        =~= closing_all);
    assert(all =~= wanted);
}

} // verus!
