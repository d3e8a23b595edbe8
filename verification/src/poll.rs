//! Waiting for the job's output: probing the remote host for a file until it
//! is there, a deadline passes, or the wait is cancelled.
//!
//! Presence is judged by the diagnostics of the listing alone: none means
//! the file is there, any at all means it is not yet. A broken listing for
//! any other reason than a missing file is therefore taken for absence as
//! long as the command itself could be run.

use crate::effect::{captured_text, printed, Effect, EffectModel, Outcome, OutcomeModel};
use crate::error::{result_model, ErrorModel, PipelineError};
use crate::submit::{
    destination_text, parsed_handle, session_destination, JobHandle, JobHandleModel,
};
use vstd::prelude::*;

verus! {

/// How long to wait between two probes unless told otherwise: five seconds.
pub const DEFAULT_POLL_INTERVAL_MILLIS: u64 = 5_000;

/// The name of the file that the scheduler writes a job's output to:
/// `<job name>.o<job number>`.
pub open spec fn output_name(job_name: Seq<char>, job_number: Seq<char>) -> Seq<char> {
    job_name + ".o"@ + job_number
}

/// The effect that probes the remote host for `target`.
pub open spec fn probe_command(user: Seq<char>, host: Seq<char>, target: Seq<char>) -> EffectModel {
    EffectModel::RunRemote {
        destination: session_destination(user, host),
        program: "ls"@,
        arguments: seq![target],
    }
}

/// The effect that probes for the output of the job with the identifier
/// `job_id`; there is none for a malformed identifier.
pub open spec fn output_probe(
    user: Seq<char>,
    host: Seq<char>,
    job_id: Seq<char>,
    job_name: Seq<char>,
) -> Result<EffectModel, ErrorModel> {
    match parsed_handle(job_id) {
        Ok(handle) => Ok(probe_command(user, host, output_name(job_name, handle.job_number))),
        Err(error) => Err(error),
    }
}

/// What a finished probe tells: the target is there if the listing printed
/// no diagnostics.
pub open spec fn presence(outcome: OutcomeModel) -> Result<bool, ErrorModel> {
    match printed(outcome) {
        Ok(text) => Ok(text.stderr.len() == 0),
        Err(error) => Err(error),
    }
}

/// Names the output file of a job.
pub fn output_name_text(job_name: &str, job_number: &str) -> (out: String)
    ensures
        out@ == output_name(job_name@, job_number@),
{
    let mut out = String::from_str(job_name);
    out.append(".o");
    out.append(job_number);
    out
}

/// Plans one probe of the remote host for `target`.
pub fn probe_effect(username: &str, hostname: &str, target: &str) -> (effect: Effect)
    ensures
        effect@ == probe_command(username@, hostname@, target@),
{
    let mut arguments: Vec<String> = Vec::new();
    arguments.push(String::from_str(target));
    let effect = Effect::RunRemote {
        destination: destination_text(username, hostname),
        program: String::from_str("ls"),
        arguments,
    };
    proof {
        assert(effect@.arrow_RunRemote_arguments() =~= seq![target@]);
    }
    effect
}

/// Plans one probe for the output of the job `pbs_job_id`, which the
/// scheduler writes under the job's name and number.
pub fn metis_output_exists(
    username: &str,
    hostname: &str,
    pbs_job_id: &str,
    pbs_job_name: &str,
) -> (res: Result<Effect, PipelineError>)
    ensures
        result_model(res) == output_probe(username@, hostname@, pbs_job_id@, pbs_job_name@),
{
    let handle = JobHandle::parse(pbs_job_id)?;
    let target = output_name_text(pbs_job_name, handle.job_number.as_str());
    Ok(probe_effect(username, hostname, target.as_str()))
}

/// Judges a finished probe.
pub fn output_exists(outcome: Outcome) -> (res: Result<bool, PipelineError>)
    ensures
        result_model(res) == presence(outcome@),
{
    let text = captured_text(outcome)?;
    Ok(text.stderr.as_str().is_empty())
}

/// Where a wait stands.
#[derive(Debug, Clone, PartialEq, Eq)]
pub enum PollPhase {
    /// The target has not been seen yet.
    Polling,
    /// The target is there.
    Found,
    /// The deadline passed, or the wait was cancelled.
    TimedOut,
    /// A probe could not be carried out.
    Failed(PipelineError),
}

/// The mathematical value of a [`PollPhase`].
pub enum PhaseModel {
    Polling,
    Found,
    TimedOut,
    Failed(ErrorModel),
}

impl DeepView for PollPhase {
    type V = PhaseModel;

    open spec fn deep_view(&self) -> PhaseModel {
        match self {
            PollPhase::Polling => PhaseModel::Polling,
            PollPhase::Found => PhaseModel::Found,
            PollPhase::TimedOut => PhaseModel::TimedOut,
            PollPhase::Failed(error) => PhaseModel::Failed(error@),
        }
    }
}

impl View for PollPhase {
    type V = PhaseModel;

    open spec fn view(&self) -> PhaseModel {
        self.deep_view()
    }
}

/// A wait for a file on the remote host. Times are milliseconds on a clock
/// of the driver's that never runs backwards.
#[derive(Debug, Clone, PartialEq, Eq)]
pub struct Poller {
    pub username: String,
    pub hostname: String,
    /// The path or name that is probed for.
    pub target: String,
    /// How long to wait between two probes.
    pub interval_millis: u64,
    /// How long the wait may last in all; forever if `None`.
    pub deadline_millis: Option<u64>,
    /// When the wait began.
    pub started_millis: u64,
    pub phase: PollPhase,
}

/// The mathematical value of a [`Poller`].
pub struct PollerModel {
    pub username: Seq<char>,
    pub hostname: Seq<char>,
    pub target: Seq<char>,
    pub interval_millis: u64,
    pub deadline_millis: Option<u64>,
    pub started_millis: u64,
    pub phase: PhaseModel,
}

impl DeepView for Poller {
    type V = PollerModel;

    open spec fn deep_view(&self) -> PollerModel {
        PollerModel {
            username: self.username@,
            hostname: self.hostname@,
            target: self.target@,
            interval_millis: self.interval_millis,
            deadline_millis: self.deadline_millis,
            started_millis: self.started_millis,
            phase: self.phase@,
        }
    }
}

impl View for Poller {
    type V = PollerModel;

    open spec fn view(&self) -> PollerModel {
        self.deep_view()
    }
}

impl PollerModel {
    /// The same wait in another phase.
    pub open spec fn in_phase(self, phase: PhaseModel) -> PollerModel {
        PollerModel { phase, ..self }
    }

    /// How long the wait has lasted at the time `now`.
    pub open spec fn elapsed(self, now: u64) -> int {
        if now >= self.started_millis {
            now - self.started_millis
        } else {
            0
        }
    }

    /// Whether the deadline has passed at the time `now`.
    pub open spec fn expired(self, now: u64) -> bool {
        self.deadline_millis matches Some(deadline) && self.elapsed(now) >= deadline
    }

    /// How long to sleep before the next probe: the interval, cut short
    /// where the deadline comes first.
    pub open spec fn pause(self, now: u64) -> int {
        match self.deadline_millis {
            Some(deadline) if deadline - self.elapsed(now) < self.interval_millis => deadline
                - self.elapsed(now),
            _ => self.interval_millis as int,
        }
    }

    /// The probe that the wait repeats.
    pub open spec fn probe(self) -> EffectModel {
        probe_command(self.username, self.hostname, self.target)
    }
}

/// How a wait begins: with a first probe.
pub open spec fn poll_start(
    user: Seq<char>,
    host: Seq<char>,
    target: Seq<char>,
    interval_millis: u64,
    deadline_millis: Option<u64>,
    now: u64,
) -> (PollerModel, EffectModel) {
    (
        PollerModel {
            username: user,
            hostname: host,
            target,
            interval_millis,
            deadline_millis,
            started_millis: now,
            phase: PhaseModel::Polling,
        },
        probe_command(user, host, target),
    )
}

/// One step of a wait, at the time `now`.
///
/// A probe that finds the target ends the wait as found. One that does not
/// is followed by a sleep and, after the sleep, by another probe, unless the
/// deadline has passed by then, which ends the wait as timed out, as a
/// cancellation does at once. A probe that could not be carried out ends the
/// wait as failed. A wait that is over stays as it is.
pub open spec fn poll_step(poller: PollerModel, outcome: OutcomeModel, now: u64) -> (
    PollerModel,
    Option<EffectModel>,
) {
    if poller.phase is Polling {
        match outcome {
            OutcomeModel::Ran(report) => match presence(outcome) {
                Ok(found) => if found {
                    (poller.in_phase(PhaseModel::Found), None)
                } else if poller.expired(now) {
                    (poller.in_phase(PhaseModel::TimedOut), None)
                } else {
                    (poller, Some(EffectModel::Sleep { millis: poller.pause(now) as u64 }))
                },
                Err(error) => (poller.in_phase(PhaseModel::Failed(error)), None),
            },
            OutcomeModel::Slept => if poller.expired(now) {
                (poller.in_phase(PhaseModel::TimedOut), None)
            } else {
                (poller, Some(poller.probe()))
            },
            OutcomeModel::Cancelled => (poller.in_phase(PhaseModel::TimedOut), None),
            _ => (poller.in_phase(PhaseModel::Failed(ErrorModel::ConnectionFailure)), None),
        }
    } else {
        (poller, None)
    }
}

/// Begins the wait for `target` on the remote host, at the time `now`.
pub fn await_output(
    username: &str,
    hostname: &str,
    target: &str,
    interval_millis: u64,
    deadline_millis: Option<u64>,
    now: u64,
) -> (begun: (Poller, Effect))
    ensures
        (begun.0@, begun.1@) == poll_start(
            username@,
            hostname@,
            target@,
            interval_millis,
            deadline_millis,
            now,
        ),
{
    let effect = probe_effect(username, hostname, target);
    (
        Poller {
            username: String::from_str(username),
            hostname: String::from_str(hostname),
            target: String::from_str(target),
            interval_millis,
            deadline_millis,
            started_millis: now,
            phase: PollPhase::Polling,
        },
        effect,
    )
}

impl Poller {
    /// Whether the deadline has passed at the time `now`.
    pub fn expired(&self, now: u64) -> (yes: bool)
        ensures
            yes == self@.expired(now),
    {
        match self.deadline_millis {
            Some(deadline) => {
                let elapsed: u64 = if now >= self.started_millis {
                    now - self.started_millis
                } else {
                    0
                };
                elapsed >= deadline
            },
            None => false,
        }
    }

    /// How long to sleep before the next probe.
    fn pause(&self, now: u64) -> (millis: u64)
        requires
            !self@.expired(now),
        ensures
            millis == self@.pause(now),
    {
        let elapsed: u64 = if now >= self.started_millis {
            now - self.started_millis
        } else {
            0
        };
        match self.deadline_millis {
            Some(deadline) if deadline - elapsed < self.interval_millis => deadline - elapsed,
            _ => self.interval_millis,
        }
    }

    /// Takes the driver's report on the last effect, and the time, and
    /// decides what follows.
    pub fn step(self, outcome: Outcome, now: u64) -> (next: (Poller, Option<Effect>))
        ensures
            (next.0@, next.1.deep_view()) == poll_step(self@, outcome@, now),
    {
        if let PollPhase::Polling = self.phase {
        } else {
            return (self, None);
        }
        match outcome {
            Outcome::Ran(report) => match output_exists(Outcome::Ran(report)) {
                Ok(found) => if found {
                    (self.in_phase(PollPhase::Found), None)
                } else if self.expired(now) {
                    (self.in_phase(PollPhase::TimedOut), None)
                } else {
                    let millis: u64 = self.pause(now);
                    (self, Some(Effect::Sleep { millis }))
                },
                Err(error) => (self.in_phase(PollPhase::Failed(error)), None),
            },
            Outcome::Slept => if self.expired(now) {
                (self.in_phase(PollPhase::TimedOut), None)
            } else {
                let effect = probe_effect(
                    self.username.as_str(),
                    self.hostname.as_str(),
                    self.target.as_str(),
                );
                (self, Some(effect))
            },
            Outcome::Cancelled => (self.in_phase(PollPhase::TimedOut), None),
            _ => (self.in_phase(PollPhase::Failed(PipelineError::ConnectionFailure)), None),
        }
    }

    /// The same wait in another phase.
    fn in_phase(self, phase: PollPhase) -> (out: Poller)
        ensures
            out@ == self@.in_phase(phase@),
    {
        Poller { phase, ..self }
    }
}

/// The probe for the output of a job that has its handle is the probe for
/// the file named after the handle's job number.
pub proof fn a_handle_is_probed_by_its_number(
    user: Seq<char>,
    host: Seq<char>,
    handle: JobHandleModel,
    job_name: Seq<char>,
)
    requires
        handle.well_formed(),
    ensures
        output_probe(user, host, handle.raw_id, job_name) == Ok::<EffectModel, ErrorModel>(
            probe_command(user, host, output_name(job_name, handle.job_number)),
        ),
{
}

/// The effects that a wait hands out when the driver answers with
/// `reports`, each an outcome and the time it came at.
pub open spec fn effects_of_polling(poller: PollerModel, reports: Seq<(OutcomeModel, u64)>) -> Seq<
    EffectModel,
>
    decreases reports.len(),
{
    if reports.len() == 0 {
        Seq::empty()
    } else {
        let (next, effect) = poll_step(poller, reports.first().0, reports.first().1);
        let rest = effects_of_polling(next, reports.drop_first());
        match effect {
            Some(effect) => seq![effect] + rest,
            None => rest,
        }
    }
}

/// The wait that is left when the driver has answered with `reports`.
pub open spec fn end_of_polling(poller: PollerModel, reports: Seq<(OutcomeModel, u64)>) -> PollerModel
    decreases reports.len(),
{
    if reports.len() == 0 {
        poller
    } else {
        let (next, effect) = poll_step(poller, reports.first().0, reports.first().1);
        end_of_polling(next, reports.drop_first())
    }
}

/// A wait goes on exactly as long as it is polling: a step hands out an
/// effect if it leaves the wait polling, and none if it ends it; and a wait
/// that is over stays as it is.
pub proof fn polling_goes_on_until_it_is_over(poller: PollerModel, outcome: OutcomeModel, now: u64)
    ensures
        poll_step(poller, outcome, now).1 is Some <==> poller.phase is Polling && poll_step(
            poller,
            outcome,
            now,
        ).0.phase is Polling,
        !(poller.phase is Polling) ==> poll_step(poller, outcome, now).0 == poller,
{
}

/// Without a deadline a wait is never given up: only a cancellation makes
/// it time out, and every sleep lasts the full interval.
pub proof fn without_a_deadline_the_wait_is_unbounded(
    poller: PollerModel,
    outcome: OutcomeModel,
    now: u64,
)
    requires
        poller.phase is Polling,
        poller.deadline_millis is None,
    ensures
        poll_step(poller, outcome, now).0.phase is TimedOut <==> outcome is Cancelled,
        poll_step(poller, outcome, now).1 matches Some(EffectModel::Sleep { millis }) ==> millis
            == poller.interval_millis,
{
}

/// With a deadline a wait does not outlast it: once the deadline has
/// passed, a probe that does not find the target and the end of a sleep both
/// end the wait as timed out; and before that, no sleep is longer than the
/// interval or than the time that is left.
pub proof fn with_a_deadline_the_wait_ends(poller: PollerModel, outcome: OutcomeModel, now: u64)
    requires
        poller.phase is Polling,
        poller.deadline_millis is Some,
        outcome is Slept || presence(outcome) == Ok::<bool, ErrorModel>(false),
    ensures
        poller.expired(now) ==> poll_step(poller, outcome, now) == (
            poller.in_phase(PhaseModel::TimedOut),
            None::<EffectModel>,
        ),
        poll_step(poller, outcome, now).1 matches Some(EffectModel::Sleep { millis }) ==> millis
            <= poller.interval_millis && poller.elapsed(now) + millis
            <= poller.deadline_millis->0,
{
}

/// A wait for a target that is never there, after `rounds` rounds of a probe
/// and a sleep, on a clock that moves on by what each sleep asks for: that
/// is the least that a clock can move, so a wait in the world ends no later.
pub open spec fn waited_in_vain(poller: PollerModel, absent: OutcomeModel, now: u64, rounds: nat) -> PollerModel
    decreases rounds,
{
    if rounds == 0 {
        poller
    } else {
        match poll_step(poller, absent, now) {
            (next, Some(EffectModel::Sleep { millis })) => {
                let woke = if now + millis <= u64::MAX {
                    (now + millis) as u64
                } else {
                    u64::MAX
                };
                waited_in_vain(
                    poll_step(next, OutcomeModel::Slept, woke).0,
                    absent,
                    woke,
                    (rounds - 1) as nat,
                )
            },
            (next, _) => next,
        }
    }
}

/// A deadline keeps a wait from going on forever. However long the target
/// stays away, the wait has timed out after as many rounds as intervals fit
/// into the time that was left, one more for a rest, if the interval is not
/// zero and the clock can count up to the deadline.
pub proof fn a_deadline_ends_a_wait_in_vain(
    poller: PollerModel,
    absent: OutcomeModel,
    now: u64,
    rounds: nat,
)
    requires
        poller.phase is Polling,
        presence(absent) == Ok::<bool, ErrorModel>(false),
        poller.deadline_millis is Some,
        poller.interval_millis > 0,
        poller.started_millis <= now,
        poller.started_millis + poller.deadline_millis->0 <= u64::MAX,
        rounds >= 1,
        rounds * poller.interval_millis >= poller.deadline_millis->0 - poller.elapsed(now),
    ensures
        waited_in_vain(poller, absent, now, rounds) == poller.in_phase(PhaseModel::TimedOut),
    decreases rounds,
{
    let deadline = poller.deadline_millis->0;
    let interval = poller.interval_millis;
    let left = deadline - poller.elapsed(now);
    let timed_out = poller.in_phase(PhaseModel::TimedOut);
    if left > 0 {
        let pause = poller.pause(now);
        let woke = (now + pause) as u64;
        assert(poll_step(poller, absent, now) == (
            poller,
            Some(EffectModel::Sleep { millis: pause as u64 }),
        ));
        if left <= interval {
            assert(poll_step(poller, OutcomeModel::Slept, woke).0 == timed_out);
            a_wait_that_is_over_is_left_alone(timed_out, absent, woke, (rounds - 1) as nat);
        } else {
            assert((rounds - 1) * interval == rounds * interval - interval) by (nonlinear_arith);
            assert(rounds - 1 >= 1) by (nonlinear_arith)
                requires
                    (rounds - 1) * interval > 0,
                    rounds >= 1,
                    interval > 0,
            ;
            assert(poll_step(poller, OutcomeModel::Slept, woke).0 == poller);
            a_deadline_ends_a_wait_in_vain(poller, absent, woke, (rounds - 1) as nat);
        }
    }
}

/// No round changes a wait that is over.
proof fn a_wait_that_is_over_is_left_alone(
    poller: PollerModel,
    absent: OutcomeModel,
    now: u64,
    rounds: nat,
)
    requires
        !(poller.phase is Polling),
    ensures
        waited_in_vain(poller, absent, now, rounds) == poller,
{
}

/// A wait without a deadline, on a target that is missing `absences` times
/// and then there, ends as found after `absences` sleeps of the full
/// interval, each followed by one more probe: with the probe that began the
/// wait, one probe more than there were absences.
pub proof fn polls_until_the_output_is_there(
    poller: PollerModel,
    absences: nat,
    reports: Seq<(OutcomeModel, u64)>,
)
    requires
        poller.phase is Polling,
        poller.deadline_millis is None,
        reports.len() == 2 * absences + 1,
        forall|i: int|
            0 <= i < absences ==> presence(#[trigger] reports[2 * i].0) == Ok::<bool, ErrorModel>(
                false,
            ),
        forall|i: int| 0 <= i < absences ==> (#[trigger] reports[2 * i + 1]).0 is Slept,
        presence(reports[2 * (absences as int)].0) == Ok::<bool, ErrorModel>(true),
    ensures
        end_of_polling(poller, reports) == poller.in_phase(PhaseModel::Found),
        effects_of_polling(poller, reports) == Seq::new(
            2 * absences,
            |i: int|
                if i % 2 == 0 {
                    EffectModel::Sleep { millis: poller.interval_millis }
                } else {
                    poller.probe()
                },
        ),
    decreases absences,
{
    reveal_with_fuel(effects_of_polling, 3);
    reveal_with_fuel(end_of_polling, 3);
    let wanted = Seq::new(
        2 * absences,
        |i: int|
            if i % 2 == 0 {
                EffectModel::Sleep { millis: poller.interval_millis }
            } else {
                poller.probe()
            },
    );
    if absences == 0 {
        assert(reports.drop_first().len() == 0);
        assert(effects_of_polling(poller, reports) =~= wanted);
    } else {
        let rest = reports.drop_first().drop_first();
        assert(reports[2 * 0int] == reports[0]);
        assert(reports[2 * 0int + 1] == reports[1]);
        assert(presence(reports[0].0) == Ok::<bool, ErrorModel>(false));
        assert(reports[1].0 is Slept);
        assert forall|i: int| 0 <= i < absences - 1 implies presence(#[trigger] rest[2 * i].0)
            == Ok::<bool, ErrorModel>(false) by {
            assert(rest[2 * i] == reports[2 * (i + 1)]);
        }
        assert forall|i: int| 0 <= i < absences - 1 implies (#[trigger] rest[2 * i + 1]).0 is Slept by {
            assert(rest[2 * i + 1] == reports[2 * (i + 1) + 1]);
        }
        assert(rest[2 * (absences - 1)] == reports[2 * (absences as int)]);
        polls_until_the_output_is_there(poller, (absences - 1) as nat, rest);
        let after_probe = poll_step(poller, reports[0].0, reports[0].1);
        assert(after_probe == (
            poller,
            Some(EffectModel::Sleep { millis: poller.interval_millis }),
        ));
        let after_sleep = poll_step(poller, reports[1].0, reports[1].1);
        assert(after_sleep == (poller, Some(poller.probe())));
        assert(reports.drop_first().first() == reports[1]);
        let inner = effects_of_polling(poller, rest);
        assert(effects_of_polling(poller, reports) == seq![
            EffectModel::Sleep { millis: poller.interval_millis },
        ] + (seq![poller.probe()] + inner));
        assert forall|i: int| 0 <= i < wanted.len() implies effects_of_polling(poller, reports)[i]
            == wanted[i] by {
            if i >= 2 {
                assert(inner[i - 2] == effects_of_polling(poller, reports)[i]);
                assert((i - 2) % 2 == i % 2);
            }
        }
        assert(effects_of_polling(poller, reports) =~= wanted);
    }
}

} // verus!
