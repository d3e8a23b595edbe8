//! Submitting the batch job, and reading the identifier that the scheduler
//! gives it.

use crate::effect::{captured_text, printed, Effect, EffectModel, Outcome, OutcomeModel};
use crate::error::{result_model, ErrorModel, PipelineError};
use crate::text::{trim, trimmed};
use vstd::prelude::*;

verus! {

/// An identifier as the scheduler prints it.
pub type PBSId = String;

/// The identifier of a submitted job.
#[derive(Debug, Clone, PartialEq, Eq)]
pub struct JobHandle {
    /// The identifier as the scheduler printed it: `<number>.<suffix>`.
    pub raw_id: PBSId,
    /// What stands before the first `.` of the identifier.
    pub job_number: String,
}

/// The mathematical value of a [`JobHandle`].
pub struct JobHandleModel {
    pub raw_id: Seq<char>,
    pub job_number: Seq<char>,
}

impl DeepView for JobHandle {
    type V = JobHandleModel;

    open spec fn deep_view(&self) -> JobHandleModel {
        JobHandleModel { raw_id: self.raw_id@, job_number: self.job_number@ }
    }
}

impl View for JobHandle {
    type V = JobHandleModel;

    open spec fn view(&self) -> JobHandleModel {
        self.deep_view()
    }
}

/// The index of the first `needle` in `text`, or the length of `text` if
/// there is none.
pub open spec fn first_index_of(text: Seq<char>, needle: char) -> int
    decreases text.len(),
{
    if text.len() == 0 || text.first() == needle {
        0
    } else {
        1 + first_index_of(text.drop_first(), needle)
    }
}

/// Whether an identifier holds the `.` that ends its job number.
pub open spec fn has_separator(raw: Seq<char>) -> bool {
    first_index_of(raw, '.') < raw.len()
}

/// The job number of an identifier: what stands before its first `.`.
pub open spec fn job_number_of(raw: Seq<char>) -> Seq<char> {
    raw.take(first_index_of(raw, '.'))
}

impl JobHandleModel {
    /// What holds of every handle: the identifier holds a `.`, and the job
    /// number is what stands before the first one.
    pub open spec fn well_formed(self) -> bool {
        has_separator(self.raw_id) && self.job_number == job_number_of(self.raw_id)
    }
}

/// The handle that an identifier is read as; an identifier without a `.` is
/// malformed.
pub open spec fn parsed_handle(raw: Seq<char>) -> Result<JobHandleModel, ErrorModel> {
    if has_separator(raw) {
        Ok(JobHandleModel { raw_id: raw, job_number: job_number_of(raw) })
    } else {
        Err(ErrorModel::MalformedJobId)
    }
}

/// What a finished submission amounts to: a failure that carries the
/// diagnostics if the scheduler printed any, else the handle read from its
/// trimmed standard output.
pub open spec fn submission_verdict(outcome: OutcomeModel) -> Result<JobHandleModel, ErrorModel> {
    match printed(outcome) {
        Ok(text) => if text.stderr.len() > 0 {
            Err(ErrorModel::SubmissionFailed(text.stderr))
        } else {
            parsed_handle(trimmed(text.stdout))
        },
        Err(error) => Err(error),
    }
}

/// Where a session is opened: `user@host`.
pub open spec fn session_destination(user: Seq<char>, host: Seq<char>) -> Seq<char> {
    user + "@"@ + host
}

/// The arguments of the submit command: for each parameter its flag behind a
/// `-` and then its value, each an argument of its own, and the descriptor
/// path last.
pub open spec fn submit_arguments(
    parameters: Seq<(Seq<char>, Seq<char>)>,
    descriptor: Seq<char>,
) -> Seq<Seq<char>> {
    Seq::new(
        2 * parameters.len() + 1,
        |i: int|
            if i == 2 * parameters.len() {
                descriptor
            } else if i % 2 == 0 {
                "-"@ + parameters[i / 2].0
            } else {
                parameters[i / 2].1
            },
    )
}

/// The effect that submits a job.
pub open spec fn submit_command(
    user: Seq<char>,
    host: Seq<char>,
    descriptor: Seq<char>,
    parameters: Seq<(Seq<char>, Seq<char>)>,
) -> EffectModel {
    EffectModel::RunRemote {
        destination: session_destination(user, host),
        program: "qsub"@,
        arguments: submit_arguments(parameters, descriptor),
    }
}

/// What `first_index_of` finds is a `needle` with none before it.
pub proof fn first_index_of_is_first(text: Seq<char>, needle: char)
    ensures
        0 <= first_index_of(text, needle) <= text.len(),
        first_index_of(text, needle) < text.len() ==> text[first_index_of(text, needle)] == needle,
        forall|j: int| 0 <= j < first_index_of(text, needle) ==> text[j] != needle,
        first_index_of(text, needle) < text.len() <==> text.contains(needle),
    decreases text.len(),
{
    if text.len() > 0 && text.first() != needle {
        let rest = text.drop_first();
        first_index_of_is_first(rest, needle);
        let k = first_index_of(rest, needle);
        assert forall|j: int| 0 <= j < k + 1 implies text[j] != needle by {
            if j > 0 {
                assert(rest[j - 1] == text[j]);
            }
        }
        if text.contains(needle) {
            let at = choose|i: int| 0 <= i < text.len() && text[i] == needle;
            assert(rest[at - 1] == needle);
        }
    }
}

/// An index that holds a `needle` with none before it is the one that
/// `first_index_of` finds; so is the length of `text` if there is none.
pub proof fn first_index_of_is_unique(text: Seq<char>, needle: char, k: int)
    requires
        0 <= k <= text.len(),
        k < text.len() ==> text[k] == needle,
        forall|j: int| 0 <= j < k ==> text[j] != needle,
    ensures
        first_index_of(text, needle) == k,
{
    first_index_of_is_first(text, needle);
}

/// An identifier that is a job number, a `.` and a suffix is read back as
/// that job number, whatever the suffix holds.
pub proof fn a_joined_identifier_splits_again(number: Seq<char>, suffix: Seq<char>)
    requires
        !number.contains('.'),
    ensures
        parsed_handle(number + seq!['.'] + suffix) == Ok::<JobHandleModel, ErrorModel>(
            JobHandleModel { raw_id: number + seq!['.'] + suffix, job_number: number },
        ),
{
    let raw = number + seq!['.'] + suffix;
    assert forall|j: int| 0 <= j < number.len() implies raw[j] != '.' by {}
    first_index_of_is_unique(raw, '.', number.len() as int);
    assert(raw.take(number.len() as int) =~= number);
}

/// A handle splits its identifier at the first `.`: the job number holds
/// none, and the identifier is the job number, a `.` and what follows.
pub proof fn a_handle_splits_at_the_first_dot(handle: JobHandleModel)
    requires
        handle.well_formed(),
    ensures
        !handle.job_number.contains('.'),
        handle.raw_id == handle.job_number + seq!['.'] + handle.raw_id.skip(
            handle.job_number.len() as int + 1,
        ),
{
    first_index_of_is_first(handle.raw_id, '.');
}

/// Where a session to `hostname` is opened for `username`.
pub fn destination_text(username: &str, hostname: &str) -> (out: String)
    ensures
        out@ == session_destination(username@, hostname@),
{
    let mut out = String::from_str(username);
    out.append("@");
    out.append(hostname);
    out
}

impl JobHandle {
    /// Reads the identifier that the scheduler printed.
    pub fn parse(raw: &str) -> (res: Result<JobHandle, PipelineError>)
        ensures
            result_model(res) == parsed_handle(raw@),
            res matches Ok(handle) ==> handle@.well_formed(),
    {
        let n: usize = raw.unicode_len();
        let mut i: usize = 0;
        while i < n && raw.get_char(i) != '.'
            invariant
                n == raw@.len(),
                i <= n,
                forall|j: int| 0 <= j < i ==> raw@[j] != '.',
            decreases n - i,
        {
            i += 1;
        }
        proof {
            first_index_of_is_unique(raw@, '.', i as int);
        }
        if i == n {
            return Err(PipelineError::MalformedJobId);
        }
        let job_number = String::from_str(raw.substring_char(0, i));
        Ok(JobHandle { raw_id: String::from_str(raw), job_number })
    }
}

/// Plans the submission of the job that `pbs_path` describes, with `args` as
/// its parameters, each a flag and a value.
pub fn metis_qsub(username: &str, hostname: &str, pbs_path: &str, args: Vec<(&str, &str)>) -> (effect:
    Effect)
    ensures
        effect@ == submit_command(username@, hostname@, pbs_path@, args.deep_view()),
{
    let ghost parameters = args.deep_view();
    let ghost wanted = submit_arguments(parameters, pbs_path@);
    let mut arguments: Vec<String> = Vec::new();
    let mut i: usize = 0;
    while i < args.len()
        invariant
            i <= args.len(),
            parameters == args.deep_view(),
            wanted == submit_arguments(parameters, pbs_path@),
            arguments@.len() == 2 * i,
            forall|j: int| 0 <= j < 2 * i ==> arguments@[j]@ == wanted[j],
        decreases args.len() - i,
    {
        let (flag, value) = args[i];
        let mut dashed = String::from_str("-");
        dashed.append(flag);
        arguments.push(dashed);
        arguments.push(String::from_str(value));
        i += 1;
    }
    arguments.push(String::from_str(pbs_path));
    let effect = Effect::RunRemote {
        destination: destination_text(username, hostname),
        program: String::from_str("qsub"),
        arguments,
    };
    proof {
        assert(effect@.arrow_RunRemote_arguments() =~= wanted);
    }
    effect
}

/// Judges a finished submission: any diagnostics at all make it a failure,
/// and an identifier without a `.` is malformed.
pub fn submission_result(outcome: Outcome) -> (res: Result<JobHandle, PipelineError>)
    ensures
        result_model(res) == submission_verdict(outcome@),
        res matches Ok(handle) ==> handle@.well_formed(),
{
    let text = captured_text(outcome)?;
    if !text.stderr.as_str().is_empty() {
        return Err(PipelineError::SubmissionFailed(text.stderr));
    }
    let raw = trim(text.stdout.as_str());
    JobHandle::parse(raw.as_str())
}

} // verus!
