//! Copying a file or a directory between this host and the remote one.

use crate::effect::{captured_text, printed, Effect, EffectModel, Outcome, OutcomeModel};
use crate::error::{result_model, ErrorModel, PipelineError};
use vstd::prelude::*;

verus! {

/// One end of a transfer: a path on this host, or a path on the remote host.
#[derive(Debug, Clone, Copy, PartialEq, Eq)]
pub enum SSHPath<'a> {
    Local(&'a str),
    Remote(&'a str),
}

/// The mathematical value of an [`SSHPath`].
pub enum PlaceModel {
    Local(Seq<char>),
    Remote(Seq<char>),
}

impl<'a> DeepView for SSHPath<'a> {
    type V = PlaceModel;

    open spec fn deep_view(&self) -> PlaceModel {
        match self {
            SSHPath::Local(path) => PlaceModel::Local(path@),
            SSHPath::Remote(path) => PlaceModel::Remote(path@),
        }
    }
}

impl<'a> View for SSHPath<'a> {
    type V = PlaceModel;

    open spec fn view(&self) -> PlaceModel {
        self.deep_view()
    }
}

/// How a path on the remote host is written on the copy command's line:
/// `user@host:path`.
pub open spec fn remote_endpoint(user: Seq<char>, host: Seq<char>, path: Seq<char>) -> Seq<char> {
    user + "@"@ + host + ":"@ + path
}

/// How one end of a transfer is written on the copy command's line: a local
/// path bare, a remote one as `user@host:path`.
pub open spec fn endpoint(user: Seq<char>, host: Seq<char>, place: PlaceModel) -> Seq<char> {
    match place {
        PlaceModel::Local(path) => path,
        PlaceModel::Remote(path) => remote_endpoint(user, host, path),
    }
}

/// A transfer needs the remote host on at least one side.
pub open spec fn valid_pairing(source: PlaceModel, destination: PlaceModel) -> bool {
    source is Remote || destination is Remote
}

/// The arguments of the copy command: `-r` for a directory, then the source
/// and the destination.
pub open spec fn copy_arguments(
    user: Seq<char>,
    host: Seq<char>,
    source: PlaceModel,
    destination: PlaceModel,
    directory: bool,
) -> Seq<Seq<char>> {
    let ends = seq![endpoint(user, host, source), endpoint(user, host, destination)];
    if directory {
        seq!["-r"@] + ends
    } else {
        ends
    }
}

/// The effect that performs a transfer.
pub open spec fn copy_command(
    user: Seq<char>,
    host: Seq<char>,
    source: PlaceModel,
    destination: PlaceModel,
    directory: bool,
) -> EffectModel {
    EffectModel::RunLocal {
        program: "scp"@,
        arguments: copy_arguments(user, host, source, destination, directory),
    }
}

/// The plan for a transfer: the copy command for a valid pairing, and a
/// refusal, with no effect at all, for two local paths.
pub open spec fn planned_copy(
    user: Seq<char>,
    host: Seq<char>,
    source: PlaceModel,
    destination: PlaceModel,
    directory: bool,
) -> Result<EffectModel, ErrorModel> {
    if valid_pairing(source, destination) {
        Ok(copy_command(user, host, source, destination, directory))
    } else {
        Err(ErrorModel::InvalidEndpointPairing)
    }
}

/// What a finished transfer amounts to: its standard output if it printed no
/// diagnostics, a failure that carries the diagnostics if it printed any.
pub open spec fn copy_verdict(outcome: OutcomeModel) -> Result<Seq<char>, ErrorModel> {
    match printed(outcome) {
        Ok(text) => if text.stderr.len() > 0 {
            Err(ErrorModel::TransferFailed(text.stderr))
        } else {
            Ok(text.stdout)
        },
        Err(error) => Err(error),
    }
}

/// A transfer is refused exactly if both of its ends are local, and what
/// is refused is never handed out as an effect.
pub proof fn only_local_pairings_are_refused(
    user: Seq<char>,
    host: Seq<char>,
    source: PlaceModel,
    destination: PlaceModel,
    directory: bool,
)
    ensures
        planned_copy(user, host, source, destination, directory) is Err <==> source is Local
            && destination is Local,
        planned_copy(user, host, source, destination, directory) matches Err(error) ==> error
            == ErrorModel::InvalidEndpointPairing,
{
}

/// Writes one end of a transfer as the copy command expects it.
fn endpoint_text<'a>(username: &str, hostname: &str, place: SSHPath<'a>) -> (out: String)
    ensures
        out@ == endpoint(username@, hostname@, place@),
{
    match place {
        SSHPath::Local(path) => String::from_str(path),
        SSHPath::Remote(path) => {
            let mut out = String::from_str(username);
            out.append("@");
            out.append(hostname);
            out.append(":");
            out.append(path);
            out
        },
    }
}

/// Plans the copy of `source` to `destination`, of a whole directory if
/// `directory` is set. A pairing of two local paths is refused, and no effect
/// is handed out for it.
pub fn copy_file<'a>(
    username: &str,
    hostname: &str,
    source: SSHPath<'a>,
    destination: SSHPath<'a>,
    directory: bool,
) -> (res: Result<Effect, PipelineError>)
    ensures
        result_model(res) == planned_copy(username@, hostname@, source@, destination@, directory),
{
    if let SSHPath::Local(_) = source {
        if let SSHPath::Local(_) = destination {
            return Err(PipelineError::InvalidEndpointPairing);
        }
    }
    let mut arguments: Vec<String> = Vec::new();
    if directory {
        arguments.push(String::from_str("-r"));
    }
    arguments.push(endpoint_text(username, hostname, source));
    arguments.push(endpoint_text(username, hostname, destination));
    let effect = Effect::RunLocal { program: String::from_str("scp"), arguments };
    proof {
        assert(effect@.arrow_RunLocal_arguments() =~= copy_arguments(
            username@,
            hostname@,
            source@,
            destination@,
            directory,
        ));
    }
    Ok(effect)
}

/// Judges a finished transfer: any diagnostics at all make it a failure,
/// whatever else the command reported.
pub fn copy_result(outcome: Outcome) -> (res: Result<String, PipelineError>)
    ensures
        result_model(res) == copy_verdict(outcome@),
{
    let text = captured_text(outcome)?;
    if !text.stderr.as_str().is_empty() {
        return Err(PipelineError::TransferFailed(text.stderr));
    }
    Ok(text.stdout)
}

} // verus!
