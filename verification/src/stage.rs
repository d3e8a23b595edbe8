//! Staging: moving an input file into the staging directory under the name
//! of its content digest.
//!
//! Two protocols live here. [`move_file`] moves one file to a given place.
//! [`stage`] reads the input once, names the artifact after its digest and
//! extension, and then follows the same steps from the removal of the source
//! on. Either way the source is deleted after it was read and before the
//! destination is looked at, so staging is not atomic: an input that is
//! staged should be one that can be lost.

use crate::digest::{digest_of, is_digest, is_lower_hex, sha256_digest_bytes};
use crate::effect::{Effect, EffectModel, Outcome, OutcomeModel};
use crate::error::{result_model, ErrorModel, PipelineError};
use crate::path::{
    extension, extension_is_one_word, extension_of_a_joined_name, extension_text, text_extension,
    DOT, SEPARATOR,
};
use crate::text::{bytes_of_joined_text, text_bytes};
use vstd::prelude::*;
use vstd::utf8::encode_utf8;

verus! {

/// Where the move of a file stands.
#[derive(Debug, Clone, PartialEq, Eq)]
pub enum MoveState {
    /// The source is being read.
    Reading { from: Vec<u8>, to: Vec<u8> },
    /// The source was read and is being deleted.
    Removing { to: Vec<u8>, contents: Vec<u8> },
    /// The source is gone; the destination is being looked at.
    Probing { to: Vec<u8>, contents: Vec<u8> },
    /// The destination was free and is being written.
    Writing,
    /// The move is over. `written` is unset if the destination existed
    /// already and was left as it was.
    Moved { written: bool },
    /// A local file operation failed.
    Failed,
}

/// The mathematical value of a [`MoveState`].
pub enum MoveModel {
    Reading { from: Seq<u8>, to: Seq<u8> },
    Removing { to: Seq<u8>, contents: Seq<u8> },
    Probing { to: Seq<u8>, contents: Seq<u8> },
    Writing,
    Moved { written: bool },
    Failed,
}

impl DeepView for MoveState {
    type V = MoveModel;

    open spec fn deep_view(&self) -> MoveModel {
        match self {
            MoveState::Reading { from, to } => MoveModel::Reading { from: from@, to: to@ },
            MoveState::Removing { to, contents } => MoveModel::Removing {
                to: to@,
                contents: contents@,
            },
            MoveState::Probing { to, contents } => MoveModel::Probing {
                to: to@,
                contents: contents@,
            },
            MoveState::Writing => MoveModel::Writing,
            MoveState::Moved { written } => MoveModel::Moved { written: *written },
            MoveState::Failed => MoveModel::Failed,
        }
    }
}

impl View for MoveState {
    type V = MoveModel;

    open spec fn view(&self) -> MoveModel {
        self.deep_view()
    }
}

/// How a move begins: with the reading of the source.
pub open spec fn move_start(from: Seq<u8>, to: Seq<u8>) -> (MoveModel, EffectModel) {
    (MoveModel::Reading { from, to }, EffectModel::ReadFile { path: from })
}

/// One step of a move: the state that `outcome` leads to, and the effect to
/// perform next, if any.
///
/// The source is deleted once it was read. Only then is the destination
/// looked at: if something is there, it is trusted to be the same content and
/// nothing is written; if nothing is there, or that cannot be told, the
/// contents are written. Anything but the success of the effect that was
/// asked for ends the move as failed.
pub open spec fn move_step(state: MoveModel, outcome: OutcomeModel) -> (
    MoveModel,
    Option<EffectModel>,
) {
    match (state, outcome) {
        (MoveModel::Reading { from, to }, OutcomeModel::FileRead(Some(contents))) => (
            MoveModel::Removing { to, contents },
            Some(EffectModel::RemoveFile { path: from }),
        ),
        (MoveModel::Removing { to, contents }, OutcomeModel::FileRemoved(true)) => (
            MoveModel::Probing { to, contents },
            Some(EffectModel::ProbeFile { path: to }),
        ),
        (MoveModel::Probing { to, contents }, OutcomeModel::FileProbed(found)) => {
            if found == Some(true) {
                (MoveModel::Moved { written: false }, None)
            } else {
                (MoveModel::Writing, Some(EffectModel::WriteFile { path: to, contents }))
            }
        },
        (MoveModel::Writing, OutcomeModel::FileWritten(true)) => (
            MoveModel::Moved { written: true },
            None,
        ),
        (MoveModel::Moved { written }, _) => (state, None),
        _ => (MoveModel::Failed, None),
    }
}

/// A copy of `bytes`.
fn copy_of(bytes: &Vec<u8>) -> (out: Vec<u8>)
    ensures
        out@ == bytes@,
{
    let out = bytes.clone();
    assert(out@ =~= bytes@);
    out
}

/// Begins the move of the file at `from_path_str` to `to_path_str`.
pub fn move_file(from_path_str: &str, to_path_str: &str) -> (begun: (MoveState, Effect))
    ensures
        (begun.0@, begun.1@) == move_start(encode_utf8(from_path_str@), encode_utf8(to_path_str@)),
{
    let from = text_bytes(from_path_str);
    let to = text_bytes(to_path_str);
    let path = copy_of(&from);
    (MoveState::Reading { from, to }, Effect::ReadFile { path })
}

impl MoveState {
    /// Takes the driver's report on the last effect and decides what follows.
    pub fn step(self, outcome: Outcome) -> (next: (MoveState, Option<Effect>))
        ensures
            (next.0@, next.1.deep_view()) == move_step(self@, outcome@),
    {
        match (self, outcome) {
            (MoveState::Reading { from, to }, Outcome::FileRead(Some(contents))) => (
                MoveState::Removing { to, contents },
                Some(Effect::RemoveFile { path: from }),
            ),
            (MoveState::Removing { to, contents }, Outcome::FileRemoved(true)) => {
                let path = copy_of(&to);
                (MoveState::Probing { to, contents }, Some(Effect::ProbeFile { path }))
            },
            (MoveState::Probing { to, contents }, Outcome::FileProbed(found)) => {
                match found {
                    Some(true) => (MoveState::Moved { written: false }, None),
                    _ => (MoveState::Writing, Some(Effect::WriteFile { path: to, contents })),
                }
            },
            (MoveState::Writing, Outcome::FileWritten(true)) => (
                MoveState::Moved { written: true },
                None,
            ),
            (MoveState::Moved { written }, _) => (MoveState::Moved { written }, None),
            _ => (MoveState::Failed, None),
        }
    }
}

/// An input file in the staging directory, named after its content.
#[derive(Debug, Clone, PartialEq, Eq)]
pub struct StagedArtifact {
    /// The content digest of the file.
    pub digest: String,
    /// The extension that the input file had.
    pub extension: String,
    /// Where the file lies: `<staging directory>/<digest>.<extension>`.
    pub local_path: String,
}

/// The mathematical value of a [`StagedArtifact`].
pub struct ArtifactModel {
    pub digest: Seq<char>,
    pub extension: Seq<char>,
    pub local_path: Seq<char>,
}

impl DeepView for StagedArtifact {
    type V = ArtifactModel;

    open spec fn deep_view(&self) -> ArtifactModel {
        ArtifactModel {
            digest: self.digest@,
            extension: self.extension@,
            local_path: self.local_path@,
        }
    }
}

impl View for StagedArtifact {
    type V = ArtifactModel;

    open spec fn view(&self) -> ArtifactModel {
        self.deep_view()
    }
}

/// The name of a staged file: `<digest>.<extension>`.
pub open spec fn staged_name(digest: Seq<char>, extension: Seq<char>) -> Seq<char> {
    digest + "."@ + extension
}

/// The path of a staged file: `<directory>/<digest>.<extension>`.
pub open spec fn staged_path(directory: Seq<char>, digest: Seq<char>, extension: Seq<char>) -> Seq<
    char,
> {
    directory + "/"@ + staged_name(digest, extension)
}

impl ArtifactModel {
    /// Whether the artifact lies in `directory` under the name of its digest
    /// and extension.
    pub open spec fn staged_in(self, directory: Seq<char>) -> bool {
        self.local_path == staged_path(directory, self.digest, self.extension)
    }

    /// What holds of every artifact: its digest has the shape of one, and its
    /// path ends in its name.
    pub open spec fn well_formed(self) -> bool {
        is_digest(self.digest) && exists|directory: Seq<char>| self.staged_in(directory)
    }
}

/// The artifact that an input file becomes: named after the digest of its
/// contents and the extension of its path. There is none for a path without
/// an extension, or with one that is not text.
pub open spec fn artifact_for(directory: Seq<char>, source: Seq<u8>, contents: Seq<u8>) -> Result<
    ArtifactModel,
    ErrorModel,
> {
    match text_extension(source) {
        Ok(extension) => Ok(
            ArtifactModel {
                digest: digest_of(contents),
                extension,
                local_path: staged_path(directory, digest_of(contents), extension),
            },
        ),
        Err(error) => Err(error),
    }
}

/// Where the staging of an input file stands.
#[derive(Debug, Clone, PartialEq, Eq)]
pub enum StagerState {
    /// The input is being read.
    Reading { source: Vec<u8>, staging_dir: String },
    /// The artifact has its name and is being moved into place.
    Moving { artifact: StagedArtifact, transfer: MoveState },
    /// The artifact is in place. `written` is unset if a file of that name
    /// was there already.
    Staged { artifact: StagedArtifact, written: bool },
    /// Staging failed.
    Failed { error: PipelineError },
}

/// The mathematical value of a [`StagerState`].
pub enum StagerModel {
    Reading { source: Seq<u8>, staging_dir: Seq<char> },
    Moving { artifact: ArtifactModel, transfer: MoveModel },
    Staged { artifact: ArtifactModel, written: bool },
    Failed { error: ErrorModel },
}

impl DeepView for StagerState {
    type V = StagerModel;

    open spec fn deep_view(&self) -> StagerModel {
        match self {
            StagerState::Reading { source, staging_dir } => StagerModel::Reading {
                source: source@,
                staging_dir: staging_dir@,
            },
            StagerState::Moving { artifact, transfer } => StagerModel::Moving {
                artifact: artifact@,
                transfer: transfer@,
            },
            StagerState::Staged { artifact, written } => StagerModel::Staged {
                artifact: artifact@,
                written: *written,
            },
            StagerState::Failed { error } => StagerModel::Failed { error: error@ },
        }
    }
}

impl View for StagerState {
    type V = StagerModel;

    open spec fn view(&self) -> StagerModel {
        self.deep_view()
    }
}

impl StagerModel {
    /// The artifact, once it has its name.
    pub open spec fn artifact(self) -> Option<ArtifactModel> {
        match self {
            StagerModel::Moving { artifact, transfer } => Some(artifact),
            StagerModel::Staged { artifact, written } => Some(artifact),
            _ => None,
        }
    }

    /// Whether the move, while the artifact is moved into place, is under
    /// way and aims at the artifact's path.
    pub open spec fn coherent(self) -> bool {
        self matches StagerModel::Moving { artifact, transfer } ==> match transfer {
            MoveModel::Removing { to, contents } => to == encode_utf8(artifact.local_path),
            MoveModel::Probing { to, contents } => to == encode_utf8(artifact.local_path),
            MoveModel::Writing => true,
            _ => false,
        }
    }

    /// What holds of every state that staging reaches: it is coherent, and
    /// the artifact, once it has its name, is well formed.
    pub open spec fn well_formed(self) -> bool {
        &&& self.coherent()
        &&& self.artifact() matches Some(artifact) ==> artifact.well_formed()
    }

    /// Whether staging is over.
    pub open spec fn is_over(self) -> bool {
        self is Staged || self is Failed
    }
}

/// How staging begins: with the reading of the input.
pub open spec fn stage_start(source: Seq<u8>, staging_dir: Seq<char>) -> (
    StagerModel,
    EffectModel,
) {
    (StagerModel::Reading { source, staging_dir }, EffectModel::ReadFile { path: source })
}

/// One step of staging.
///
/// Once the input was read, the artifact is named, which fails for a path
/// without a usable extension and leaves the input in place. From there the
/// steps are those of a move that has read its source: delete the input,
/// look at the destination, write unless something is there. A failed file
/// operation ends staging as an I/O failure.
pub open spec fn stager_step(state: StagerModel, outcome: OutcomeModel) -> (
    StagerModel,
    Option<EffectModel>,
) {
    match state {
        StagerModel::Reading { source, staging_dir } => match outcome {
            OutcomeModel::FileRead(Some(contents)) => match artifact_for(
                staging_dir,
                source,
                contents,
            ) {
                Ok(artifact) => (
                    StagerModel::Moving {
                        artifact,
                        transfer: MoveModel::Removing {
                            to: encode_utf8(artifact.local_path),
                            contents,
                        },
                    },
                    Some(EffectModel::RemoveFile { path: source }),
                ),
                Err(error) => (StagerModel::Failed { error }, None),
            },
            _ => (StagerModel::Failed { error: ErrorModel::IoFailure }, None),
        },
        StagerModel::Moving { artifact, transfer } => {
            let (moved, effect) = move_step(transfer, outcome);
            match moved {
                MoveModel::Moved { written } => (StagerModel::Staged { artifact, written }, None),
                MoveModel::Failed => (StagerModel::Failed { error: ErrorModel::IoFailure }, None),
                _ => (StagerModel::Moving { artifact, transfer: moved }, effect),
            }
        },
        _ => (state, None),
    }
}

/// Names the artifact that an input file becomes.
pub fn name_artifact(staging_dir: &str, source: &Vec<u8>, contents: &Vec<u8>) -> (res: Result<
    StagedArtifact,
    PipelineError,
>)
    ensures
        result_model(res) == artifact_for(staging_dir@, source@, contents@),
        res matches Ok(artifact) ==> artifact@.well_formed() && extension(
            encode_utf8(artifact@.local_path),
        ) == extension(source@),
{
    let digest = sha256_digest_bytes(contents);
    let extension = extension_text(source)?;
    let mut local_path = String::from_str(staging_dir);
    local_path.append("/");
    local_path.append(digest.as_str());
    local_path.append(".");
    local_path.append(extension.as_str());
    let artifact = StagedArtifact { digest, extension, local_path };
    proof {
        assert(artifact@.local_path =~= staged_path(
            staging_dir@,
            artifact@.digest,
            artifact@.extension,
        ));
        assert(artifact@.staged_in(staging_dir@));
        a_staged_file_keeps_its_extension(staging_dir@, source@, contents@);
    }
    Ok(artifact)
}

/// Begins the staging of the file at `source_path` into `staging_dir`.
pub fn stage(source_path: Vec<u8>, staging_dir: &str) -> (begun: (StagerState, Effect))
    ensures
        (begun.0@, begun.1@) == stage_start(source_path@, staging_dir@),
        begun.0@.well_formed(),
{
    let path = copy_of(&source_path);
    (
        StagerState::Reading { source: source_path, staging_dir: String::from_str(staging_dir) },
        Effect::ReadFile { path },
    )
}

impl StagerState {
    /// Takes the driver's report on the last effect and decides what follows.
    pub fn step(self, outcome: Outcome) -> (next: (StagerState, Option<Effect>))
        ensures
            (next.0@, next.1.deep_view()) == stager_step(self@, outcome@),
            self@.well_formed() ==> next.0@.well_formed(),
    {
        match self {
            StagerState::Reading { source, staging_dir } => match outcome {
                Outcome::FileRead(Some(contents)) => {
                    match name_artifact(staging_dir.as_str(), &source, &contents) {
                        Ok(artifact) => {
                            let to = text_bytes(artifact.local_path.as_str());
                            (
                                StagerState::Moving {
                                    artifact,
                                    transfer: MoveState::Removing { to, contents },
                                },
                                Some(Effect::RemoveFile { path: source }),
                            )
                        },
                        Err(error) => (StagerState::Failed { error }, None),
                    }
                },
                _ => (StagerState::Failed { error: PipelineError::IoFailure }, None),
            },
            StagerState::Moving { artifact, transfer } => {
                let (moved, effect) = transfer.step(outcome);
                match moved {
                    MoveState::Moved { written } => (StagerState::Staged { artifact, written }, None),
                    MoveState::Failed => (
                        StagerState::Failed { error: PipelineError::IoFailure },
                        None,
                    ),
                    _ => (StagerState::Moving { artifact, transfer: moved }, effect),
                }
            },
            StagerState::Staged { artifact, written } => (
                StagerState::Staged { artifact, written },
                None,
            ),
            StagerState::Failed { error } => (StagerState::Failed { error }, None),
        }
    }
}

/// A staged file keeps the extension of its input: the path of the
/// artifact, read as a path, has the extension that the input had, so the
/// artifact can be found by it, and could be staged again under the same name.
pub proof fn a_staged_file_keeps_its_extension(
    staging_dir: Seq<char>,
    source: Seq<u8>,
    contents: Seq<u8>,
)
    requires
        artifact_for(staging_dir, source, contents) is Ok,
        is_digest(digest_of(contents)),
    ensures
        ({
            let artifact = artifact_for(staging_dir, source, contents)->Ok_0;
            &&& extension(encode_utf8(artifact.local_path)) == extension(source)
            &&& text_extension(encode_utf8(artifact.local_path)) == Ok::<Seq<char>, ErrorModel>(
                artifact.extension,
            )
        }),
{
    let artifact = artifact_for(staging_dir, source, contents)->Ok_0;
    let suffix = extension(source)->0;
    let digest = artifact.digest;
    vstd::utf8::decode_utf8_encode_utf8(suffix);
    assert(encode_utf8(artifact.extension) == suffix);
    extension_is_one_word(source);

    reveal_strlit("/");
    reveal_strlit(".");
    assert("/"@ =~= seq!['/']);
    assert("."@ =~= seq!['.']);
    vstd::utf8::is_ascii_chars_encode_utf8("/"@);
    vstd::utf8::is_ascii_chars_encode_utf8("."@);
    assert(encode_utf8("/"@) =~= seq![SEPARATOR]);
    assert(encode_utf8("."@) =~= seq![DOT]);

    assert(vstd::utf8::is_ascii_chars(digest));
    vstd::utf8::is_ascii_chars_encode_utf8(digest);
    let stem = encode_utf8(digest);
    assert forall|j: int| 0 <= j < stem.len() implies stem[j] != SEPARATOR by {
        assert(is_lower_hex(digest[j]));
    }
    assert(!stem.contains(SEPARATOR));

    let directory = encode_utf8(staging_dir);
    bytes_of_joined_text(digest, "."@);
    bytes_of_joined_text(digest + "."@, artifact.extension);
    bytes_of_joined_text(staging_dir, "/"@);
    bytes_of_joined_text(staging_dir + "/"@, staged_name(digest, artifact.extension));
    assert(encode_utf8(artifact.local_path) =~= directory + seq![SEPARATOR] + stem + seq![DOT]
        + suffix);
    extension_of_a_joined_name(directory, stem, suffix);
}

/// The files of a disk: the contents at each path that holds a file.
pub type Files = Map<Seq<u8>, Seq<u8>>;

/// What a disk that does what it is asked makes of a file effect: the files
/// afterwards, and the outcome it reports. Reading and deleting fail on a
/// path that holds no file; writing replaces what is there.
pub open spec fn performed(files: Files, effect: EffectModel) -> (Files, OutcomeModel) {
    match effect {
        EffectModel::ReadFile { path } => (
            files,
            OutcomeModel::FileRead(
                if files.contains_key(path) {
                    Some(files[path])
                } else {
                    None
                },
            ),
        ),
        EffectModel::RemoveFile { path } => (
            files.remove(path),
            OutcomeModel::FileRemoved(files.contains_key(path)),
        ),
        EffectModel::ProbeFile { path } => (
            files,
            OutcomeModel::FileProbed(Some(files.contains_key(path))),
        ),
        EffectModel::WriteFile { path, contents } => (
            files.insert(path, contents),
            OutcomeModel::FileWritten(true),
        ),
        _ => (files, OutcomeModel::Cancelled),
    }
}

/// Staging carried on against such a disk for up to `steps` effects: the
/// files and the state it ends with.
pub open spec fn staged_on(
    files: Files,
    state: StagerModel,
    pending: Option<EffectModel>,
    steps: nat,
) -> (Files, StagerModel)
    decreases steps,
{
    match pending {
        Some(effect) if steps > 0 => {
            let (files_after, outcome) = performed(files, effect);
            let (next, following) = stager_step(state, outcome);
            staged_on(files_after, next, following, (steps - 1) as nat)
        },
        _ => (files, state),
    }
}

/// The staging of `source` into `staging_dir` against such a disk, from
/// beginning to end: no staging takes more than four effects.
pub open spec fn staging(files: Files, source: Seq<u8>, staging_dir: Seq<char>) -> (
    Files,
    StagerModel,
) {
    let (state, effect) = stage_start(source, staging_dir);
    staged_on(files, state, Some(effect), 4)
}

/// Staging never stalls and never runs on: from a state that staging
/// reaches, a step hands out an effect exactly if it leaves staging
/// unfinished.
pub proof fn staging_goes_on_until_it_is_over(state: StagerModel, outcome: OutcomeModel)
    requires
        state.coherent(),
        !state.is_over(),
    ensures
        stager_step(state, outcome).0.coherent(),
        stager_step(state, outcome).1 is None <==> stager_step(state, outcome).0.is_over(),
{
}

/// The effects that staging hands out, one after another, when the driver
/// answers them with `outcomes`, whatever those are.
pub open spec fn effects_of_staging(
    state: StagerModel,
    pending: Option<EffectModel>,
    outcomes: Seq<OutcomeModel>,
) -> Seq<EffectModel>
    decreases outcomes.len(),
{
    match pending {
        Some(effect) => if outcomes.len() == 0 {
            seq![effect]
        } else {
            let (next, following) = stager_step(state, outcomes.first());
            seq![effect] + effects_of_staging(next, following, outcomes.drop_first())
        },
        None => Seq::empty(),
    }
}

/// Staging keeps its order, whatever the driver reports: the input is read
/// first, deleted second, the destination is looked at third, and written
/// last. No effect comes twice and none comes after the fourth, so the input
/// is never deleted before it was read, and the destination is never looked
/// at while the input is still there.
pub proof fn staging_keeps_its_order(
    source: Seq<u8>,
    staging_dir: Seq<char>,
    outcomes: Seq<OutcomeModel>,
)
    ensures
        ({
            let (state, effect) = stage_start(source, staging_dir);
            let effects = effects_of_staging(state, Some(effect), outcomes);
            &&& 1 <= effects.len() <= 4
            &&& effects[0] == EffectModel::ReadFile { path: source }
            &&& effects.len() > 1 ==> effects[1] == EffectModel::RemoveFile { path: source }
            &&& effects.len() > 2 ==> effects[2] is ProbeFile
            &&& effects.len() > 3 ==> effects[3] is WriteFile && effects[3]->WriteFile_path
                == effects[2]->ProbeFile_path
        }),
{
    reveal_with_fuel(effects_of_staging, 6);
    let (state, effect) = stage_start(source, staging_dir);
    let effects = effects_of_staging(state, Some(effect), outcomes);
    if outcomes.len() > 0 {
        let (s1, e1) = stager_step(state, outcomes[0]);
        let o1 = outcomes.drop_first();
        assert(effects == seq![effect] + effects_of_staging(s1, e1, o1));
        if e1 is Some && o1.len() > 0 {
            let (s2, e2) = stager_step(s1, o1[0]);
            let o2 = o1.drop_first();
            if e2 is Some && o2.len() > 0 {
                let (s3, e3) = stager_step(s2, o2[0]);
                let o3 = o2.drop_first();
                if e3 is Some && o3.len() > 0 {
                    let (s4, e4) = stager_step(s3, o3[0]);
                    assert(e4 is None);
                }
            }
        }
    }
}

/// Staging consumes its input: when it has succeeded, the input file is
/// gone, whether the artifact was written or a file of its name was there
/// already. Nothing else on the disk has changed, and a file that was there
/// under the artifact's name is still what it was.
///
/// The one input of which this cannot hold is a file that already lies at
/// the very path it is staged to: it is deleted and written back.
pub proof fn staging_consumes_the_input(
    files: Files,
    source: Seq<u8>,
    staging_dir: Seq<char>,
)
    requires
        files.contains_key(source),
        artifact_for(staging_dir, source, files[source]) is Ok,
        source != encode_utf8(artifact_for(staging_dir, source, files[source])->Ok_0.local_path),
    ensures
        ({
            let artifact = artifact_for(staging_dir, source, files[source])->Ok_0;
            let place = encode_utf8(artifact.local_path);
            let (after, end) = staging(files, source, staging_dir);
            &&& end == StagerModel::Staged { artifact, written: !files.contains_key(place) }
            &&& !after.contains_key(source)
            &&& after.contains_key(place)
            &&& after[place] == if files.contains_key(place) {
                files[place]
            } else {
                files[source]
            }
            &&& after == files.remove(source).insert(place, after[place])
        }),
{
    reveal_with_fuel(staged_on, 5);
    let artifact = artifact_for(staging_dir, source, files[source])->Ok_0;
    let place = encode_utf8(artifact.local_path);
    let (after, end) = staging(files, source, staging_dir);
    if files.contains_key(place) {
        assert(after =~= files.remove(source));
        assert(after =~= files.remove(source).insert(place, files[place]));
    } else {
        assert(after =~= files.remove(source).insert(place, files[source]));
    }
}

/// An input whose path has no usable extension is not staged, and stays
/// where it is.
pub proof fn unnamed_input_is_left_alone(files: Files, source: Seq<u8>, staging_dir: Seq<char>)
    requires
        files.contains_key(source),
        text_extension(source) is Err,
    ensures
        staging(files, source, staging_dir) == (
            files,
            StagerModel::Failed { error: text_extension(source)->Err_0 },
        ),
{
    reveal_with_fuel(staged_on, 5);
}

/// Staging the same content twice leaves one artifact: a second input with
/// the contents and the extension of the first is consumed without error,
/// nothing is written for it, and the artifact of the first staging is
/// still what it was.
pub proof fn restaging_leaves_one_artifact(
    files: Files,
    first: Seq<u8>,
    second: Seq<u8>,
    staging_dir: Seq<char>,
)
    requires
        files.contains_key(first),
        files.contains_key(second),
        first != second,
        files[first] == files[second],
        text_extension(first) is Ok,
        text_extension(first) == text_extension(second),
        first != encode_utf8(artifact_for(staging_dir, first, files[first])->Ok_0.local_path),
        second != encode_utf8(artifact_for(staging_dir, first, files[first])->Ok_0.local_path),
    ensures
        ({
            let artifact = artifact_for(staging_dir, first, files[first])->Ok_0;
            let place = encode_utf8(artifact.local_path);
            let (between, once) = staging(files, first, staging_dir);
            let (after, twice) = staging(between, second, staging_dir);
            &&& once is Staged
            &&& twice == StagerModel::Staged { artifact, written: false }
            &&& after == between.remove(second)
            &&& after.contains_key(place) && after[place] == between[place]
        }),
{
    staging_consumes_the_input(files, first, staging_dir);
    let (between, once) = staging(files, first, staging_dir);
    assert(between.contains_key(second));
    assert(between[second] == files[second]);
    staging_consumes_the_input(between, second, staging_dir);
    let artifact = artifact_for(staging_dir, first, files[first])->Ok_0;
    let place = encode_utf8(artifact.local_path);
    let (after, twice) = staging(between, second, staging_dir);
    assert(after =~= between.remove(second));
}

} // verus!
