use backend::digest::sha256_digest_bytes;
use backend::effect::{Effect, Outcome};
use backend::error::PipelineError;
use backend::path::extension_of;
use backend::stage::{move_file, name_artifact, stage, MoveState, StagedArtifact, StagerState};
use std::collections::BTreeMap;

type Disk = BTreeMap<Vec<u8>, Vec<u8>>;

fn disk(files: &[(&str, &[u8])]) -> Disk {
    files.iter().map(|(path, contents)| (path.as_bytes().to_vec(), contents.to_vec())).collect()
}

fn perform(files: &mut Disk, effect: &Effect) -> Outcome {
    match effect {
        Effect::ReadFile { path } => Outcome::FileRead(files.get(path).cloned()),
        Effect::RemoveFile { path } => Outcome::FileRemoved(files.remove(path).is_some()),
        Effect::ProbeFile { path } => Outcome::FileProbed(Some(files.contains_key(path))),
        Effect::WriteFile { path, contents } => {
            files.insert(path.clone(), contents.clone());
            Outcome::FileWritten(true)
        }
        other => panic!("no file effect: {:?}", other),
    }
}

fn run_stage(files: &mut Disk, source: &str, staging_dir: &str) -> (StagerState, Vec<Effect>) {
    let (mut state, first) = stage(source.as_bytes().to_vec(), staging_dir);
    let mut pending = Some(first);
    let mut effects = Vec::new();
    while let Some(effect) = pending {
        let outcome = perform(files, &effect);
        effects.push(effect);
        let (next, following) = state.step(outcome);
        state = next;
        pending = following;
    }
    (state, effects)
}

fn run_move(files: &mut Disk, from: &str, to: &str) -> (MoveState, Vec<Effect>) {
    let (mut state, first) = move_file(from, to);
    let mut pending = Some(first);
    let mut effects = Vec::new();
    while let Some(effect) = pending {
        let outcome = perform(files, &effect);
        effects.push(effect);
        let (next, following) = state.step(outcome);
        state = next;
        pending = following;
    }
    (state, effects)
}

fn artifact(staging_dir: &str, contents: &[u8], extension: &str) -> StagedArtifact {
    let digest = sha256_digest_bytes(&contents.to_vec());
    StagedArtifact {
        local_path: format!("{}/{}.{}", staging_dir, digest, extension),
        digest,
        extension: extension.to_string(),
    }
}

#[test]
fn move_reads_removes_probes_and_writes() {
    let mut files = disk(&[("in/a.txt", b"contents")]);
    let (state, effects) = run_move(&mut files, "in/a.txt", "out/b.txt");
    assert_eq!(state, MoveState::Moved { written: true });
    assert_eq!(
        effects,
        vec![
            Effect::ReadFile { path: b"in/a.txt".to_vec() },
            Effect::RemoveFile { path: b"in/a.txt".to_vec() },
            Effect::ProbeFile { path: b"out/b.txt".to_vec() },
            Effect::WriteFile { path: b"out/b.txt".to_vec(), contents: b"contents".to_vec() },
        ]
    );
    assert_eq!(files, disk(&[("out/b.txt", b"contents")]));
}

#[test]
fn move_skips_the_write_if_the_destination_exists() {
    let mut files = disk(&[("in/a.txt", b"new"), ("out/b.txt", b"old")]);
    let (state, effects) = run_move(&mut files, "in/a.txt", "out/b.txt");
    assert_eq!(state, MoveState::Moved { written: false });
    assert_eq!(effects.len(), 3);
    assert_eq!(files, disk(&[("out/b.txt", b"old")]));
}

#[test]
fn move_fails_if_the_source_cannot_be_read() {
    let mut files = disk(&[]);
    let (state, effects) = run_move(&mut files, "in/a.txt", "out/b.txt");
    assert_eq!(state, MoveState::Failed);
    assert_eq!(effects, vec![Effect::ReadFile { path: b"in/a.txt".to_vec() }]);
}

#[test]
fn move_fails_if_the_source_cannot_be_removed() {
    let (state, _) = move_file("a", "b");
    let (state, effect) = state.step(Outcome::FileRead(Some(b"x".to_vec())));
    assert_eq!(effect, Some(Effect::RemoveFile { path: b"a".to_vec() }));
    let (state, effect) = state.step(Outcome::FileRemoved(false));
    assert_eq!(state, MoveState::Failed);
    assert_eq!(effect, None);
}

#[test]
fn move_writes_if_the_probe_cannot_tell() {
    let (state, _) = move_file("a", "b");
    let (state, _) = state.step(Outcome::FileRead(Some(b"x".to_vec())));
    let (state, _) = state.step(Outcome::FileRemoved(true));
    let (state, effect) = state.step(Outcome::FileProbed(None));
    assert_eq!(state, MoveState::Writing);
    assert_eq!(effect, Some(Effect::WriteFile { path: b"b".to_vec(), contents: b"x".to_vec() }));
}

#[test]
fn move_fails_if_the_destination_cannot_be_written() {
    let (state, _) = move_file("a", "b");
    let (state, _) = state.step(Outcome::FileRead(Some(b"x".to_vec())));
    let (state, _) = state.step(Outcome::FileRemoved(true));
    let (state, _) = state.step(Outcome::FileProbed(Some(false)));
    let (state, effect) = state.step(Outcome::FileWritten(false));
    assert_eq!(state, MoveState::Failed);
    assert_eq!(effect, None);
}

#[test]
fn move_fails_on_a_report_that_answers_another_effect() {
    let (state, _) = move_file("a", "b");
    let (state, effect) = state.step(Outcome::FileWritten(true));
    assert_eq!(state, MoveState::Failed);
    assert_eq!(effect, None);
}

#[test]
fn move_that_is_over_stays_over() {
    let (state, effect) = MoveState::Moved { written: true }.step(Outcome::FileRead(None));
    assert_eq!((state, effect), (MoveState::Moved { written: true }, None));
    let (state, effect) = MoveState::Failed.step(Outcome::FileWritten(true));
    assert_eq!((state, effect), (MoveState::Failed, None));
}

#[test]
fn artifact_is_named_after_digest_and_extension() {
    let contents = b"photo bytes".to_vec();
    let named = name_artifact("./staging", &b"uploads/photo.jpg".to_vec(), &contents);
    assert_eq!(named, Ok(artifact("./staging", &contents, "jpg")));
    let digest = sha256_digest_bytes(&contents);
    assert_eq!(named.unwrap().local_path, format!("./staging/{}.jpg", digest));
}

#[test]
fn artifact_needs_an_extension() {
    assert_eq!(
        name_artifact("./staging", &b"uploads/photo".to_vec(), &b"x".to_vec()),
        Err(PipelineError::MissingExtension)
    );
    assert_eq!(
        name_artifact("./staging", &vec![b'p', b'.', 0xff], &b"x".to_vec()),
        Err(PipelineError::InvalidEncoding)
    );
}

#[test]
fn staging_moves_the_input_under_its_digest() {
    let contents = b"photo bytes";
    let mut files = disk(&[("photo.jpg", contents)]);
    let (state, effects) = run_stage(&mut files, "photo.jpg", "staging");
    let expected = artifact("staging", contents, "jpg");
    assert_eq!(state, StagerState::Staged { artifact: expected.clone(), written: true });
    assert_eq!(
        effects,
        vec![
            Effect::ReadFile { path: b"photo.jpg".to_vec() },
            Effect::RemoveFile { path: b"photo.jpg".to_vec() },
            Effect::ProbeFile { path: expected.local_path.as_bytes().to_vec() },
            Effect::WriteFile {
                path: expected.local_path.as_bytes().to_vec(),
                contents: contents.to_vec(),
            },
        ]
    );
    assert_eq!(files, disk(&[(expected.local_path.as_str(), contents)]));
}

#[test]
fn staging_the_same_content_twice_leaves_one_artifact() {
    let contents = b"the same bytes";
    let mut files = disk(&[
        ("first/photo.jpg", contents),
        ("second/copy.jpg", contents),
        ("staging/unrelated.bin", b"already there"),
    ]);
    let (once, _) = run_stage(&mut files, "first/photo.jpg", "staging");
    let expected = artifact("staging", contents, "jpg");
    assert_eq!(once, StagerState::Staged { artifact: expected.clone(), written: true });
    let between = files.clone();
    let (twice, effects) = run_stage(&mut files, "second/copy.jpg", "staging");
    assert_eq!(twice, StagerState::Staged { artifact: expected.clone(), written: false });
    assert!(effects.iter().all(|effect| !matches!(effect, Effect::WriteFile { .. })));
    let staged: Vec<&Vec<u8>> = files.keys().filter(|path| path.starts_with(b"staging/")).collect();
    assert_eq!(staged.len(), 2);
    assert_eq!(
        files,
        disk(&[(expected.local_path.as_str(), contents), ("staging/unrelated.bin", b"already there")])
    );
    assert_eq!(files.get(expected.local_path.as_bytes()), between.get(expected.local_path.as_bytes()));
}

#[test]
fn staging_deletes_the_source_whether_it_writes_or_not() {
    let contents = b"bytes";
    let place = artifact("staging", contents, "txt").local_path;

    let mut fresh = disk(&[("in.txt", contents)]);
    let (state, _) = run_stage(&mut fresh, "in.txt", "staging");
    assert!(matches!(state, StagerState::Staged { written: true, .. }));
    assert!(!fresh.contains_key(&b"in.txt".to_vec()));

    let mut taken = disk(&[("in.txt", contents), (place.as_str(), b"whatever was there")]);
    let (state, _) = run_stage(&mut taken, "in.txt", "staging");
    assert!(matches!(state, StagerState::Staged { written: false, .. }));
    assert!(!taken.contains_key(&b"in.txt".to_vec()));
    assert_eq!(taken, disk(&[(place.as_str(), b"whatever was there")]));
}

#[test]
fn staging_leaves_an_input_without_extension_in_place() {
    let mut files = disk(&[("photo", b"bytes")]);
    let (state, effects) = run_stage(&mut files, "photo", "staging");
    assert_eq!(state, StagerState::Failed { error: PipelineError::MissingExtension });
    assert_eq!(effects, vec![Effect::ReadFile { path: b"photo".to_vec() }]);
    assert_eq!(files, disk(&[("photo", b"bytes")]));
}

#[test]
fn staging_refuses_an_extension_that_is_not_text() {
    let source = vec![b'p', b'.', 0xff];
    let (state, _) = stage(source.clone(), "staging");
    let (state, effect) = state.step(Outcome::FileRead(Some(b"bytes".to_vec())));
    assert_eq!(state, StagerState::Failed { error: PipelineError::InvalidEncoding });
    assert_eq!(effect, None);
}

#[test]
fn staging_fails_if_the_input_cannot_be_read() {
    let mut files = disk(&[]);
    let (state, effects) = run_stage(&mut files, "photo.jpg", "staging");
    assert_eq!(state, StagerState::Failed { error: PipelineError::IoFailure });
    assert_eq!(effects.len(), 1);
}

#[test]
fn staging_fails_if_a_file_operation_fails() {
    let (state, _) = stage(b"photo.jpg".to_vec(), "staging");
    let (state, _) = state.step(Outcome::FileRead(Some(b"bytes".to_vec())));
    let (state, effect) = state.step(Outcome::FileRemoved(false));
    assert_eq!(state, StagerState::Failed { error: PipelineError::IoFailure });
    assert_eq!(effect, None);

    let (state, _) = stage(b"photo.jpg".to_vec(), "staging");
    let (state, _) = state.step(Outcome::FileRead(Some(b"bytes".to_vec())));
    let (state, _) = state.step(Outcome::FileRemoved(true));
    let (state, _) = state.step(Outcome::FileProbed(Some(false)));
    let (state, effect) = state.step(Outcome::FileWritten(false));
    assert_eq!(state, StagerState::Failed { error: PipelineError::IoFailure });
    assert_eq!(effect, None);
}

#[test]
fn staging_that_is_over_stays_over() {
    let staged = StagerState::Staged { artifact: artifact("staging", b"x", "txt"), written: true };
    assert_eq!(staged.clone().step(Outcome::FileRead(None)), (staged, None));
    let failed = StagerState::Failed { error: PipelineError::MissingExtension };
    assert_eq!(failed.clone().step(Outcome::FileWritten(true)), (failed, None));
}

#[test]
fn staging_an_input_with_an_empty_extension() {
    let mut files = disk(&[("photo.", b"bytes")]);
    let (state, _) = run_stage(&mut files, "photo.", "staging");
    let expected = artifact("staging", b"bytes", "");
    assert!(expected.local_path.ends_with('.'));
    assert_eq!(state, StagerState::Staged { artifact: expected, written: true });
}

#[test]
fn staged_file_keeps_the_extension_of_its_input() {
    for source in ["photo.jpg", "in/archive.tar.gz", "./a b.größe", "x.", "staging/.hidden.txt"] {
        let named = name_artifact("./staging.d", &source.as_bytes().to_vec(), &b"bytes".to_vec())
            .expect("the input has an extension");
        assert_eq!(
            extension_of(&named.local_path.as_bytes().to_vec()),
            extension_of(&source.as_bytes().to_vec())
        );
        assert_eq!(
            extension_of(&named.local_path.as_bytes().to_vec()),
            Some(named.extension.as_bytes().to_vec())
        );
    }
}

#[test]
fn staging_a_staged_file_again_keeps_its_name() {
    let contents = b"bytes";
    let mut files = disk(&[("in/photo.jpg", contents)]);
    let (once, _) = run_stage(&mut files, "in/photo.jpg", "first");
    let staged = match once {
        StagerState::Staged { artifact, .. } => artifact,
        other => panic!("not staged: {:?}", other),
    };
    let (twice, _) = run_stage(&mut files, &staged.local_path, "second");
    let expected = artifact("second", contents, "jpg");
    assert_eq!(twice, StagerState::Staged { artifact: expected.clone(), written: true });
    assert_eq!(files, disk(&[(expected.local_path.as_str(), contents)]));
}
