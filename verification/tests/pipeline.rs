use backend::digest::sha256_digest_bytes;
use backend::effect::{Captured, CommandReport, Effect, Outcome};
use backend::error::PipelineError;
use backend::pipeline::{start, Pipeline, PipelineConfig, PipelineState, Stage};
use backend::stage::StagedArtifact;
use backend::submit::JobHandle;
use std::collections::BTreeMap;

type Disk = BTreeMap<Vec<u8>, Vec<u8>>;

fn config() -> PipelineConfig {
    PipelineConfig {
        remote_user: "z1994244".to_string(),
        remote_host: "metis.niu.edu".to_string(),
        job_descriptor_remote_path: "/lstr/api/run.pbs".to_string(),
        job_descriptor_local_path: "./assets/run.pbs".to_string(),
        remote_inputs_dir: "/lstr/api/inputs".to_string(),
        remote_outputs_dir: "/lstr/api/outputs".to_string(),
        local_staging_dir: "./staging".to_string(),
        local_serve_dir: "./public".to_string(),
        poll_interval_millis: 5_000,
        poll_deadline_millis: None,
        job_name: "testing".to_string(),
        relocate_log: false,
    }
}

fn ran(stdout: &[u8], stderr: &[u8]) -> Outcome {
    Outcome::Ran(CommandReport::Completed {
        output: Captured { stdout: stdout.to_vec(), stderr: stderr.to_vec() },
        closed: true,
    })
}

fn scp(arguments: &[&str]) -> Effect {
    Effect::RunLocal {
        program: "scp".to_string(),
        arguments: arguments.iter().map(|argument| argument.to_string()).collect(),
    }
}

fn ssh(program: &str, arguments: &[&str]) -> Effect {
    Effect::RunRemote {
        destination: "z1994244@metis.niu.edu".to_string(),
        program: program.to_string(),
        arguments: arguments.iter().map(|argument| argument.to_string()).collect(),
    }
}

/// A remote host that copies without a word, gives every job the same identifier, and shows
/// the job's output after a number of probes.
struct World {
    files: Disk,
    job_id: &'static str,
    absences: usize,
    scp_diagnostics: Option<(usize, &'static str)>,
    qsub_diagnostics: &'static str,
    copies: usize,
    now: u64,
}

fn world(files: &[(&str, &[u8])]) -> World {
    World {
        files: files.iter().map(|(path, contents)| (path.as_bytes().to_vec(), contents.to_vec())).collect(),
        job_id: "987.cm\n",
        absences: 0,
        scp_diagnostics: None,
        qsub_diagnostics: "",
        copies: 0,
        now: 0,
    }
}

fn perform(world: &mut World, effect: &Effect) -> Outcome {
    world.now += 7;
    match effect {
        Effect::ReadFile { path } => Outcome::FileRead(world.files.get(path).cloned()),
        Effect::RemoveFile { path } => Outcome::FileRemoved(world.files.remove(path).is_some()),
        Effect::ProbeFile { path } => Outcome::FileProbed(Some(world.files.contains_key(path))),
        Effect::WriteFile { path, contents } => {
            world.files.insert(path.clone(), contents.clone());
            Outcome::FileWritten(true)
        }
        Effect::RunLocal { .. } => {
            world.copies += 1;
            match world.scp_diagnostics {
                Some((copy, diagnostics)) if copy == world.copies => ran(b"", diagnostics.as_bytes()),
                _ => ran(b"", b""),
            }
        }
        Effect::RunRemote { program, .. } if program == "qsub" => {
            ran(world.job_id.as_bytes(), world.qsub_diagnostics.as_bytes())
        }
        Effect::RunRemote { .. } => {
            if world.absences > 0 {
                world.absences -= 1;
                ran(b"", b"ls: cannot access: No such file or directory\n")
            } else {
                ran(b"testing.o987\n", b"")
            }
        }
        Effect::Sleep { millis } => {
            world.now += millis;
            Outcome::Slept
        }
    }
}

fn run(world: &mut World, config: &PipelineConfig, input: &str) -> (PipelineState, Vec<Effect>) {
    let (mut state, first) = start(config, input.as_bytes().to_vec());
    let mut pending = Some(first);
    let mut effects = Vec::new();
    while let Some(effect) = pending {
        let outcome = perform(world, &effect);
        effects.push(effect);
        let (next, following) = state.step(config, outcome, world.now);
        state = next;
        pending = following;
    }
    (state, effects)
}

fn artifact(contents: &[u8], extension: &str) -> StagedArtifact {
    let digest = sha256_digest_bytes(&contents.to_vec());
    StagedArtifact {
        local_path: format!("./staging/{}.{}", digest, extension),
        digest,
        extension: extension.to_string(),
    }
}

fn handle() -> JobHandle {
    JobHandle { raw_id: "987.cm".to_string(), job_number: "987".to_string() }
}

#[test]
fn run_from_input_to_retrieved_output() {
    let contents = b"the bytes of a photo";
    let d = sha256_digest_bytes(&contents.to_vec());
    let mut world = world(&[("photo.jpg", contents)]);
    world.absences = 2;
    let (state, effects) = run(&mut world, &config(), "photo.jpg");

    assert_eq!(state, PipelineState::Finished { artifact: artifact(contents, "jpg"), handle: handle() });
    let staged = format!("./staging/{}.jpg", d);
    let environment = format!("SHA256='{}',EXTENSION='jpg'", d);
    let probe = ssh("ls", &["testing.o987"]);
    assert_eq!(
        effects,
        vec![
            scp(&["./assets/run.pbs", "z1994244@metis.niu.edu:/lstr/api/run.pbs"]),
            Effect::ReadFile { path: b"photo.jpg".to_vec() },
            Effect::RemoveFile { path: b"photo.jpg".to_vec() },
            Effect::ProbeFile { path: staged.as_bytes().to_vec() },
            Effect::WriteFile { path: staged.as_bytes().to_vec(), contents: contents.to_vec() },
            scp(&[&staged, &format!("z1994244@metis.niu.edu:/lstr/api/inputs/{}.jpg", d)]),
            ssh("qsub", &["-v", &environment, "/lstr/api/run.pbs"]),
            probe.clone(),
            Effect::Sleep { millis: 5_000 },
            probe.clone(),
            Effect::Sleep { millis: 5_000 },
            probe,
            scp(&[
                "-r",
                &format!("z1994244@metis.niu.edu:/lstr/api/outputs/{}", d),
                &format!("./public/{}", d),
            ]),
        ]
    );
    assert_eq!(world.files.get(staged.as_bytes()), Some(&contents.to_vec()));
    assert!(!world.files.contains_key(&b"photo.jpg".to_vec()));
}

#[test]
fn run_that_moves_the_log_in_with_the_results() {
    let contents = b"bytes";
    let d = sha256_digest_bytes(&contents.to_vec());
    let mut world = world(&[("in/scan.png", contents)]);
    let settings = PipelineConfig { relocate_log: true, ..config() };
    let (state, effects) = run(&mut world, &settings, "in/scan.png");
    assert!(matches!(state, PipelineState::Finished { .. }));
    let results = format!("z1994244@metis.niu.edu:/lstr/api/outputs/{}", d);
    assert_eq!(
        effects[effects.len() - 2..],
        [
            scp(&["z1994244@metis.niu.edu:testing.o987", &results]),
            scp(&["-r", &results, &format!("./public/{}", d)]),
        ]
    );
}

#[test]
fn run_aborts_if_the_descriptor_cannot_be_synced() {
    let mut world = world(&[("photo.jpg", b"bytes")]);
    world.scp_diagnostics = Some((1, "scp: no route to host\n"));
    let (state, effects) = run(&mut world, &config(), "photo.jpg");
    assert_eq!(
        state,
        PipelineState::Aborted {
            stage: Stage::SyncDescriptor,
            error: PipelineError::TransferFailed("scp: no route to host\n".to_string()),
        }
    );
    assert_eq!(effects.len(), 1);
    assert!(world.files.contains_key(&b"photo.jpg".to_vec()));
}

#[test]
fn run_aborts_if_the_input_has_no_extension() {
    let mut world = world(&[("photo", b"bytes")]);
    let (state, effects) = run(&mut world, &config(), "photo");
    assert_eq!(
        state,
        PipelineState::Aborted { stage: Stage::StageInput, error: PipelineError::MissingExtension }
    );
    assert_eq!(effects.len(), 2);
    assert!(world.files.contains_key(&b"photo".to_vec()));
}

#[test]
fn run_aborts_if_the_input_is_missing() {
    let mut world = world(&[]);
    let (state, _) = run(&mut world, &config(), "photo.jpg");
    assert_eq!(state, PipelineState::Aborted { stage: Stage::StageInput, error: PipelineError::IoFailure });
}

#[test]
fn run_aborts_if_the_input_cannot_be_transferred() {
    let mut world = world(&[("photo.jpg", b"bytes")]);
    world.scp_diagnostics = Some((2, "scp: disk quota exceeded\n"));
    let (state, effects) = run(&mut world, &config(), "photo.jpg");
    assert_eq!(
        state,
        PipelineState::Aborted {
            stage: Stage::TransferInput,
            error: PipelineError::TransferFailed("scp: disk quota exceeded\n".to_string()),
        }
    );
    assert_eq!(effects.len(), 6);
}

#[test]
fn run_aborts_if_the_scheduler_complains() {
    let mut world = world(&[("photo.jpg", b"bytes")]);
    world.qsub_diagnostics = "qsub: unknown queue\n";
    let (state, effects) = run(&mut world, &config(), "photo.jpg");
    assert_eq!(
        state,
        PipelineState::Aborted {
            stage: Stage::Submit,
            error: PipelineError::SubmissionFailed("qsub: unknown queue\n".to_string()),
        }
    );
    assert_eq!(effects.len(), 7);
}

#[test]
fn run_aborts_on_a_malformed_job_identifier() {
    let mut world = world(&[("photo.jpg", b"bytes")]);
    world.job_id = "987\n";
    let (state, _) = run(&mut world, &config(), "photo.jpg");
    assert_eq!(state, PipelineState::Aborted { stage: Stage::Submit, error: PipelineError::MalformedJobId });
}

#[test]
fn run_aborts_if_the_output_does_not_come_in_time() {
    let mut world = world(&[("photo.jpg", b"bytes")]);
    world.absences = 1_000;
    let settings = PipelineConfig { poll_deadline_millis: Some(60_000), ..config() };
    let (state, effects) = run(&mut world, &settings, "photo.jpg");
    assert_eq!(state, PipelineState::Aborted { stage: Stage::AwaitOutput, error: PipelineError::PollTimedOut });
    let slept: u64 = effects
        .iter()
        .map(|effect| match effect {
            Effect::Sleep { millis } => *millis,
            _ => 0,
        })
        .sum();
    assert!(slept <= 60_000);
    assert!(effects.iter().all(|effect| !matches!(effect, Effect::RunLocal { arguments, .. } if arguments[0] == "-r")));
}

#[test]
fn run_aborts_if_the_results_cannot_be_retrieved() {
    let mut world = world(&[("photo.jpg", b"bytes")]);
    world.scp_diagnostics = Some((3, "scp: connection reset\n"));
    let (state, _) = run(&mut world, &config(), "photo.jpg");
    assert_eq!(
        state,
        PipelineState::Aborted {
            stage: Stage::Retrieve,
            error: PipelineError::TransferFailed("scp: connection reset\n".to_string()),
        }
    );
}

#[test]
fn run_aborts_if_the_log_cannot_be_moved() {
    let mut world = world(&[("photo.jpg", b"bytes")]);
    world.scp_diagnostics = Some((3, "scp: no such file\n"));
    let settings = PipelineConfig { relocate_log: true, ..config() };
    let (state, _) = run(&mut world, &settings, "photo.jpg");
    assert_eq!(
        state,
        PipelineState::Aborted {
            stage: Stage::RelocateLog,
            error: PipelineError::TransferFailed("scp: no such file\n".to_string()),
        }
    );
}

#[test]
fn run_that_is_over_stays_over() {
    let finished = PipelineState::Finished { artifact: artifact(b"x", "txt"), handle: handle() };
    assert_eq!(finished.clone().step(&config(), Outcome::Slept, 5), (finished, None));
    let aborted = PipelineState::Aborted { stage: Stage::Submit, error: PipelineError::MalformedJobId };
    assert_eq!(aborted.clone().step(&config(), ran(b"", b""), 5), (aborted, None));
}

#[test]
fn second_run_on_the_same_content_reuses_the_artifact() {
    let contents = b"the same bytes";
    let mut world = world(&[("a/photo.jpg", contents), ("b/photo.jpg", contents)]);
    let (first, _) = run(&mut world, &config(), "a/photo.jpg");
    let (second, effects) = run(&mut world, &config(), "b/photo.jpg");
    assert_eq!(first, second);
    assert!(effects.iter().all(|effect| !matches!(effect, Effect::WriteFile { .. })));
    assert_eq!(world.files.len(), 1);
}

#[test]
fn pipeline_keeps_its_configuration() {
    let contents = b"bytes";
    let mut world = world(&[("photo.jpg", contents)]);
    world.absences = 1;
    let (mut pipeline, first) = Pipeline::start(config(), b"photo.jpg".to_vec());
    assert!(!pipeline.is_over());
    let mut pending = Some(first);
    let mut steps = 0;
    while let Some(effect) = pending {
        let outcome = perform(&mut world, &effect);
        let (next, following) = pipeline.step(outcome, world.now);
        assert_eq!(next.config, config());
        assert_eq!(next.is_over(), following.is_none());
        pipeline = next;
        pending = following;
        steps += 1;
    }
    assert_eq!(steps, 11);
    assert_eq!(
        pipeline.state,
        PipelineState::Finished { artifact: artifact(contents, "jpg"), handle: handle() }
    );
}

#[test]
fn run_aborts_if_the_wait_is_cancelled() {
    let settings = config();
    let (state, _) = start(&settings, b"photo.jpg".to_vec());
    let (state, _) = state.step(&settings, ran(b"", b""), 1);
    let (state, _) = state.step(&settings, Outcome::FileRead(Some(b"bytes".to_vec())), 2);
    let (state, _) = state.step(&settings, Outcome::FileRemoved(true), 3);
    let (state, _) = state.step(&settings, Outcome::FileProbed(Some(true)), 4);
    let (state, _) = state.step(&settings, ran(b"", b""), 5);
    let (state, effect) = state.step(&settings, ran(b"987.cm\n", b""), 6);
    assert_eq!(effect, Some(ssh("ls", &["testing.o987"])));
    let (state, effect) = state.step(&settings, ran(b"", b"ls: no such file\n"), 7);
    assert_eq!(effect, Some(Effect::Sleep { millis: 5_000 }));
    let (state, effect) = state.step(&settings, Outcome::Cancelled, 8);
    assert_eq!(state, PipelineState::Aborted { stage: Stage::AwaitOutput, error: PipelineError::PollTimedOut });
    assert_eq!(effect, None);
}

#[test]
fn run_aborts_if_the_remote_host_cannot_be_reached() {
    let settings = config();
    let (state, _) = start(&settings, b"photo.jpg".to_vec());
    let (state, effect) = state.step(&settings, Outcome::Ran(CommandReport::NotRun), 1);
    assert_eq!(
        state,
        PipelineState::Aborted { stage: Stage::SyncDescriptor, error: PipelineError::ConnectionFailure }
    );
    assert_eq!(effect, None);

    let (state, _) = start(&settings, b"photo.jpg".to_vec());
    let (state, _) = state.step(&settings, ran(b"", b""), 1);
    let (state, _) = state.step(&settings, Outcome::FileRead(Some(b"bytes".to_vec())), 2);
    let (state, _) = state.step(&settings, Outcome::FileRemoved(true), 3);
    let (state, _) = state.step(&settings, Outcome::FileProbed(Some(false)), 4);
    let (state, _) = state.step(&settings, Outcome::FileWritten(true), 5);
    let (state, _) = state.step(&settings, ran(b"", b""), 6);
    let (state, effect) = state.step(&settings, Outcome::Ran(CommandReport::NotConnected), 7);
    assert_eq!(state, PipelineState::Aborted { stage: Stage::Submit, error: PipelineError::ConnectionFailure });
    assert_eq!(effect, None);
}
