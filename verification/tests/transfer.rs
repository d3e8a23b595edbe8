use backend::effect::{Captured, CommandReport, Effect, Outcome};
use backend::error::PipelineError;
use backend::transfer::{copy_file, copy_result, SSHPath};

fn scp(arguments: &[&str]) -> Effect {
    Effect::RunLocal {
        program: "scp".to_string(),
        arguments: arguments.iter().map(|argument| argument.to_string()).collect(),
    }
}

fn ran(stdout: &[u8], stderr: &[u8]) -> Outcome {
    Outcome::Ran(CommandReport::Completed {
        output: Captured { stdout: stdout.to_vec(), stderr: stderr.to_vec() },
        closed: true,
    })
}

#[test]
fn copy_from_local_to_remote() {
    let planned = copy_file(
        "z1994244",
        "metis.niu.edu",
        SSHPath::Local("./assets/run.pbs"),
        SSHPath::Remote("/lstr/sahara/run.pbs"),
        false,
    );
    assert_eq!(planned, Ok(scp(&["./assets/run.pbs", "z1994244@metis.niu.edu:/lstr/sahara/run.pbs"])));
}

#[test]
fn copy_from_remote_to_local() {
    let planned = copy_file("u", "h", SSHPath::Remote("/out/d"), SSHPath::Local("./public/d"), true);
    assert_eq!(planned, Ok(scp(&["-r", "u@h:/out/d", "./public/d"])));
}

#[test]
fn copy_from_remote_to_remote() {
    let planned = copy_file("u", "h", SSHPath::Remote("testing.o987"), SSHPath::Remote("/out/d"), false);
    assert_eq!(planned, Ok(scp(&["u@h:testing.o987", "u@h:/out/d"])));
}

#[test]
fn copy_of_a_directory_is_recursive() {
    let planned = copy_file("u", "h", SSHPath::Local("./public/d"), SSHPath::Remote("/out"), true);
    assert_eq!(planned, Ok(scp(&["-r", "./public/d", "u@h:/out"])));
}

#[test]
fn copy_between_two_local_paths_is_refused() {
    for directory in [false, true] {
        let planned = copy_file("u", "h", SSHPath::Local("a"), SSHPath::Local("b"), directory);
        assert_eq!(planned, Err(PipelineError::InvalidEndpointPairing));
    }
}

#[test]
fn copy_result_is_the_standard_output() {
    assert_eq!(copy_result(ran(b"run.pbs 100%\n", b"")), Ok("run.pbs 100%\n".to_string()));
    assert_eq!(copy_result(ran(b"", b"")), Ok(String::new()));
}

#[test]
fn copy_result_takes_any_diagnostics_for_failure() {
    assert_eq!(
        copy_result(ran(b"partly copied", b"scp: permission denied\n")),
        Err(PipelineError::TransferFailed("scp: permission denied\n".to_string()))
    );
    assert_eq!(copy_result(ran(b"", b" ")), Err(PipelineError::TransferFailed(" ".to_string())));
}

#[test]
fn copy_result_refuses_output_that_is_not_text() {
    assert_eq!(copy_result(ran(&[0xff], b"")), Err(PipelineError::InvalidEncoding));
    assert_eq!(copy_result(ran(b"", &[0xc0, 0x80])), Err(PipelineError::InvalidEncoding));
    assert_eq!(copy_result(ran(&[0xff], b"diagnostics")), Err(PipelineError::InvalidEncoding));
}

#[test]
fn copy_result_without_a_run_is_a_connection_failure() {
    assert_eq!(copy_result(Outcome::Ran(CommandReport::NotRun)), Err(PipelineError::ConnectionFailure));
    assert_eq!(
        copy_result(Outcome::Ran(CommandReport::NotConnected)),
        Err(PipelineError::ConnectionFailure)
    );
    assert_eq!(copy_result(Outcome::Slept), Err(PipelineError::ConnectionFailure));
    assert_eq!(copy_result(Outcome::FileRemoved(true)), Err(PipelineError::ConnectionFailure));
}

#[test]
fn failures_describe_themselves() {
    assert_eq!(PipelineError::InvalidEndpointPairing.describe(), "Must have differing SSHPath types!");
    assert_eq!(PipelineError::MissingExtension.describe(), "File was missing an extension!");
    assert_eq!(
        PipelineError::TransferFailed("scp: denied\n".to_string()).describe(),
        "Got error output: scp: denied\n"
    );
    assert_eq!(
        PipelineError::SubmissionFailed("qsub: no\n".to_string()).describe(),
        "Server had `stderr`: qsub: no\n"
    );
    assert_eq!(
        PipelineError::MalformedJobId.describe(),
        "Missing job number! Ensure the Job ID is in the form <n>.cm!"
    );
    let all = [
        PipelineError::IoFailure,
        PipelineError::MissingExtension,
        PipelineError::InvalidEncoding,
        PipelineError::InvalidEndpointPairing,
        PipelineError::TransferFailed(String::new()),
        PipelineError::SubmissionFailed(String::new()),
        PipelineError::MalformedJobId,
        PipelineError::ConnectionFailure,
        PipelineError::PollTimedOut,
    ];
    for (i, one) in all.iter().enumerate() {
        for (j, other) in all.iter().enumerate() {
            assert_eq!(i == j, one.describe() == other.describe());
        }
    }
}
