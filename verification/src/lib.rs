//! Content-addressed staging of an input file and the life cycle of the
//! batch job that processes it on a remote cluster: submit, poll, retrieve.
//!
//! Nothing here touches a disk, a process or a network. Every operation is
//! split into the decision, which lives in this crate and is verified, and the
//! work itself, which a driver performs: a function of this crate hands out an
//! [`effect::Effect`], the driver carries it out and reports an
//! [`effect::Outcome`], and the next function decides what follows.

pub mod digest;
pub mod effect;
pub mod error;
pub mod path;
pub mod pipeline;
pub mod poll;
pub mod run;
pub mod stage;
pub mod submit;
pub mod text;
pub mod transfer;

pub use digest::sha256_digest_bytes;
pub use effect::{Captured, CommandReport, Effect, Outcome};
pub use error::PipelineError;
pub use pipeline::{Pipeline, PipelineConfig, PipelineState, Stage};
pub use poll::{await_output, metis_output_exists, output_exists, PollPhase, Poller};
pub use stage::{move_file, stage, MoveState, StagedArtifact, StagerState};
pub use submit::{metis_qsub, submission_result, JobHandle, PBSId};
pub use transfer::{copy_file, copy_result, SSHPath};
