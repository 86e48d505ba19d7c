//! Checkmate runs a job, a named list of independent tasks, where each task is
//! one script or an ordered chain of scripts, on this machine or on a remote
//! host. This crate holds the rules of that engine: what a job is, how a script
//! is staged and launched, how the state of a running script evolves with each
//! thing that happens to its process, when the next script of a chain may start,
//! and what a dashboard shows of it all. Everything here works on plain values;
//! processes, sessions, files and the terminal belong to the program around it.

pub mod command;
pub mod draw;
pub mod job;
pub mod result;
pub mod runner;
pub mod stage;
pub mod text;

pub use command::{
    Action, CommandRunner, Event, EventView, ExitStatus, Failure, Handle, Phase, Tick, Wait,
    POLL_INTERVAL_MS,
};
pub use draw::{Column, DrawMode, JobScreen, Screen, State, TaskScreen};
pub use job::{generate_test_data, Destination, Environment, Job, Script, Shell, Task};
pub use stage::{Launch, UPLOAD_PROGRAM};
pub use result::{Output, TaskResult};
pub use runner::{ChainPolicy, JobRunner, JobThread, Refused, Step};
