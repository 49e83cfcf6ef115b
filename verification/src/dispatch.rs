//! Execution dispatch planning: turning a command line into a concrete
//! execution request for either the host or the language's container.
//!
//! The dispatcher interprets no shell features: the command line is split
//! on single spaces into argv, with no quoting or escaping.

use vstd::prelude::*;

verus! {

use crate::text::{all_space_free, join_spaces, split_command};

/// Where a command runs: directly on the host, or inside the language's
/// container.
#[derive(Clone, Copy, PartialEq, Eq, Structural, Debug)]
pub enum EnvironmentType {
    Host,
    Container,
}

/// One planned command execution: argv, the working directory, the numeric
/// user and group the command runs as, and the target environment.
pub struct ExecutionRequest {
    pub argv: Vec<String>,
    pub working_dir: String,
    pub uid: u32,
    pub gid: u32,
    pub environment: EnvironmentType,
}

/// The fixed working directory of each environment: the sandbox directory
/// on the host, the sandbox bind-mount target inside a container.
pub open spec fn working_dir_spec(env: EnvironmentType) -> Seq<char> {
    match env {
        EnvironmentType::Host => "sandbox"@,
        EnvironmentType::Container => "/app"@,
    }
}

/// Relies on users::get_current_uid: the numeric uid of the calling
/// process, read from the system; nothing is assumed of its value.
#[verifier::external_body]
fn current_uid() -> u32 {
    users::get_current_uid()
}

/// Relies on users::get_current_gid: the numeric gid of the calling
/// process, read from the system; nothing is assumed of its value.
#[verifier::external_body]
fn current_gid() -> u32 {
    users::get_current_gid()
}

/// Plans one execution of `command` as the given user: argv is the command
/// line split on single spaces, pinned down as the unique space-free piece
/// list that joins back to the command line; the working directory is the
/// environment's fixed one.
pub fn execution_request(env: EnvironmentType, command: &str, uid: u32, gid: u32) -> (r:
    ExecutionRequest)
    ensures
        r.argv@.len() >= 1,
        all_space_free(r.argv.deep_view()),
        join_spaces(r.argv.deep_view()) == command@,
        r.working_dir@ == working_dir_spec(env),
        r.uid == uid,
        r.gid == gid,
        r.environment == env,
{
    let argv = split_command(command);
    let working_dir = match env {
        EnvironmentType::Host => "sandbox".to_owned(),
        EnvironmentType::Container => "/app".to_owned(),
    };
    ExecutionRequest { argv, working_dir, uid, gid, environment: env }
}

/// Plans one execution of `command` as the user running this process, so
/// that files the command creates in the bound sandbox stay writable on
/// the host.
pub fn execution_request_for_current_user(env: EnvironmentType, command: &str) -> (r:
    ExecutionRequest)
    ensures
        r.argv@.len() >= 1,
        all_space_free(r.argv.deep_view()),
        join_spaces(r.argv.deep_view()) == command@,
        r.working_dir@ == working_dir_spec(env),
        r.environment == env,
{
    let uid = current_uid();
    let gid = current_gid();
    execution_request(env, command, uid, gid)
}

} // verus!
