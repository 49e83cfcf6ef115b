//! In-container command execution capture: one command's streamed output,
//! classified chunk by chunk by origin and drained to completion into a
//! single synchronous result. No partial capture is ever surfaced.

use vstd::prelude::*;

verus! {

/// The fully captured outcome of one dispatched command: the exit code if
/// one was observable, and the raw bytes of both output streams. A missing
/// exit code is the sentinel of a detached execution, whose status cannot
/// be observed; it is distinct from every genuine exit code.
pub struct ExecutionResult {
    pub exit_code: Option<i32>,
    pub stdout: Vec<u8>,
    pub stderr: Vec<u8>,
}

/// One chunk of streamed command output, classified by origin.
pub enum OutputChunk {
    Stdout(Vec<u8>),
    Stderr(Vec<u8>),
    /// Output of another origin; it belongs to neither captured stream.
    Other,
}

impl ExecutionResult {
    /// An empty capture with no observable status: what a detached
    /// execution returns, and the starting point an attached stream is
    /// drained into.
    pub fn empty() -> (r: ExecutionResult)
        ensures
            r.exit_code is None,
            r.stdout@ == Seq::<u8>::empty(),
            r.stderr@ == Seq::<u8>::empty(),
    {
        ExecutionResult { exit_code: None, stdout: Vec::new(), stderr: Vec::new() }
    }

    /// Appends one classified chunk to the stream it came from; the other
    /// stream and the status are untouched.
    pub fn push_chunk(&mut self, chunk: OutputChunk)
        ensures
            final(self).exit_code == old(self).exit_code,
            match chunk {
                OutputChunk::Stdout(b) => final(self).stdout@ == old(self).stdout@ + b@
                    && final(self).stderr@ == old(self).stderr@,
                OutputChunk::Stderr(b) => final(self).stderr@ == old(self).stderr@ + b@
                    && final(self).stdout@ == old(self).stdout@,
                OutputChunk::Other => final(self).stdout@ == old(self).stdout@
                    && final(self).stderr@ == old(self).stderr@,
            },
    {
        match chunk {
            OutputChunk::Stdout(mut b) => self.stdout.append(&mut b),
            OutputChunk::Stderr(mut b) => self.stderr.append(&mut b),
            OutputChunk::Other => {},
        }
    }

    /// Records the exit code observed once the stream was drained to its
    /// end; the captured output is untouched.
    pub fn finish(&mut self, code: i32)
        ensures
            final(self).exit_code == Some(code),
            final(self).stdout@ == old(self).stdout@,
            final(self).stderr@ == old(self).stderr@,
    {
        self.exit_code = Some(code);
    }
}

} // verus!
