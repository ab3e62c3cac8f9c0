//! The raw spool writer's protocol as a state machine: open the printer,
//! begin a document and a page, stream the file in fixed-size chunks with
//! partial writes looped until acknowledged, end the page and the
//! document, and close the handle — with a begun page and document always
//! explicitly ended, and the handle always closed, before a failure is
//! reported.
//!
//! The machine decides; the caller owns the device. It asks `next_call`
//! what to do, performs the call, and feeds what the device answered back
//! through `step`, until `outcome` reports a result.

use vstd::prelude::*;

use crate::errors::PrintError;

verus! {

/// Bytes handed to the device per write call.
pub const SPOOL_CHUNK: usize = 4096;

/// The device calls of the spool protocol, in the order the machine asks
/// for them.
#[derive(Clone, Copy, Debug, PartialEq, Eq, Structural)]
pub enum SpoolCall {
    /// Acquire the printer handle by name.
    Open,
    /// Begin the document, with the fixed document name and the raw data
    /// type.
    StartDoc,
    /// Begin the page.
    StartPage,
    /// Hand the device the file bytes at `offset..offset + len`.
    Write { offset: usize, len: usize },
    /// End the page.
    EndPage,
    /// End the document.
    EndDoc,
    /// Release the printer handle.
    Close,
}

/// What the device answered to the last call. `count` carries the bytes
/// the spooler acknowledged for a write call and is ignored for every
/// other call.
#[derive(Clone, Copy, Debug, PartialEq, Eq, Structural)]
pub enum SpoolReply {
    Success { count: usize },
    Failure { code: u32 },
}

/// Where in the protocol the machine stands: which call is owed next, or
/// which terminal state was reached.
#[derive(Clone, Copy, Debug, PartialEq, Eq, Structural)]
pub enum SpoolPhase {
    /// The handle is still to be acquired.
    Opening,
    /// The document is still to be begun.
    StartingDoc,
    /// The page is still to be begun.
    StartingPage,
    /// File bytes are being streamed.
    Streaming,
    /// All bytes are written; the page is to be ended.
    EndingPage,
    /// The page ended; the document is to be ended.
    EndingDoc,
    /// A failure interrupted streaming; the begun page is ended before
    /// anything else.
    CleanupPage { code: u32 },
    /// A failure left the document begun; it is ended before the failure
    /// is reported.
    CleanupDoc { code: u32 },
    /// The protocol completed; the handle is to be released.
    ClosingOk,
    /// The protocol failed after the handle was acquired; the handle is
    /// still released.
    ClosingFailed { code: u32 },
    /// Terminal: every step succeeded.
    Succeeded,
    /// Terminal: the printer could not be opened; no handle exists, so
    /// nothing is closed.
    OpenFailed { code: u32 },
    /// Terminal: a protocol step failed; cleanup and close have run.
    ProtocolFailed { code: u32 },
}

/// The machine for one raw delivery: the file length, the write cursor,
/// the end of the chunk being written, and the protocol phase.
#[derive(Clone, Copy, Debug, PartialEq, Eq, Structural)]
pub struct SpoolJob {
    /// Total bytes of the source file.
    pub len: usize,
    /// Bytes acknowledged so far.
    pub cursor: usize,
    /// End of the chunk currently being written.
    pub chunk_end: usize,
    /// Protocol position.
    pub phase: SpoolPhase,
}

impl SpoolJob {
    /// The machine's internal consistency: the cursor sits inside the
    /// current chunk, the chunk inside the file, chunks never exceed the
    /// chunk size, and while streaming there are always bytes owed.
    pub open spec fn wf(self) -> bool {
        &&& self.cursor <= self.chunk_end <= self.len
        &&& self.chunk_end - self.cursor <= SPOOL_CHUNK
        &&& (self.cursor < self.len ==> self.cursor < self.chunk_end)
        &&& (self.phase is Streaming ==> self.cursor < self.len)
    }
}

/// The machine as a delivery of `file_len` bytes begins.
pub open spec fn start_spec(file_len: usize) -> SpoolJob {
    SpoolJob {
        len: file_len,
        cursor: 0,
        chunk_end: if file_len < SPOOL_CHUNK {
            file_len
        } else {
            SPOOL_CHUNK
        },
        phase: SpoolPhase::Opening,
    }
}

/// The device call the machine asks for in its current phase, or nothing
/// in a terminal phase.
pub open spec fn next_call_spec(job: SpoolJob) -> Option<SpoolCall> {
    match job.phase {
        SpoolPhase::Opening => Some(SpoolCall::Open),
        SpoolPhase::StartingDoc => Some(SpoolCall::StartDoc),
        SpoolPhase::StartingPage => Some(SpoolCall::StartPage),
        SpoolPhase::Streaming => Some(
            SpoolCall::Write { offset: job.cursor, len: (job.chunk_end - job.cursor) as usize },
        ),
        SpoolPhase::EndingPage => Some(SpoolCall::EndPage),
        SpoolPhase::CleanupPage { .. } => Some(SpoolCall::EndPage),
        SpoolPhase::EndingDoc => Some(SpoolCall::EndDoc),
        SpoolPhase::CleanupDoc { .. } => Some(SpoolCall::EndDoc),
        SpoolPhase::ClosingOk => Some(SpoolCall::Close),
        SpoolPhase::ClosingFailed { .. } => Some(SpoolCall::Close),
        SpoolPhase::Succeeded => None,
        SpoolPhase::OpenFailed { .. } => None,
        SpoolPhase::ProtocolFailed { .. } => None,
    }
}

/// The machine after the device answered the call of the current phase.
///
/// A write may be acknowledged partially; the cursor advances by exactly
/// the acknowledged count (clamped to the bytes actually owed in the
/// chunk, should the device over-report), and the same chunk is offered
/// again until it is fully acknowledged. Failures route through the
/// cleanup phases: a begun page and document are ended, and the handle
/// closed, whatever the cleanup calls themselves answer. A failure to end
/// the page on the success path still has the document ended behind it.
pub open spec fn step_spec(job: SpoolJob, reply: SpoolReply) -> SpoolJob {
    match job.phase {
        SpoolPhase::Opening => match reply {
            SpoolReply::Success { .. } => SpoolJob { phase: SpoolPhase::StartingDoc, ..job },
            SpoolReply::Failure { code } => SpoolJob {
                phase: SpoolPhase::OpenFailed { code },
                ..job
            },
        },
        SpoolPhase::StartingDoc => match reply {
            SpoolReply::Success { .. } => SpoolJob { phase: SpoolPhase::StartingPage, ..job },
            SpoolReply::Failure { code } => SpoolJob {
                phase: SpoolPhase::ClosingFailed { code },
                ..job
            },
        },
        SpoolPhase::StartingPage => match reply {
            SpoolReply::Success { .. } => {
                if job.cursor == job.len {
                    SpoolJob { phase: SpoolPhase::EndingPage, ..job }
                } else {
                    SpoolJob { phase: SpoolPhase::Streaming, ..job }
                }
            },
            SpoolReply::Failure { code } => SpoolJob {
                phase: SpoolPhase::CleanupDoc { code },
                ..job
            },
        },
        SpoolPhase::Streaming => match reply {
            SpoolReply::Success { count } => {
                let remaining = job.chunk_end - job.cursor;
                let take = if (count as int) < remaining {
                    count as int
                } else {
                    remaining
                };
                let new_cursor = (job.cursor + take) as usize;
                if new_cursor == job.len {
                    SpoolJob { cursor: new_cursor, phase: SpoolPhase::EndingPage, ..job }
                } else {
                    let new_chunk_end = if new_cursor == job.chunk_end {
                        if job.len - new_cursor < SPOOL_CHUNK {
                            job.len
                        } else {
                            (new_cursor + SPOOL_CHUNK) as usize
                        }
                    } else {
                        job.chunk_end
                    };
                    SpoolJob {
                        cursor: new_cursor,
                        chunk_end: new_chunk_end,
                        phase: SpoolPhase::Streaming,
                        ..job
                    }
                }
            },
            SpoolReply::Failure { code } => SpoolJob {
                phase: SpoolPhase::CleanupPage { code },
                ..job
            },
        },
        SpoolPhase::EndingPage => match reply {
            SpoolReply::Success { .. } => SpoolJob { phase: SpoolPhase::EndingDoc, ..job },
            SpoolReply::Failure { code } => SpoolJob {
                phase: SpoolPhase::CleanupDoc { code },
                ..job
            },
        },
        SpoolPhase::EndingDoc => match reply {
            SpoolReply::Success { .. } => SpoolJob { phase: SpoolPhase::ClosingOk, ..job },
            SpoolReply::Failure { code } => SpoolJob {
                phase: SpoolPhase::ClosingFailed { code },
                ..job
            },
        },
        SpoolPhase::CleanupPage { code } => SpoolJob {
            phase: SpoolPhase::CleanupDoc { code },
            ..job
        },
        SpoolPhase::CleanupDoc { code } => SpoolJob {
            phase: SpoolPhase::ClosingFailed { code },
            ..job
        },
        SpoolPhase::ClosingOk => SpoolJob { phase: SpoolPhase::Succeeded, ..job },
        SpoolPhase::ClosingFailed { code } => SpoolJob {
            phase: SpoolPhase::ProtocolFailed { code },
            ..job
        },
        SpoolPhase::Succeeded => job,
        SpoolPhase::OpenFailed { .. } => job,
        SpoolPhase::ProtocolFailed { .. } => job,
    }
}

/// The delivery's result once a terminal phase is reached.
pub open spec fn outcome_spec(job: SpoolJob) -> Option<Result<(), PrintError>> {
    match job.phase {
        SpoolPhase::Succeeded => Some(Ok(())),
        SpoolPhase::OpenFailed { code } => Some(Err(PrintError::PrinterOpenError { code })),
        SpoolPhase::ProtocolFailed { code } => Some(
            Err(PrintError::SpoolProtocolError { code }),
        ),
        _ => None,
    }
}

/// Begins the machine for a file of `file_len` bytes.
pub fn start(file_len: usize) -> (job: SpoolJob)
    ensures
        job == start_spec(file_len),
        job.wf(),
{
    SpoolJob {
        len: file_len,
        cursor: 0,
        chunk_end: if file_len < SPOOL_CHUNK {
            file_len
        } else {
            SPOOL_CHUNK
        },
        phase: SpoolPhase::Opening,
    }
}

/// The device call owed in the current phase, or nothing once the
/// machine is terminal.
pub fn next_call(job: &SpoolJob) -> (r: Option<SpoolCall>)
    requires
        job.wf(),
    ensures
        r == next_call_spec(*job),
{
    match job.phase {
        SpoolPhase::Opening => Some(SpoolCall::Open),
        SpoolPhase::StartingDoc => Some(SpoolCall::StartDoc),
        SpoolPhase::StartingPage => Some(SpoolCall::StartPage),
        SpoolPhase::Streaming => Some(
            SpoolCall::Write { offset: job.cursor, len: job.chunk_end - job.cursor },
        ),
        SpoolPhase::EndingPage => Some(SpoolCall::EndPage),
        SpoolPhase::CleanupPage { .. } => Some(SpoolCall::EndPage),
        SpoolPhase::EndingDoc => Some(SpoolCall::EndDoc),
        SpoolPhase::CleanupDoc { .. } => Some(SpoolCall::EndDoc),
        SpoolPhase::ClosingOk => Some(SpoolCall::Close),
        SpoolPhase::ClosingFailed { .. } => Some(SpoolCall::Close),
        SpoolPhase::Succeeded => None,
        SpoolPhase::OpenFailed { .. } => None,
        SpoolPhase::ProtocolFailed { .. } => None,
    }
}

/// Feeds the device's answer to the machine and yields its next state.
pub fn step(job: SpoolJob, reply: SpoolReply) -> (r: SpoolJob)
    requires
        job.wf(),
    ensures
        r == step_spec(job, reply),
        r.wf(),
{
    match job.phase {
        SpoolPhase::Opening => match reply {
            SpoolReply::Success { .. } => SpoolJob { phase: SpoolPhase::StartingDoc, ..job },
            SpoolReply::Failure { code } => SpoolJob {
                phase: SpoolPhase::OpenFailed { code },
                ..job
            },
        },
        SpoolPhase::StartingDoc => match reply {
            SpoolReply::Success { .. } => SpoolJob { phase: SpoolPhase::StartingPage, ..job },
            SpoolReply::Failure { code } => SpoolJob {
                phase: SpoolPhase::ClosingFailed { code },
                ..job
            },
        },
        SpoolPhase::StartingPage => match reply {
            SpoolReply::Success { .. } => {
                if job.cursor == job.len {
                    SpoolJob { phase: SpoolPhase::EndingPage, ..job }
                } else {
                    SpoolJob { phase: SpoolPhase::Streaming, ..job }
                }
            },
            SpoolReply::Failure { code } => SpoolJob {
                phase: SpoolPhase::CleanupDoc { code },
                ..job
            },
        },
        SpoolPhase::Streaming => match reply {
            SpoolReply::Success { count } => {
                let remaining = job.chunk_end - job.cursor;
                let take = if count < remaining {
                    count
                } else {
                    remaining
                };
                let new_cursor = job.cursor + take;
                if new_cursor == job.len {
                    SpoolJob { cursor: new_cursor, phase: SpoolPhase::EndingPage, ..job }
                } else {
                    let new_chunk_end = if new_cursor == job.chunk_end {
                        if job.len - new_cursor < SPOOL_CHUNK {
                            job.len
                        } else {
                            new_cursor + SPOOL_CHUNK
                        }
                    } else {
                        job.chunk_end
                    };
                    SpoolJob {
                        cursor: new_cursor,
                        chunk_end: new_chunk_end,
                        phase: SpoolPhase::Streaming,
                        ..job
                    }
                }
            },
            SpoolReply::Failure { code } => SpoolJob {
                phase: SpoolPhase::CleanupPage { code },
                ..job
            },
        },
        SpoolPhase::EndingPage => match reply {
            SpoolReply::Success { .. } => SpoolJob { phase: SpoolPhase::EndingDoc, ..job },
            SpoolReply::Failure { code } => SpoolJob {
                phase: SpoolPhase::CleanupDoc { code },
                ..job
            },
        },
        SpoolPhase::EndingDoc => match reply {
            SpoolReply::Success { .. } => SpoolJob { phase: SpoolPhase::ClosingOk, ..job },
            SpoolReply::Failure { code } => SpoolJob {
                phase: SpoolPhase::ClosingFailed { code },
                ..job
            },
        },
        SpoolPhase::CleanupPage { code } => SpoolJob {
            phase: SpoolPhase::CleanupDoc { code },
            ..job
        },
        SpoolPhase::CleanupDoc { code } => SpoolJob {
            phase: SpoolPhase::ClosingFailed { code },
            ..job
        },
        SpoolPhase::ClosingOk => SpoolJob { phase: SpoolPhase::Succeeded, ..job },
        SpoolPhase::ClosingFailed { code } => SpoolJob {
            phase: SpoolPhase::ProtocolFailed { code },
            ..job
        },
        SpoolPhase::Succeeded => job,
        SpoolPhase::OpenFailed { .. } => job,
        SpoolPhase::ProtocolFailed { .. } => job,
    }
}

/// The delivery's result, once the machine is terminal.
pub fn outcome(job: &SpoolJob) -> (r: Option<Result<(), PrintError>>)
    ensures
        r == outcome_spec(*job),
{
    match job.phase {
        SpoolPhase::Succeeded => Some(Ok(())),
        SpoolPhase::OpenFailed { code } => Some(Err(PrintError::PrinterOpenError { code })),
        SpoolPhase::ProtocolFailed { code } => Some(
            Err(PrintError::SpoolProtocolError { code }),
        ),
        _ => None,
    }
}

/// A failure mid-stream still walks the machine through the end-page,
/// end-document and close calls, in that order and whatever the cleanup
/// calls themselves answer, before the failure is reported with the
/// original code.
pub proof fn lemma_midstream_failure_cleanup(
    job: SpoolJob,
    code: u32,
    r1: SpoolReply,
    r2: SpoolReply,
    r3: SpoolReply,
)
    requires
        job.phase is Streaming,
    ensures
        ({
            let j1 = step_spec(job, SpoolReply::Failure { code });
            let j2 = step_spec(j1, r1);
            let j3 = step_spec(j2, r2);
            let j4 = step_spec(j3, r3);
            &&& next_call_spec(j1) == Some(SpoolCall::EndPage)
            &&& next_call_spec(j2) == Some(SpoolCall::EndDoc)
            &&& next_call_spec(j3) == Some(SpoolCall::Close)
            &&& next_call_spec(j4) is None
            &&& outcome_spec(j4) == Some(
                Err::<(), PrintError>(PrintError::SpoolProtocolError { code }),
            )
        }),
{
}

/// The same guarantee for a failure to begin the page: the begun
/// document is ended and the handle closed before the failure is
/// reported.
pub proof fn lemma_start_page_failure_cleanup(
    job: SpoolJob,
    code: u32,
    r1: SpoolReply,
    r2: SpoolReply,
)
    requires
        job.phase is StartingPage,
    ensures
        ({
            let j1 = step_spec(job, SpoolReply::Failure { code });
            let j2 = step_spec(j1, r1);
            let j3 = step_spec(j2, r2);
            &&& next_call_spec(j1) == Some(SpoolCall::EndDoc)
            &&& next_call_spec(j2) == Some(SpoolCall::Close)
            &&& next_call_spec(j3) is None
            &&& outcome_spec(j3) == Some(
                Err::<(), PrintError>(PrintError::SpoolProtocolError { code }),
            )
        }),
{
}

/// Streaming only ever advances the cursor by the acknowledged count,
/// clamped to the bytes owed in the chunk; a partial acknowledgement
/// keeps the machine streaming the same chunk.
pub proof fn lemma_partial_write_advances(job: SpoolJob, count: usize)
    requires
        job.wf(),
        job.phase is Streaming,
        count <= job.chunk_end - job.cursor,
        job.cursor + count < job.len,
    ensures
        step_spec(job, SpoolReply::Success { count }).cursor == job.cursor + count,
        step_spec(job, SpoolReply::Success { count }).phase is Streaming,
{
}

} // verus!
