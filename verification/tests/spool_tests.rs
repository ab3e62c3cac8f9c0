use printroute::errors::PrintError;
use printroute::spool::{next_call, outcome, start, step, SpoolCall, SpoolReply};

/// Drives the machine against a fake device, recording the call order.
fn drive<F: FnMut(&SpoolCall) -> SpoolReply>(
    len: usize,
    mut device: F,
) -> (Vec<SpoolCall>, Result<(), PrintError>) {
    let mut job = start(len);
    let mut calls: Vec<SpoolCall> = Vec::new();
    while let Some(call) = next_call(&job) {
        let reply = device(&call);
        calls.push(call);
        job = step(job, reply);
    }
    (calls, outcome(&job).unwrap())
}

fn all_ok(call: &SpoolCall) -> SpoolReply {
    match call {
        SpoolCall::Write { len, .. } => SpoolReply::Success { count: *len },
        _ => SpoolReply::Success { count: 0 },
    }
}

#[test]
fn empty_file_produces_document_page_pair_with_no_writes() {
    let (calls, result) = drive(0, all_ok);
    assert_eq!(
        calls,
        vec![
            SpoolCall::Open,
            SpoolCall::StartDoc,
            SpoolCall::StartPage,
            SpoolCall::EndPage,
            SpoolCall::EndDoc,
            SpoolCall::Close,
        ]
    );
    assert!(result.is_ok());
}

#[test]
fn small_file_is_written_in_one_chunk() {
    let (calls, result) = drive(100, all_ok);
    assert_eq!(
        calls,
        vec![
            SpoolCall::Open,
            SpoolCall::StartDoc,
            SpoolCall::StartPage,
            SpoolCall::Write { offset: 0, len: 100 },
            SpoolCall::EndPage,
            SpoolCall::EndDoc,
            SpoolCall::Close,
        ]
    );
    assert!(result.is_ok());
}

#[test]
fn large_file_is_chunked() {
    let (calls, result) = drive(5000, all_ok);
    assert_eq!(
        calls,
        vec![
            SpoolCall::Open,
            SpoolCall::StartDoc,
            SpoolCall::StartPage,
            SpoolCall::Write { offset: 0, len: 4096 },
            SpoolCall::Write { offset: 4096, len: 904 },
            SpoolCall::EndPage,
            SpoolCall::EndDoc,
            SpoolCall::Close,
        ]
    );
    assert!(result.is_ok());
}

#[test]
fn partial_writes_advance_by_the_acknowledged_count() {
    let mut first = true;
    let (calls, result) = drive(5000, |call| match call {
        SpoolCall::Write { len, .. } => {
            if first {
                first = false;
                SpoolReply::Success { count: 1000 }
            } else {
                SpoolReply::Success { count: *len }
            }
        }
        _ => SpoolReply::Success { count: 0 },
    });
    assert_eq!(
        calls,
        vec![
            SpoolCall::Open,
            SpoolCall::StartDoc,
            SpoolCall::StartPage,
            SpoolCall::Write { offset: 0, len: 4096 },
            SpoolCall::Write { offset: 1000, len: 3096 },
            SpoolCall::Write { offset: 4096, len: 904 },
            SpoolCall::EndPage,
            SpoolCall::EndDoc,
            SpoolCall::Close,
        ]
    );
    assert!(result.is_ok());
}

#[test]
fn midstream_failure_still_ends_page_document_and_closes() {
    let (calls, result) = drive(5000, |call| match call {
        SpoolCall::Write { .. } => SpoolReply::Failure { code: 31 },
        _ => SpoolReply::Success { count: 0 },
    });
    assert_eq!(
        calls,
        vec![
            SpoolCall::Open,
            SpoolCall::StartDoc,
            SpoolCall::StartPage,
            SpoolCall::Write { offset: 0, len: 4096 },
            SpoolCall::EndPage,
            SpoolCall::EndDoc,
            SpoolCall::Close,
        ]
    );
    assert!(matches!(
        result,
        Err(PrintError::SpoolProtocolError { code: 31 })
    ));
}

#[test]
fn cleanup_runs_even_when_cleanup_calls_fail() {
    let (calls, result) = drive(5000, |call| match call {
        SpoolCall::Write { .. } => SpoolReply::Failure { code: 31 },
        SpoolCall::EndPage | SpoolCall::EndDoc => SpoolReply::Failure { code: 99 },
        _ => SpoolReply::Success { count: 0 },
    });
    assert_eq!(
        &calls[3..],
        &[
            SpoolCall::Write { offset: 0, len: 4096 },
            SpoolCall::EndPage,
            SpoolCall::EndDoc,
            SpoolCall::Close,
        ]
    );
    // the original failure code is the one reported
    assert!(matches!(
        result,
        Err(PrintError::SpoolProtocolError { code: 31 })
    ));
}

#[test]
fn open_failure_reports_without_any_further_calls() {
    let (calls, result) = drive(100, |call| match call {
        SpoolCall::Open => SpoolReply::Failure { code: 5 },
        _ => SpoolReply::Success { count: 0 },
    });
    assert_eq!(calls, vec![SpoolCall::Open]);
    assert!(matches!(result, Err(PrintError::PrinterOpenError { code: 5 })));
}

#[test]
fn start_doc_failure_still_closes_the_handle() {
    let (calls, result) = drive(100, |call| match call {
        SpoolCall::StartDoc => SpoolReply::Failure { code: 6 },
        _ => SpoolReply::Success { count: 0 },
    });
    assert_eq!(
        calls,
        vec![SpoolCall::Open, SpoolCall::StartDoc, SpoolCall::Close]
    );
    assert!(matches!(result, Err(PrintError::SpoolProtocolError { code: 6 })));
}

#[test]
fn start_page_failure_ends_document_before_closing() {
    let (calls, result) = drive(100, |call| match call {
        SpoolCall::StartPage => SpoolReply::Failure { code: 7 },
        _ => SpoolReply::Success { count: 0 },
    });
    assert_eq!(
        calls,
        vec![
            SpoolCall::Open,
            SpoolCall::StartDoc,
            SpoolCall::StartPage,
            SpoolCall::EndDoc,
            SpoolCall::Close,
        ]
    );
    assert!(matches!(result, Err(PrintError::SpoolProtocolError { code: 7 })));
}

#[test]
fn end_page_failure_still_ends_the_document() {
    let (calls, result) = drive(0, |call| match call {
        SpoolCall::EndPage => SpoolReply::Failure { code: 8 },
        _ => SpoolReply::Success { count: 0 },
    });
    assert_eq!(
        calls,
        vec![
            SpoolCall::Open,
            SpoolCall::StartDoc,
            SpoolCall::StartPage,
            SpoolCall::EndPage,
            SpoolCall::EndDoc,
            SpoolCall::Close,
        ]
    );
    assert!(matches!(result, Err(PrintError::SpoolProtocolError { code: 8 })));
}

#[test]
fn write_acknowledged_with_zero_makes_no_progress_but_stays_streaming() {
    // a zero acknowledgement repeats the same write call
    let mut zeros = 2;
    let (calls, result) = drive(10, |call| match call {
        SpoolCall::Write { len, .. } => {
            if zeros > 0 {
                zeros -= 1;
                SpoolReply::Success { count: 0 }
            } else {
                SpoolReply::Success { count: *len }
            }
        }
        _ => SpoolReply::Success { count: 0 },
    });
    assert_eq!(
        &calls[3..6],
        &[
            SpoolCall::Write { offset: 0, len: 10 },
            SpoolCall::Write { offset: 0, len: 10 },
            SpoolCall::Write { offset: 0, len: 10 },
        ]
    );
    assert!(result.is_ok());
}
