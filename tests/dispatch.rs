use pool_requests::api::{FetchError, PoolError, SubmitNonceResponse, SubmitNonceResult};
use pool_requests::requests::{
    handle_submission_result, log_deadline_mismatch, log_pool_busy, log_submission_accepted,
    log_submission_failed, log_submission_not_accepted, LogEntry, SubmissionParameters,
    SubmissionQueue,
};

fn item() -> SubmissionParameters {
    SubmissionParameters {
        address: "A".to_string(),
        nonce: 12,
        deadline: 7123,
        height: 1193,
        gen_sig: [0; 32],
    }
}

fn answer(accept: Option<bool>, deadline: Option<u64>) -> Result<SubmitNonceResponse, FetchError> {
    Ok(SubmitNonceResponse {
        result: SubmitNonceResult { accept, plotid: None, deadline, targetdeadline: None },
        error: None,
        id: "1".to_string(),
    })
}

fn pool_error(code: i32, message: &str) -> Result<SubmitNonceResponse, FetchError> {
    Err(FetchError::Pool(PoolError { code, message: message.to_string() }))
}

#[test]
fn test_submit_nonce() {
    let mut q = SubmissionQueue::new();
    let p = SubmissionParameters {
        address: "someaddress".to_string(),
        nonce: 12,
        deadline: 7123,
        height: 1193,
        gen_sig: [0; 32],
    };
    q.push(p.clone());
    assert_eq!(q.len(), 1);
    assert_eq!(q.pop(), Some(p));
    assert_eq!(q.pop(), None);
}

#[test]
fn accepted_is_final() {
    for accept in [Some(true), None] {
        let (log, retry) = handle_submission_result(item(), answer(accept, Some(7123)));
        assert_eq!(log, LogEntry::SubmissionAccepted { account_id: "A".to_string(), nonce: 12, deadline: 7123 });
        assert_eq!(retry, None);
    }
}

#[test]
fn refused_or_other_deadline_is_mismatch() {
    let cases = [(Some(false), Some(7123)), (Some(true), Some(7000)), (None, None)];
    for (accept, deadline) in cases {
        let (log, retry) = handle_submission_result(item(), answer(accept, deadline));
        assert_eq!(
            log,
            LogEntry::DeadlineMismatch { height: 1193, address: "A".to_string(), nonce: 12, deadline: 7123 }
        );
        assert_eq!(retry, None);
    }
}

#[test]
fn busy_pool_keeps_queue_length() {
    for message in ["", "limit exceeded"] {
        let mut q = SubmissionQueue::new();
        q.push(item());
        q.push(SubmissionParameters { nonce: 13, ..item() });
        let x = q.pop().unwrap();
        let log = q.settle(x, pool_error(0, message));
        assert_eq!(log, LogEntry::PoolBusy { account_id: "A".to_string(), nonce: 12, deadline: 7123 });
        assert_eq!(q.len(), 2);
        assert_eq!(q.pop().unwrap().nonce, 13);
        assert_eq!(q.pop(), Some(item()));
    }
}

#[test]
fn other_pool_error_is_final() {
    let mut q = SubmissionQueue::new();
    let log = q.settle(item(), pool_error(1004, "invalid address"));
    assert_eq!(
        log,
        LogEntry::SubmissionNotAccepted {
            height: 1193,
            account_id: "A".to_string(),
            nonce: 12,
            deadline: 7123,
            code: 1004,
            message: "invalid address".to_string(),
        }
    );
    assert_eq!(q.len(), 0);
}

#[test]
fn near_busy_message_is_final() {
    let (log, retry) = handle_submission_result(item(), pool_error(5, "limit exceeded "));
    assert!(matches!(log, LogEntry::SubmissionNotAccepted { code: 5, .. }));
    assert_eq!(retry, None);
}

#[test]
fn transport_failure_is_retried() {
    let mut q = SubmissionQueue::new();
    let log = q.settle(item(), Err(FetchError::Http("connection refused".to_string())));
    assert_eq!(
        log,
        LogEntry::SubmissionFailed {
            account: "A".to_string(),
            nonce: 12,
            deadline: 7123,
            description: "connection refused".to_string(),
        }
    );
    assert_eq!(q.pop(), Some(item()));
}

#[test]
fn busy_twice_then_accepted() {
    let mut q = SubmissionQueue::new();
    q.push(item());
    let mut logs = Vec::new();
    let answers = vec![pool_error(0, ""), pool_error(0, ""), answer(Some(true), Some(7123))];
    for res in answers {
        let x = q.pop().unwrap();
        logs.push(q.settle(x, res));
    }
    let busy = || LogEntry::PoolBusy { account_id: "A".to_string(), nonce: 12, deadline: 7123 };
    let accepted = LogEntry::SubmissionAccepted { account_id: "A".to_string(), nonce: 12, deadline: 7123 };
    assert_eq!(logs, vec![busy(), busy(), accepted]);
    assert_eq!(q.len(), 0);
}

#[test]
fn log_builders() {
    assert_eq!(
        log_deadline_mismatch(1, "x".to_string(), 2, 3),
        LogEntry::DeadlineMismatch { height: 1, address: "x".to_string(), nonce: 2, deadline: 3 }
    );
    assert_eq!(
        log_submission_failed("x".to_string(), 2, 3, "eof"),
        LogEntry::SubmissionFailed { account: "x".to_string(), nonce: 2, deadline: 3, description: "eof".to_string() }
    );
    assert_eq!(
        log_submission_not_accepted(1, "x".to_string(), 2, 3, -4, "no"),
        LogEntry::SubmissionNotAccepted {
            height: 1,
            account_id: "x".to_string(),
            nonce: 2,
            deadline: 3,
            code: -4,
            message: "no".to_string(),
        }
    );
    assert_eq!(
        log_submission_accepted("x".to_string(), 2, 3),
        LogEntry::SubmissionAccepted { account_id: "x".to_string(), nonce: 2, deadline: 3 }
    );
    assert_eq!(log_pool_busy("x".to_string(), 2, 3), LogEntry::PoolBusy { account_id: "x".to_string(), nonce: 2, deadline: 3 });
}
