//! The dispatcher of nonce submissions: how each answer of the pool is
//! classified, what is logged of it, and the queue that transient failures
//! feed back into.

use vstd::prelude::*;
use crate::api::{FetchError, SubmitNonceResponse};
use std::collections::VecDeque;

verus! {

/// One submission: the deadline found for a nonce, with what identifies it.
#[derive(Debug, Clone, PartialEq)]
pub struct SubmissionParameters {
    pub address: String,
    pub nonce: u64,
    pub deadline: u64,
    pub height: u64,
    pub gen_sig: [u8; 32],
}

/// The record written for each outcome of a submission.
#[derive(Debug, PartialEq)]
pub enum LogEntry {
    /// The pool refused the deadline or answered with another one.
    DeadlineMismatch { height: u64, address: String, nonce: u64, deadline: u64 },
    /// The transport failed; the submission is tried again.
    SubmissionFailed { account: String, nonce: u64, deadline: u64, description: String },
    /// The pool rejected the submission for good.
    SubmissionNotAccepted {
        height: u64,
        account_id: String,
        nonce: u64,
        deadline: u64,
        code: i32,
        message: String,
    },
    /// The pool accepted the deadline.
    SubmissionAccepted { account_id: String, nonce: u64, deadline: u64 },
    /// The pool is overloaded; the submission is tried again.
    PoolBusy { account_id: String, nonce: u64, deadline: u64 },
}

/// The record of an answer that refuses the deadline or holds another one.
pub fn log_deadline_mismatch(height: u64, address: String, nonce: u64, deadline: u64) -> (r: LogEntry)
    ensures
        r == (LogEntry::DeadlineMismatch { height, address, nonce, deadline }),
{
    LogEntry::DeadlineMismatch { height, address, nonce, deadline }
}

/// The record of a transport failure, with its description.
pub fn log_submission_failed(account: String, nonce: u64, deadline: u64, err: &str) -> (r: LogEntry)
    ensures
        r matches LogEntry::SubmissionFailed { account: a, nonce: n, deadline: d, description }
            && a == account && n == nonce && d == deadline && description@ == err@,
{
    LogEntry::SubmissionFailed { account, nonce, deadline, description: String::from_str(err) }
}

/// The record of a rejection by the pool, with the error's code and message.
pub fn log_submission_not_accepted(
    height: u64,
    account_id: String,
    nonce: u64,
    deadline: u64,
    err_code: i32,
    msg: &str,
) -> (r: LogEntry)
    ensures
        r matches LogEntry::SubmissionNotAccepted { height: h, account_id: a, nonce: n, deadline: d, code, message }
            && h == height && a == account_id && n == nonce && d == deadline && code == err_code
            && message@ == msg@,
{
    LogEntry::SubmissionNotAccepted {
        height,
        account_id,
        nonce,
        deadline,
        code: err_code,
        message: String::from_str(msg),
    }
}

/// The record of an accepted deadline.
pub fn log_submission_accepted(account_id: String, nonce: u64, deadline: u64) -> (r: LogEntry)
    ensures
        r == (LogEntry::SubmissionAccepted { account_id, nonce, deadline }),
{
    LogEntry::SubmissionAccepted { account_id, nonce, deadline }
}

/// The record of a busy pool.
pub fn log_pool_busy(account_id: String, nonce: u64, deadline: u64) -> (r: LogEntry)
    ensures
        r == (LogEntry::PoolBusy { account_id, nonce, deadline }),
{
    LogEntry::PoolBusy { account_id, nonce, deadline }
}

/// A pool error that only means the pool is overloaded: an empty message, or
/// exactly `limit exceeded`.
pub open spec fn is_busy_message(m: Seq<char>) -> bool {
    m.len() == 0 || m == "limit exceeded"@
}

/// Whether the pool's answer holds the submission's own deadline, accepted.
pub open spec fn confirms(item: SubmissionParameters, r: SubmitNonceResponse) -> bool {
    r.result.accept != Some(false) && r.result.deadline == Some(item.deadline)
}

/// The record written for the outcome of submitting `item`.
pub open spec fn log_of(item: SubmissionParameters, res: Result<SubmitNonceResponse, FetchError>) -> LogEntry {
    match res {
        Ok(r) => if confirms(item, r) {
            LogEntry::SubmissionAccepted { account_id: item.address, nonce: item.nonce, deadline: item.deadline }
        } else {
            LogEntry::DeadlineMismatch {
                height: item.height,
                address: item.address,
                nonce: item.nonce,
                deadline: item.deadline,
            }
        },
        Err(FetchError::Pool(e)) => if is_busy_message(e.message@) {
            LogEntry::PoolBusy { account_id: item.address, nonce: item.nonce, deadline: item.deadline }
        } else {
            LogEntry::SubmissionNotAccepted {
                height: item.height,
                account_id: item.address,
                nonce: item.nonce,
                deadline: item.deadline,
                code: e.code,
                message: e.message,
            }
        },
        Err(FetchError::Http(d)) => LogEntry::SubmissionFailed {
            account: item.address,
            nonce: item.nonce,
            deadline: item.deadline,
            description: d,
        },
    }
}

/// The outcomes after which the submission is tried again.
pub open spec fn is_retried(l: LogEntry) -> bool {
    l is PoolBusy || l is SubmissionFailed
}

fn is_busy(message: &String) -> (r: bool)
    ensures
        r == is_busy_message(message@),
{
    let limit = String::from_str("limit exceeded");
    message.as_str().is_empty() || *message == limit
}

/// Classifies the pool's answer to `item`: returns the record to write, and
/// the item itself where it must be submitted again.
pub fn handle_submission_result(
    item: SubmissionParameters,
    res: Result<SubmitNonceResponse, FetchError>,
) -> (r: (LogEntry, Option<SubmissionParameters>))
    ensures
        r.0 == log_of(item, res),
        r.1 == (if is_retried(r.0) { Some(item) } else { None::<SubmissionParameters> }),
{
    match res {
        Ok(resp) => {
            let accepted = match resp.result.accept {
                Some(a) => a,
                None => true,
            };
            let same = match resp.result.deadline {
                Some(d) => d == item.deadline,
                None => false,
            };
            if !accepted || !same {
                (log_deadline_mismatch(item.height, item.address, item.nonce, item.deadline), None)
            } else {
                (log_submission_accepted(item.address, item.nonce, item.deadline), None)
            }
        },
        Err(FetchError::Pool(e)) => {
            if is_busy(&e.message) {
                (log_pool_busy(item.address.clone(), item.nonce, item.deadline), Some(item))
            } else {
                let log = LogEntry::SubmissionNotAccepted {
                    height: item.height,
                    account_id: item.address,
                    nonce: item.nonce,
                    deadline: item.deadline,
                    code: e.code,
                    message: e.message,
                };
                (log, None)
            }
        },
        Err(FetchError::Http(d)) => {
            let log = LogEntry::SubmissionFailed {
                account: item.address.clone(),
                nonce: item.nonce,
                deadline: item.deadline,
                description: d,
            };
            (log, Some(item))
        },
    }
}

/// The queue after the outcome `res` of submitting `item`: the item goes back
/// at the end where it is tried again, and the queue stays as it was otherwise.
pub open spec fn settled(
    q: Seq<SubmissionParameters>,
    item: SubmissionParameters,
    res: Result<SubmitNonceResponse, FetchError>,
) -> Seq<SubmissionParameters> {
    if is_retried(log_of(item, res)) {
        q.push(item)
    } else {
        q
    }
}

/// A model of the submission channel: the pending submissions, first in
/// first out, where fresh items and items that failed for a transient reason
/// wait together. The dispatcher's rules are stated over it.
pub struct SubmissionQueue {
    items: VecDeque<SubmissionParameters>,
}

impl View for SubmissionQueue {
    type V = Seq<SubmissionParameters>;

    closed spec fn view(&self) -> Seq<SubmissionParameters> {
        self.items@
    }
}

impl SubmissionQueue {
    pub fn new() -> (r: SubmissionQueue)
        ensures
            r@ == Seq::<SubmissionParameters>::empty(),
    {
        SubmissionQueue { items: VecDeque::new() }
    }

    pub fn len(&self) -> (r: usize)
        ensures
            r == self@.len(),
    {
        self.items.len()
    }

    /// Adds a submission at the end.
    pub fn push(&mut self, item: SubmissionParameters)
        ensures
            final(self)@ == old(self)@.push(item),
    {
        self.items.push_back(item);
    }

    /// Takes the submission at the front, the next to dispatch.
    pub fn pop(&mut self) -> (r: Option<SubmissionParameters>)
        ensures
            match r {
                Some(x) => old(self)@.len() > 0 && x == old(self)@[0]
                    && final(self)@ == old(self)@.drop_first(),
                None => old(self)@.len() == 0 && final(self)@ == old(self)@,
            },
    {
        let r = self.items.pop_front();
        proof {
            if r is Some {
                assert(old(self)@.subrange(1, old(self)@.len() as int) =~= old(self)@.drop_first());
            }
        }
        r
    }

    /// Takes in the pool's answer to a dispatched `item`: returns the record
    /// to write, and puts the item back at the end where it is tried again.
    pub fn settle(&mut self, item: SubmissionParameters, res: Result<SubmitNonceResponse, FetchError>) -> (r: LogEntry)
        ensures
            r == log_of(item, res),
            final(self)@ == settled(old(self)@, item, res),
    {
        let (log, retry) = handle_submission_result(item, res);
        if let Some(again) = retry {
            self.items.push_back(again);
        }
        log
    }
}

/// An answer that holds the submission's own deadline, not refused, is
/// recorded as accepted, and the item leaves the queue for good.
pub proof fn lemma_accepted_is_final(
    q: Seq<SubmissionParameters>,
    item: SubmissionParameters,
    r: SubmitNonceResponse,
)
    requires
        r.result.accept != Some(false),
        r.result.deadline == Some(item.deadline),
    ensures
        log_of(item, Ok(r)) == (LogEntry::SubmissionAccepted {
            account_id: item.address,
            nonce: item.nonce,
            deadline: item.deadline,
        }),
        settled(q, item, Ok(r)) == q,
{
}

/// An answer that refuses the deadline, or holds another one, is recorded as
/// a mismatch, and the item leaves the queue for good.
pub proof fn lemma_mismatch_is_final(
    q: Seq<SubmissionParameters>,
    item: SubmissionParameters,
    r: SubmitNonceResponse,
)
    requires
        r.result.accept == Some(false) || r.result.deadline != Some(item.deadline),
    ensures
        log_of(item, Ok(r)) == (LogEntry::DeadlineMismatch {
            height: item.height,
            address: item.address,
            nonce: item.nonce,
            deadline: item.deadline,
        }),
        settled(q, item, Ok(r)) == q,
{
}

/// A pool error with an empty message or `limit exceeded` is recorded as a
/// busy pool and puts the item back once; taking the front item and settling
/// it so leaves the queue as long as it was.
pub proof fn lemma_busy_pool_retries(
    q: Seq<SubmissionParameters>,
    item: SubmissionParameters,
    e: crate::api::PoolError,
)
    requires
        e.message@.len() == 0 || e.message@ == "limit exceeded"@,
    ensures
        log_of(item, Err(FetchError::Pool(e))) == (LogEntry::PoolBusy {
            account_id: item.address,
            nonce: item.nonce,
            deadline: item.deadline,
        }),
        settled(q, item, Err(FetchError::Pool(e))) == q.push(item),
        q.len() > 0 ==> settled(q.drop_first(), q[0], Err(FetchError::Pool(e))).len() == q.len(),
{
}

/// Any other pool error drops the item for good, recorded with the error's
/// code and message.
pub proof fn lemma_pool_rejection_is_final(
    q: Seq<SubmissionParameters>,
    item: SubmissionParameters,
    e: crate::api::PoolError,
)
    requires
        e.message@.len() > 0,
        e.message@ != "limit exceeded"@,
    ensures
        log_of(item, Err(FetchError::Pool(e))) == (LogEntry::SubmissionNotAccepted {
            height: item.height,
            account_id: item.address,
            nonce: item.nonce,
            deadline: item.deadline,
            code: e.code,
            message: e.message,
        }),
        settled(q, item, Err(FetchError::Pool(e))) == q,
{
}

/// A transport failure of any kind puts the item back exactly once.
pub proof fn lemma_transport_failure_retries(
    q: Seq<SubmissionParameters>,
    item: SubmissionParameters,
    description: String,
)
    ensures
        log_of(item, Err(FetchError::Http(description))) is SubmissionFailed,
        settled(q, item, Err(FetchError::Http(description))) == q.push(item),
{
}

} // verus!
