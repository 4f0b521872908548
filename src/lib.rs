//! Submission pipeline of a mining client: the codec for the pool's JSON-RPC
//! answers, the classification of each answer, and the queue of pending
//! submissions that transient failures feed back into.

pub mod api;
pub mod json;
pub mod requests;
