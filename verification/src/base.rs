//! Bookkeeping of requests that wait for a response.

pub mod pending_responses;
pub mod response_future;
