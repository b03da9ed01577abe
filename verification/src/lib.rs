//! Session and credential broker for a reverse proxy in front of the
//! Homeworker school-scheduling API.
//!
//! The crate holds the decisions of the gateway: what a request is answered
//! with, which outbound call it needs first, and how the cookies that carry
//! the session change. It performs no I/O. A caller feeds it the requests and
//! the outcomes of the outbound calls, and carries out the actions it returns.

pub mod cookie;
pub mod error;
pub mod gateway;
pub mod lifecycle;
pub mod message;
pub mod session;
pub mod timetable;
