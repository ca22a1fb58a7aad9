//! Core of an identity proxy that multiplexes many concurrent callers onto a
//! single, exclusively owned directory-backend session.
//!
//! The hard part of the proxy is not the directory protocol itself but the
//! multiplexing: turning N concurrent requesters into a strictly sequential
//! stream of operations against one non-shareable connection, while returning
//! each requester exactly one correlated result. This crate verifies that
//! logic:
//!
//! - [`outcome`] defines the per-request result and the error taxonomy;
//! - [`worker`] holds the worker's decision functions: whether a dequeued
//!   request may be executed, and how a backend event is classified into an
//!   outcome and a next backend state;
//! - [`system`] models the whole dispatcher / work-queue / worker system as a
//!   single state machine and proves its ordering, backpressure, ownership
//!   and failure-isolation laws;
//! - [`render`] turns the entries of a directory search result into the
//!   response body;
//! - [`config`] holds the process configuration data.
//!
//! The asynchronous shell (HTTP transport, the live directory session, the
//! channel that realizes the work queue) lives outside this crate and calls
//! into these functions for every decision it makes.

pub mod config;
pub mod outcome;
pub mod render;
pub mod system;
pub mod worker;
