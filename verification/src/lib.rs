//! Decision logic of a gateway that runs commands in one worker container
//! and serves the worker's text output over HTTP.
//!
//! The crate decides and never waits: it holds no socket, no lock and no
//! task. [`lifecycle`] rules the life of the container, [`router`] reads the
//! path of a request, [`handler`] answers it from the [`cache`] or names the
//! command to run, and [`bridge`] follows the run of that command to its
//! output. The program around the crate does what it is told and reports
//! back.

pub mod bridge;
pub mod cache;
pub mod handler;
pub mod lifecycle;
pub mod operation;
pub mod router;
pub mod text;

pub use crate::cache::{check_cache, insert_cache, Request, ResponseCache};
