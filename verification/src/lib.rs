//! Capturing the diagnostic dump of a remote service through a pipe.
//!
//! A remote service writes its dump into a stream it is given instead of
//! returning it. To hear what it says, a dump call makes a pipe, lets a worker
//! thread pass the writing end to the service, and drains the reading end on
//! the calling thread until the stream ends; one thread alone would block on
//! a full pipe that nobody empties.
//!
//! This crate holds every decision of that call: the copy of the arguments
//! that the worker takes along ([`args`]), the capture that gathers what is
//! read and knows when to stop ([`capture`]), the decoding of the bytes
//! ([`text`]) and the result to return for each way the call can end
//! ([`capture::Capture::finish`], [`error`]). Making the pipe, running the
//! worker and calling the service are left to the caller of these functions.

pub mod args;
pub mod capture;
pub mod dumpsys;
pub mod error;
pub mod text;

pub use crate::capture::Capture;
pub use crate::dumpsys::Dumpsys;
pub use crate::error::{DumpError, StatusCode};
