//! Allow running external commands and properly handle its success
//! and failures.
//!
//! [`run`] does inline parsing of a literal command line string (handling
//! escape codes and splitting at whitespace), starts the program, waits
//! for it and checks its exit status. If the program did not succeed, the
//! result is an `Err(...)` that holds the status and everything the
//! program printed, instead of an `Ok(...)`.
//!
//! The crate is laid out by what is known about each part:
//!
//! - [`words`] splits a command line into a program and its arguments and
//!   says which lines can be split.
//! - [`launch`] runs the program and turns what came back into the result.
//!   What a program prints and how it exits is not known beforehand;
//!   [`outcome`] says what the result is for everything it may do.
//! - [`output`], [`status`] and [`error`] hold the values that a run gives.
//! - [`piped`] decides the steps of a run whose standard input the caller
//!   writes.
//!
//! # Example
//!
//! ```
//! // stdout
//! let output = easy_process::run(r#"sh -c 'echo "1 2 3 4"'"#).unwrap();
//! assert_eq!(&output.stdout, "1 2 3 4\n");
//!
//! // stderr
//! let output = easy_process::run(r#"sh -c 'echo "1 2 3 4" >&2'"#).unwrap();
//! assert_eq!(&output.stderr, "1 2 3 4\n");
//! ```

pub mod error;
pub mod launch;
pub mod output;
pub mod piped;
pub mod status;
pub mod words;

pub use error::{CommandError, Error, Result};
pub use launch::{outcome, run, try_run};
pub use output::{Captured, Output};
pub use status::ExitStatus;
pub use words::{can_split, setup_process, CommandLine};
