//! A weather lookup library.
//!
//! The crate models the logic of a small command-line weather tool that can
//! query one of two interchangeable third-party weather HTTP services.  The
//! library owns everything that can be decided without touching the network:
//! parsing the command line, validating and interpreting calendar dates,
//! choosing between current, historical and forecast queries, building the
//! exact request URLs, managing the credential registry, and reshaping the
//! responses.  An unverified shell around the crate performs the HTTP calls,
//! environment loading and on-disk configuration that the library plans for
//! it.

pub mod dates;
pub mod error;
pub mod prompt_agent;
pub mod provider;
pub mod text;
pub mod urlenc;
