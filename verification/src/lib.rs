//! A protocol core for hosting a single-instance scripting runtime.
//!
//! The runtime itself is reached by a host, through its native interface.
//! This library decides what the host has to call and what the answers mean:
//! it guards that one runtime at most is active, ties every value to the
//! engine that made it, and lays down how fragments are evaluated, errors
//! trapped and decoded, results unwrapped and references released.

pub mod call;
pub mod code;
pub mod engine;
pub mod error;
pub mod lease;
pub mod run;
pub mod step;
pub mod value;

pub use crate::call::{Effect, Reading, Source, Spelling};
pub use crate::code::{CUtf8, Fragment, RebCode, REB_END};
pub use crate::engine::RebEngine;
pub use crate::error::{RebError, RebErrorType};
pub use crate::lease::Lease;
pub use crate::step::{AfterEffect, AfterFlag, AfterText, AfterValue, Outcome, Step};
pub use crate::value::{spelled_text, RebValue};
