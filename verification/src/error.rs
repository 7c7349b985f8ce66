//! Evaluation errors, decoded into owned text.

use crate::step::{Draft, ErrorField, Step, StepView};
use crate::value::RebValue;
use vstd::prelude::*;

verus! {

/// The categories of error that the runtime is known to raise.
pub enum RebErrorType {
    Math,
}

/// An error raised by a script, as a snapshot that holds no runtime handle.
#[derive(Debug)]
pub enum RebError {
    RebError {
        /// The category, in quoted spelling.
        type_: String,
        /// The identifier, in quoted spelling.
        id: String,
        /// The message, in plain spelling.
        message: String,
        /// Source text near the error. Not decoded yet: always empty.
        near: String,
        /// The call stack. Not decoded yet: always empty.
        where_: String,
        /// The originating file, in quoted spelling.
        file: String,
        /// The line. Not decoded yet: always zero.
        line: u32,
    },
}

/// What a [`RebError`] holds.
pub struct ErrorView {
    pub type_: Seq<char>,
    pub id: Seq<char>,
    pub message: Seq<char>,
    pub near: Seq<char>,
    pub where_: Seq<char>,
    pub file: Seq<char>,
    pub line: u32,
}

impl ErrorView {
    /// The error with the four decoded texts, and the reserved fields left at
    /// their empty values.
    pub open spec fn decoded(
        type_: Seq<char>,
        id: Seq<char>,
        message: Seq<char>,
        file: Seq<char>,
    ) -> ErrorView {
        ErrorView {
            type_,
            id,
            message,
            near: Seq::empty(),
            where_: Seq::empty(),
            file,
            line: 0,
        }
    }
}

impl View for RebError {
    type V = ErrorView;

    open spec fn view(&self) -> ErrorView {
        match self {
            RebError::RebError { type_, id, message, near, where_, file, line } => ErrorView {
                type_: type_@,
                id: id@,
                message: message@,
                near: near@,
                where_: where_@,
                file: file@,
                line: *line,
            },
        }
    }
}

impl RebError {
    /// Builds the snapshot from the four texts that decoding yields.
    pub fn from_fields(type_: String, id: String, message: String, file: String) -> (r: RebError)
        ensures
            r@ == ErrorView::decoded(type_@, id@, message@, file@),
    {
        RebError::RebError {
            type_,
            id,
            message,
            near: String::new(),
            where_: String::new(),
            file,
            line: 0,
        }
    }

    /// Decodes the error value `e`, which stays with the caller. Four fields
    /// are fetched in turn, spelled, and their values released; the operation
    /// ends in the decoded error.
    pub fn from_rebval<'a>(e: &RebValue) -> (r: Step<'a>)
        ensures
            r@ == StepView::decode(e.handle()),
            r@.well_terminated(),
    {
        Draft::blank(e.as_raw(), true).fetch(ErrorField::Type)
    }
}

} // verus!
