//! The errors that validation reports.

use vstd::prelude::*;
use vstd::string::StringExecFns;

verus! {

/// Why a raw text was refused. Each variant carries the reason in words.
#[derive(Debug, Clone)]
pub enum ValidationError {
    /// The text is no acceptable SQL identifier.
    InvalidIdentifier(String),
    /// The text is no acceptable time interval.
    InvalidInterval(String),
}

/// A `ValidationError` with its reason as a sequence of characters.
pub enum ValidationErrorView {
    InvalidIdentifier(Seq<char>),
    InvalidInterval(Seq<char>),
}

impl View for ValidationError {
    type V = ValidationErrorView;

    open spec fn view(&self) -> ValidationErrorView {
        match self {
            ValidationError::InvalidIdentifier(reason) => ValidationErrorView::InvalidIdentifier(
                reason@,
            ),
            ValidationError::InvalidInterval(reason) => ValidationErrorView::InvalidInterval(
                reason@,
            ),
        }
    }
}

/// The line that describes an error to a reader: a prefix that names the kind
/// of error, then the reason.
pub open spec fn error_text(e: ValidationErrorView) -> Seq<char> {
    match e {
        ValidationErrorView::InvalidIdentifier(reason) => "Invalid SQL identifier: "@ + reason,
        ValidationErrorView::InvalidInterval(reason) => "Invalid time interval: "@ + reason,
    }
}

impl ValidationError {
    /// The error as one line of text.
    pub fn to_string(&self) -> (r: String)
        ensures
            r@ == error_text(self@),
    {
        match self {
            ValidationError::InvalidIdentifier(reason) => {
                String::from_str("Invalid SQL identifier: ").concat(reason.as_str())
            },
            ValidationError::InvalidInterval(reason) => {
                String::from_str("Invalid time interval: ").concat(reason.as_str())
            },
        }
    }
}

} // verus!
