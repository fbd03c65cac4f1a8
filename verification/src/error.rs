//! The errors an invocation can end with, and their wording.

use vstd::prelude::*;
use vstd::string::*;

verus! {

/// Why an invocation failed.
///
/// Every failure is final for its invocation: nothing is retried, and no
/// partial output accompanies an error.
#[derive(Debug, PartialEq, Eq)]
pub enum BindingError {
    /// The level argument was not one of 0, 1 and 3.
    InvalidLevel,
    /// The codec failed while compressing; holds the codec's own text.
    Compression(String),
    /// The codec failed while decompressing; holds the codec's own text.
    Decompression(String),
}

/// Mathematical model of a [`BindingError`].
pub enum ErrorView {
    InvalidLevel,
    Compression(Seq<char>),
    Decompression(Seq<char>),
}

impl View for BindingError {
    type V = ErrorView;

    open spec fn view(&self) -> ErrorView {
        match self {
            BindingError::InvalidLevel => ErrorView::InvalidLevel,
            BindingError::Compression(detail) => ErrorView::Compression(detail@),
            BindingError::Decompression(detail) => ErrorView::Decompression(detail@),
        }
    }
}

impl ErrorView {
    /// The text shown to the caller for this error.
    pub open spec fn message(self) -> Seq<char> {
        match self {
            ErrorView::InvalidLevel => "Invalid compression level. Must be 0, 1, or 3"@,
            ErrorView::Compression(detail) => "Compression failed: "@ + detail,
            ErrorView::Decompression(detail) => "Decompression failed: "@ + detail,
        }
    }
}

impl BindingError {
    /// The text shown to the caller: a fixed sentence for a rejected level,
    /// otherwise a fixed prefix followed by the codec's text, unchanged.
    pub fn message(&self) -> (text: String)
        ensures
            text@ == self@.message(),
    {
        match self {
            BindingError::InvalidLevel => String::from_str(
                "Invalid compression level. Must be 0, 1, or 3",
            ),
            BindingError::Compression(detail) => String::from_str("Compression failed: ").concat(
                detail.as_str(),
            ),
            BindingError::Decompression(detail) => String::from_str(
                "Decompression failed: ",
            ).concat(detail.as_str()),
        }
    }
}

} // verus!
