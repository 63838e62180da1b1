//! The error taxonomy shared by the query clients.

use vstd::prelude::*;

verus! {

/// Mathematical view of an [`ApiError`]: the same variants, with every
/// string replaced by its sequence of characters.
pub enum ErrorView {
    MissingCredentials { missing: Seq<Seq<char>> },
    TransportError { detail: Seq<char> },
    RequestFailed { status: u16, body: Seq<char> },
    MalformedTerm { what: Seq<char> },
    MalformedIssue { field: Seq<char> },
    MalformedItem { field: Seq<char> },
}

/// An error surfaced by a client operation. Every operation returns the
/// first error met; none is swallowed, none panics.
#[derive(Debug)]
pub enum ApiError {
    /// Credential resolution failed; `missing` names each absent lookup key.
    MissingCredentials { missing: Vec<String> },
    /// The transport layer failed before a response was obtained (DNS,
    /// connection refused, timeout). Constructed by the caller that performs
    /// the HTTP call; the library itself never produces it.
    TransportError { detail: String },
    /// The response carried a status other than 200; `body` holds the
    /// response body read for diagnostics.
    RequestFailed { status: u16, body: String },
    /// A graph-query term or result set did not have the expected shape;
    /// `what` names the offending discriminant or field.
    MalformedTerm { what: String },
    /// An issue-tracker record did not have the expected shape; `field`
    /// names the offending field.
    MalformedIssue { field: String },
    /// A bookmark record did not have the expected shape; `field` names the
    /// offending field.
    MalformedItem { field: String },
}

impl View for ApiError {
    type V = ErrorView;

    open spec fn view(&self) -> ErrorView {
        match self {
            ApiError::MissingCredentials { missing } => ErrorView::MissingCredentials {
                missing: missing.deep_view(),
            },
            ApiError::TransportError { detail } => ErrorView::TransportError {
                detail: detail@,
            },
            ApiError::RequestFailed { status, body } => ErrorView::RequestFailed {
                status: *status,
                body: body@,
            },
            ApiError::MalformedTerm { what } => ErrorView::MalformedTerm { what: what@ },
            ApiError::MalformedIssue { field } => ErrorView::MalformedIssue { field: field@ },
            ApiError::MalformedItem { field } => ErrorView::MalformedItem { field: field@ },
        }
    }
}

} // verus!
