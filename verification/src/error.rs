//! The failures that a fetch meets, and the errors that it reports.

use crate::tool::{ToolSpec, ToolSpecView};
use vstd::prelude::*;

verus! {

/// What the transport layer reports when it could not deliver.
#[derive(Debug, PartialEq, Eq)]
pub enum TransportError {
    /// The server answered, with an HTTP status code that is no success.
    Http {
        /// The status code, as a number.
        code: u16,
        /// The failure in words.
        message: String,
    },
    /// Anything else: a refused connection, a timeout, a broken archive, ...
    Other {
        /// The failure in words.
        message: String,
    },
}

/// The mathematical value of a [`TransportError`].
pub enum TransportErrorView {
    Http { code: u16, message: Seq<char> },
    Other { message: Seq<char> },
}

impl View for TransportError {
    type V = TransportErrorView;

    open spec fn view(&self) -> TransportErrorView {
        match *self {
            TransportError::Http { code, message } => TransportErrorView::Http {
                code,
                message: message@,
            },
            TransportError::Other { message } => TransportErrorView::Other { message: message@ },
        }
    }
}

impl TransportErrorView {
    /// The failure in words.
    pub open spec fn message(self) -> Seq<char> {
        match self {
            TransportErrorView::Http { message, .. } => message,
            TransportErrorView::Other { message } => message,
        }
    }

    /// Whether the failure is the HTTP status 404, "Not Found".
    pub open spec fn is_not_found(self) -> bool {
        self matches TransportErrorView::Http { code, .. } && code == 404
    }
}

/// A failed download, with what was being downloaded and from where.
#[derive(Debug, PartialEq, Eq)]
pub struct DownloadFailure {
    pub tool: ToolSpec,
    pub from_url: String,
    pub error: TransportError,
}

/// Why a tool could not be provided.
#[derive(Debug, PartialEq, Eq)]
pub enum ErrorDetails {
    /// The requested version does not exist at the source: most likely a
    /// mistyped or unpublished version.
    DownloadToolNotFound { tool: ToolSpec },
    /// The download failed for any other reason, and may succeed when tried
    /// again.
    DownloadToolNetworkError {
        tool: ToolSpec,
        /// The failure in the words of the transport layer.
        error: String,
        from_url: String,
    },
    /// An archive on disk does not hold the version that was claimed for it.
    LocalArchiveMismatch { tool: ToolSpec },
}

/// The mathematical value of an [`ErrorDetails`].
pub enum ErrorDetailsView {
    DownloadToolNotFound { tool: ToolSpecView },
    DownloadToolNetworkError { tool: ToolSpecView, error: Seq<char>, from_url: Seq<char> },
    LocalArchiveMismatch { tool: ToolSpecView },
}

impl View for ErrorDetails {
    type V = ErrorDetailsView;

    open spec fn view(&self) -> ErrorDetailsView {
        match *self {
            ErrorDetails::DownloadToolNotFound { tool } => ErrorDetailsView::DownloadToolNotFound {
                tool: tool@,
            },
            ErrorDetails::DownloadToolNetworkError {
                tool,
                error,
                from_url,
            } => ErrorDetailsView::DownloadToolNetworkError {
                tool: tool@,
                error: error@,
                from_url: from_url@,
            },
            ErrorDetails::LocalArchiveMismatch { tool } => ErrorDetailsView::LocalArchiveMismatch {
                tool: tool@,
            },
        }
    }
}

} // verus!
