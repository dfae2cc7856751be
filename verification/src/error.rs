//! The failures of cache resolution and staging.

use vstd::prelude::*;

verus! {

/// Why resolving or staging a tool failed.
#[derive(Debug)]
pub enum CacheError {
    /// An archive URL was given without an entry path.
    Configuration,
    /// The artifact could not be fetched; the text says why.
    Download(String),
    /// The archive could not be unpacked; the text says why.
    Extraction(String),
    /// A directory, file or permission operation failed; the text says why.
    Filesystem(String),
}

/// The mathematical content of a `CacheError`.
pub enum ErrorView {
    Configuration,
    Download(Seq<char>),
    Extraction(Seq<char>),
    Filesystem(Seq<char>),
}

impl View for CacheError {
    type V = ErrorView;

    open spec fn view(&self) -> ErrorView {
        match self {
            CacheError::Configuration => ErrorView::Configuration,
            CacheError::Download(detail) => ErrorView::Download(detail@),
            CacheError::Extraction(detail) => ErrorView::Extraction(detail@),
            CacheError::Filesystem(detail) => ErrorView::Filesystem(detail@),
        }
    }
}

/// The message of a configuration error.
pub open spec fn configuration_message() -> Seq<char> {
    "Archive URL requires --entry parameter"@
}

impl ErrorView {
    /// The human-readable text of this error.
    pub open spec fn message_text(self) -> Seq<char> {
        match self {
            ErrorView::Configuration => configuration_message(),
            ErrorView::Download(detail) => detail,
            ErrorView::Extraction(detail) => detail,
            ErrorView::Filesystem(detail) => detail,
        }
    }
}

impl Clone for CacheError {
    fn clone(&self) -> (copy: CacheError)
        ensures
            copy@ == self@,
    {
        match self {
            CacheError::Configuration => CacheError::Configuration,
            CacheError::Download(detail) => CacheError::Download(detail.clone()),
            CacheError::Extraction(detail) => CacheError::Extraction(detail.clone()),
            CacheError::Filesystem(detail) => CacheError::Filesystem(detail.clone()),
        }
    }
}

impl CacheError {
    /// The human-readable text of this error: a fixed sentence for a
    /// configuration error, else the detail that the failing step reported.
    pub fn message(&self) -> (text: String)
        ensures
            text@ == self@.message_text(),
    {
        match self {
            CacheError::Configuration => "Archive URL requires --entry parameter".to_owned(),
            CacheError::Download(detail) => detail.clone(),
            CacheError::Extraction(detail) => detail.clone(),
            CacheError::Filesystem(detail) => detail.clone(),
        }
    }
}

} // verus!
