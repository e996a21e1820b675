//! The library's error type.

use vstd::prelude::*;
use crate::text::push_str;

verus! {

/// Errors of the media player. Failures that come from the file system or
/// from media decoding carry their message text.
#[derive(Debug)]
pub enum JalwaError {
    NotFound(String),
    Playback(String),
    Library(String),
    UnsupportedFormat(String),
    Database(String),
    Scanner(String),
    Io(String),
    Tarang(String),
}

/// The abstract value of a [`JalwaError`].
pub enum JalwaErrorView {
    NotFound(Seq<char>),
    Playback(Seq<char>),
    Library(Seq<char>),
    UnsupportedFormat(Seq<char>),
    Database(Seq<char>),
    Scanner(Seq<char>),
    Io(Seq<char>),
    Tarang(Seq<char>),
}

impl View for JalwaError {
    type V = JalwaErrorView;

    open spec fn view(&self) -> JalwaErrorView {
        match self {
            JalwaError::NotFound(m) => JalwaErrorView::NotFound(m@),
            JalwaError::Playback(m) => JalwaErrorView::Playback(m@),
            JalwaError::Library(m) => JalwaErrorView::Library(m@),
            JalwaError::UnsupportedFormat(m) => JalwaErrorView::UnsupportedFormat(m@),
            JalwaError::Database(m) => JalwaErrorView::Database(m@),
            JalwaError::Scanner(m) => JalwaErrorView::Scanner(m@),
            JalwaError::Io(m) => JalwaErrorView::Io(m@),
            JalwaError::Tarang(m) => JalwaErrorView::Tarang(m@),
        }
    }
}

impl JalwaErrorView {
    /// The message shown for an error: a prefix naming its kind, then the
    /// detail.
    pub open spec fn text(self) -> Seq<char> {
        match self {
            JalwaErrorView::NotFound(m) => "media not found: "@ + m,
            JalwaErrorView::Playback(m) => "playback error: "@ + m,
            JalwaErrorView::Library(m) => "library error: "@ + m,
            JalwaErrorView::UnsupportedFormat(m) => "unsupported format: "@ + m,
            JalwaErrorView::Database(m) => "database error: "@ + m,
            JalwaErrorView::Scanner(m) => "scanner error: "@ + m,
            JalwaErrorView::Io(m) => "I/O error: "@ + m,
            JalwaErrorView::Tarang(m) => "tarang error: "@ + m,
        }
    }
}

impl JalwaError {
    /// The error's message.
    pub fn to_string(&self) -> (res: String)
        ensures
            res@ == self@.text(),
    {
        let (prefix, m) = match self {
            JalwaError::NotFound(m) => ("media not found: ", m),
            JalwaError::Playback(m) => ("playback error: ", m),
            JalwaError::Library(m) => ("library error: ", m),
            JalwaError::UnsupportedFormat(m) => ("unsupported format: ", m),
            JalwaError::Database(m) => ("database error: ", m),
            JalwaError::Scanner(m) => ("scanner error: ", m),
            JalwaError::Io(m) => ("I/O error: ", m),
            JalwaError::Tarang(m) => ("tarang error: ", m),
        };
        let mut out = String::from_str(prefix);
        push_str(&mut out, m.as_str());
        out
    }
}

} // verus!
