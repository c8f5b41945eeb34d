//! How an operation fails: with an error the caller can act on, or with an
//! abort, after which nothing can go on.

use vstd::prelude::*;

verus! {

/// A failure of the platform under the context.
#[derive(Debug, Clone, PartialEq, Eq)]
pub enum OsError {
    /// The rasterizer's library could not be loaded; the loader's own
    /// diagnostic.
    OsMesaLoadingError(String),
    /// Any other failure, described in words.
    Misc(String),
}

/// An error handed back to the caller, who may retry.
#[derive(Debug, Clone, PartialEq, Eq)]
pub enum Error {
    /// The robustness policy demands a guarantee that cannot be given.
    RobustnessNotSupported,
    /// An operation was called in a state that does not allow it.
    BadApiUsage(String),
    /// The platform failed.
    OsError(OsError),
}

/// An `Error` with each text as a sequence of characters.
pub enum ErrorView {
    RobustnessNotSupported,
    BadApiUsage(Seq<char>),
    OsMesaLoadingError(Seq<char>),
    Misc(Seq<char>),
}

impl View for Error {
    type V = ErrorView;

    open spec fn view(&self) -> ErrorView {
        match *self {
            Error::RobustnessNotSupported => ErrorView::RobustnessNotSupported,
            Error::BadApiUsage(text) => ErrorView::BadApiUsage(text@),
            Error::OsError(OsError::OsMesaLoadingError(text)) => ErrorView::OsMesaLoadingError(
                text@,
            ),
            Error::OsError(OsError::Misc(text)) => ErrorView::Misc(text@),
        }
    }
}

/// A condition under which no code path can go on. The caller stops the
/// process with `message`; none of these is ever returned as an `Error`.
#[derive(Debug, Clone, Copy, PartialEq, Eq, Structural)]
pub enum Abort {
    /// A context was to share resources with another one, for which the
    /// rasterizer has no mechanism.
    SharingNotPossible,
    /// The rasterizer refused to bind a context to a buffer, which only
    /// invalid arguments can cause.
    MakeCurrentFailed,
    /// The rasterizer refused to clear the current context, which older
    /// drivers cannot do: the operation is not implemented there, and the
    /// message says so.
    ClearCurrentUnsupported,
}

impl Abort {
    /// The text to stop with.
    pub open spec fn message_text(self) -> Seq<char> {
        match self {
            Abort::SharingNotPossible => "[glutin] Context sharing not possible with OsMesa"@,
            Abort::MakeCurrentFailed => "[glutin] OSMesaMakeCurrent failed"@,
            Abort::ClearCurrentUnsupported =>
                "not implemented: OSMesaMakeCurrent failed to make the context not current. This most likely means that you're using an older gallium-based mesa driver."@,
        }
    }

    /// The text to stop with, as `message_text` gives it.
    pub fn message(&self) -> (text: String)
        ensures
            text@ == self.message_text(),
    {
        match self {
            Abort::SharingNotPossible => "[glutin] Context sharing not possible with OsMesa".to_owned(),
            Abort::MakeCurrentFailed => "[glutin] OSMesaMakeCurrent failed".to_owned(),
            Abort::ClearCurrentUnsupported =>
                "not implemented: OSMesaMakeCurrent failed to make the context not current. This most likely means that you're using an older gallium-based mesa driver.".to_owned(),
        }
    }
}

} // verus!
