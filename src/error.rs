use vstd::prelude::*;

verus! {

/// Failures surfaced by the bridge. Every failure is returned as a value.
#[derive(Debug, Clone, PartialEq, Eq)]
pub enum Error {
    /// A supplied path or location text could not be normalized into a module location.
    FailedToParseFilePathToUrl(String),
    /// Two auxiliary modules were given the same logical name.
    DuplicateSideModule(String),
    /// A failure reported by the engine's own error channel, or a rejected promise.
    DenoError(String),
    /// A value could not be converted between the host and the engine.
    FailedToConvertValue(String),
    /// An engine value that must exist could not be obtained.
    FailedToGetV8Value,
    /// The requested name is not in the export catalog computed at load time.
    UndefinedExport,
    /// Guest code threw during the synchronous part of a call.
    JsException(String),
    /// The exception translator was invoked while no exception was pending.
    UnexpectedState,
}

} // verus!

verus! {

/// The mathematical form of an [`Error`], with texts as character sequences.
pub enum ErrorView {
    ParseLocation(Seq<char>),
    DuplicateSideModule(Seq<char>),
    Engine(Seq<char>),
    Conversion(Seq<char>),
    MissingValue,
    UndefinedExport,
    Exception(Seq<char>),
    UnexpectedState,
}

impl View for Error {
    type V = ErrorView;

    open spec fn view(&self) -> ErrorView {
        match self {
            Error::FailedToParseFilePathToUrl(s) => ErrorView::ParseLocation(s@),
            Error::DuplicateSideModule(s) => ErrorView::DuplicateSideModule(s@),
            Error::DenoError(s) => ErrorView::Engine(s@),
            Error::FailedToConvertValue(s) => ErrorView::Conversion(s@),
            Error::FailedToGetV8Value => ErrorView::MissingValue,
            Error::UndefinedExport => ErrorView::UndefinedExport,
            Error::JsException(s) => ErrorView::Exception(s@),
            Error::UnexpectedState => ErrorView::UnexpectedState,
        }
    }
}

} // verus!
