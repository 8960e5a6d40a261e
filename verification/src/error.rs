//! Why a module could not be loaded.

use vstd::prelude::*;

verus! {

/// The ways in which loading a module fails. Each of them ends the load in
/// progress; none is recovered from or skipped.
#[derive(Clone, Debug, PartialEq, Eq)]
pub enum LoadError {
    /// The module's directory holds no manifest file.
    ManifestNotFound,
    /// The manifest is not well-formed, lacks a field, or holds a version or
    /// an address that is not valid.
    ManifestParseError,
    /// The platform loader could not open the module's library; the text is
    /// the loader's own diagnostic.
    LibraryOpenError(String),
    /// The library does not export the construction symbol.
    MissingEntryPointSymbol,
}

/// A load error as plain values.
pub enum LoadErrorView {
    ManifestNotFound,
    ManifestParseError,
    LibraryOpenError(Seq<char>),
    MissingEntryPointSymbol,
}

impl View for LoadError {
    type V = LoadErrorView;

    open spec fn view(&self) -> LoadErrorView {
        match self {
            LoadError::ManifestNotFound => LoadErrorView::ManifestNotFound,
            LoadError::ManifestParseError => LoadErrorView::ManifestParseError,
            LoadError::LibraryOpenError(diagnostic) => LoadErrorView::LibraryOpenError(
                diagnostic@,
            ),
            LoadError::MissingEntryPointSymbol => LoadErrorView::MissingEntryPointSymbol,
        }
    }
}

/// What `LoadError::message` says of an error.
pub open spec fn message_text(error: LoadErrorView) -> Seq<char> {
    match error {
        LoadErrorView::ManifestNotFound => "manifest not found"@,
        LoadErrorView::ManifestParseError => "manifest could not be parsed"@,
        LoadErrorView::LibraryOpenError(diagnostic) => "library could not be opened: "@
            + diagnostic,
        LoadErrorView::MissingEntryPointSymbol => "construction symbol is missing"@,
    }
}

impl LoadError {
    /// A one-line description for logs.
    pub fn message(&self) -> (text: String)
        ensures
            text@ == message_text(self@),
    {
        match self {
            LoadError::ManifestNotFound => "manifest not found".to_string(),
            LoadError::ManifestParseError => "manifest could not be parsed".to_string(),
            LoadError::LibraryOpenError(diagnostic) => {
                let mut text = "library could not be opened: ".to_string();
                text.append(diagnostic.as_str());
                text
            },
            LoadError::MissingEntryPointSymbol => "construction symbol is missing".to_string(),
        }
    }
}

} // verus!
