//! What an operation on the browser can fail with.

use vstd::prelude::*;

verus! {

/// Why an operation on the browser failed.
#[derive(Debug, PartialEq, Eq)]
pub enum BrowserError {
    NotLaunched,
    NoPage,
    Cdp(String),
    Timeout(String),
    ElementNotFound(String),
    ProcessError(String),
}

/// The mathematical content of a [`BrowserError`].
#[verifier::ext_equal]
pub enum ErrorView {
    NotLaunched,
    NoPage,
    Cdp(Seq<char>),
    Timeout(Seq<char>),
    ElementNotFound(Seq<char>),
    ProcessError(Seq<char>),
}

impl DeepView for BrowserError {
    type V = ErrorView;

    open spec fn deep_view(&self) -> ErrorView {
        match self {
            BrowserError::NotLaunched => ErrorView::NotLaunched,
            BrowserError::NoPage => ErrorView::NoPage,
            BrowserError::Cdp(s) => ErrorView::Cdp(s@),
            BrowserError::Timeout(s) => ErrorView::Timeout(s@),
            BrowserError::ElementNotFound(s) => ErrorView::ElementNotFound(s@),
            BrowserError::ProcessError(s) => ErrorView::ProcessError(s@),
        }
    }
}

impl ErrorView {
    /// The message shown for the error.
    pub open spec fn message(self) -> Seq<char> {
        match self {
            ErrorView::NotLaunched => "Browser not launched"@,
            ErrorView::NoPage => "No active page"@,
            ErrorView::Cdp(s) => "CDP error: "@ + s,
            ErrorView::Timeout(s) => "Timeout: "@ + s,
            ErrorView::ElementNotFound(s) => "Element not found: "@ + s,
            ErrorView::ProcessError(s) => "Process error: "@ + s,
        }
    }
}

/// What a result says, with the content in place of the values.
pub open spec fn result_view<T: DeepView>(r: Result<T, BrowserError>) -> Result<T::V, ErrorView> {
    match r {
        Ok(t) => Ok(t.deep_view()),
        Err(e) => Err(e.deep_view()),
    }
}

impl BrowserError {
    /// The message shown for the error.
    pub fn message(&self) -> (r: String)
        ensures
            r@ == self.deep_view().message(),
    {
        match self {
            BrowserError::NotLaunched => "Browser not launched".to_owned(),
            BrowserError::NoPage => "No active page".to_owned(),
            BrowserError::Cdp(s) => "CDP error: ".to_owned().concat(s.as_str()),
            BrowserError::Timeout(s) => "Timeout: ".to_owned().concat(s.as_str()),
            BrowserError::ElementNotFound(s) => "Element not found: ".to_owned().concat(
                s.as_str(),
            ),
            BrowserError::ProcessError(s) => "Process error: ".to_owned().concat(s.as_str()),
        }
    }
}

/// What each error says, before what it was given to say.
pub proof fn lemma_messages(s: Seq<char>)
    ensures
        ErrorView::NotLaunched.message() == "Browser not launched"@,
        ErrorView::NoPage.message() == "No active page"@,
        ErrorView::Cdp(s).message() == "CDP error: "@ + s,
        ErrorView::Timeout(s).message() == "Timeout: "@ + s,
        ErrorView::ElementNotFound(s).message() == "Element not found: "@ + s,
        ErrorView::ProcessError(s).message() == "Process error: "@ + s,
{
}

} // verus!
