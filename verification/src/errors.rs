//! The library's error type. Binding and input errors arise before any
//! network activity; the HTML-response error is the final configuration
//! check on a completed response.

use vstd::prelude::*;

verus! {

/// Everything that can go wrong while binding, resolving a body,
/// building a URL, or checking a final response.
#[derive(Debug, Clone, PartialEq, Eq)]
pub enum CliError {
    /// A required parameter had no supplied value; holds its flag.
    MissingRequiredParam { flag: String },
    /// A path parameter resolved to an empty value list; holds its flag.
    MissingPathValue { flag: String },
    /// An array parameter's single value looked like a JSON array
    /// literal but did not parse to a JSON array.
    InvalidJsonList,
    /// A declared, required request body had no supplied argument.
    MissingRequiredBody,
    /// A JSON-typed request body did not parse as JSON.
    InvalidJsonBody,
    /// A raw key=value argument had neither `:` nor `=`; holds the text.
    InvalidQueryArg { raw: String },
    /// The base URL joined with the request path is not a valid URL.
    InvalidUrl,
    /// The final response to an API path was an HTML page; holds the path.
    HtmlResponse { path: String },
}

/// The mathematical image of a `CliError`, with text as `Seq<char>`.
pub ghost enum CliErrorView {
    MissingRequiredParam(Seq<char>),
    MissingPathValue(Seq<char>),
    InvalidJsonList,
    MissingRequiredBody,
    InvalidJsonBody,
    InvalidQueryArg(Seq<char>),
    InvalidUrl,
    HtmlResponse(Seq<char>),
}

impl View for CliError {
    type V = CliErrorView;

    open spec fn view(&self) -> CliErrorView {
        match self {
            CliError::MissingRequiredParam { flag } => CliErrorView::MissingRequiredParam(flag@),
            CliError::MissingPathValue { flag } => CliErrorView::MissingPathValue(flag@),
            CliError::InvalidJsonList => CliErrorView::InvalidJsonList,
            CliError::MissingRequiredBody => CliErrorView::MissingRequiredBody,
            CliError::InvalidJsonBody => CliErrorView::InvalidJsonBody,
            CliError::InvalidQueryArg { raw } => CliErrorView::InvalidQueryArg(raw@),
            CliError::InvalidUrl => CliErrorView::InvalidUrl,
            CliError::HtmlResponse { path } => CliErrorView::HtmlResponse(path@),
        }
    }
}

impl CliError {
    /// The human-readable message for this error.
    pub fn message(&self) -> (r: String)
        ensures
            r@ == self.spec_message(),
    {
        match self {
            CliError::MissingRequiredParam { flag } => "missing required argument --"
                .to_owned().concat(flag.as_str()),
            CliError::MissingPathValue { flag } => "missing value for --".to_owned().concat(
                flag.as_str(),
            ),
            CliError::InvalidJsonList => "invalid JSON list".to_owned(),
            CliError::MissingRequiredBody => "missing required --body".to_owned(),
            CliError::InvalidJsonBody => "invalid JSON body".to_owned(),
            CliError::InvalidQueryArg { raw } => "invalid query param: ".to_owned().concat(
                raw.as_str(),
            ),
            CliError::InvalidUrl => "invalid base url".to_owned(),
            CliError::HtmlResponse { path } => "html response for ".to_owned().concat(
                path.as_str(),
            ).concat(". base url likely points to UI/marketing or auth is missing"),
        }
    }

    /// The message each variant carries.
    pub open spec fn spec_message(&self) -> Seq<char> {
        match self {
            CliError::MissingRequiredParam { flag } => "missing required argument --"@ + flag@,
            CliError::MissingPathValue { flag } => "missing value for --"@ + flag@,
            CliError::InvalidJsonList => "invalid JSON list"@,
            CliError::MissingRequiredBody => "missing required --body"@,
            CliError::InvalidJsonBody => "invalid JSON body"@,
            CliError::InvalidQueryArg { raw } => "invalid query param: "@ + raw@,
            CliError::InvalidUrl => "invalid base url"@,
            CliError::HtmlResponse { path } => "html response for "@ + path@
                + ". base url likely points to UI/marketing or auth is missing"@,
        }
    }
}

} // verus!
