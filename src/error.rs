use vstd::prelude::*;

verus! {

/// Every failure that the documentation pipeline reports to its caller.
#[derive(Debug)]
pub enum Error {
    /// A shared client could not be constructed.
    InitializeClient(String),
    /// The package registry failed to answer.
    CratesIoApi(String),
    /// The page transport failed.
    Http(String),
    /// A built-in structural selector is malformed.
    ScraperSelectorParse(String),
    /// The expected content region is absent from a page.
    HtmlMainContentNotFound(String),
    /// No storage could be set aside for a search index.
    CreateTempDir(String),
    /// Building or querying a search index failed.
    FuzzySearch(String),
    /// The keyword is not a valid query expression.
    FuzzySearchQueryParse(String),
}

/// The text that describes an error to the caller.
pub open spec fn message_spec(e: Error) -> Seq<char> {
    match e {
        Error::InitializeClient(m) => "Failed to initialize client: "@ + m@,
        Error::CratesIoApi(m) => "Network error: "@ + m@,
        Error::Http(m) => "HTTP request error: "@ + m@,
        Error::ScraperSelectorParse(m) => "Failed to parse CSS Selector: "@ + m@,
        Error::HtmlMainContentNotFound(m) => "Failed to parse HTML: "@ + m@,
        Error::CreateTempDir(_) => "Failed to create temporary directories."@,
        Error::FuzzySearch(m) => m@,
        Error::FuzzySearchQueryParse(m) => m@,
    }
}

fn prefixed(prefix: &str, detail: &String) -> (r: String)
    ensures
        r@ == prefix@ + detail@,
{
    let mut r = prefix.to_owned();
    r.append(detail.as_str());
    r
}

impl Error {
    /// The text that describes the error to the caller.
    pub fn message(&self) -> (r: String)
        ensures
            r@ == message_spec(*self),
    {
        match self {
            Error::InitializeClient(m) => prefixed("Failed to initialize client: ", m),
            Error::CratesIoApi(m) => prefixed("Network error: ", m),
            Error::Http(m) => prefixed("HTTP request error: ", m),
            Error::ScraperSelectorParse(m) => prefixed("Failed to parse CSS Selector: ", m),
            Error::HtmlMainContentNotFound(m) => prefixed("Failed to parse HTML: ", m),
            Error::CreateTempDir(_) => "Failed to create temporary directories.".to_owned(),
            Error::FuzzySearch(m) => m.clone(),
            Error::FuzzySearchQueryParse(m) => m.clone(),
        }
    }
}

} // verus!
