use vstd::prelude::*;

verus! {

/// Parameters of a package search on the registry.
pub struct SearchCrateParams {
    /// Keyword for searching packages; matched against package names.
    pub keyword: String,
}

/// One package summary as the registry reports it, with timestamps in RFC 3339 form.
pub struct SearchCrateResult {
    pub name: String,
    pub description: Option<String>,
    pub latest_stable_version: Option<String>,
    pub latest_version: String,
    pub downloads: u64,
    pub created_at: String,
    pub updated_at: String,
}

/// Parameters of a request for a package's top page or catalog.
pub struct RetrieveDocumentationIndexPageParams {
    /// Name of the package.
    pub crate_name: String,
    /// Package version: an exact version such as `1.0.0`, or `latest`.
    pub version: String,
}

/// Parameters of a request for one documentation page.
pub struct RetrieveDocumentationPageParams {
    /// Name of the package.
    pub crate_name: String,
    /// Package version: an exact version such as `1.0.0`, or `latest`.
    pub version: String,
    /// The exact link path of the page, starting with `/`.
    pub path: String,
}

/// Parameters of a keyword search over a package's catalog.
pub struct SearchDocumentationItemsParams {
    /// Name of the package.
    pub crate_name: String,
    /// Package version: an exact version such as `1.0.0`, or `latest`.
    pub version: String,
    /// Keyword(s) for searching the catalog's labels.
    pub keyword: String,
}

} // verus!
