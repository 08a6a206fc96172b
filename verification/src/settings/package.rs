//! What a package says of itself.

use vstd::prelude::*;

verus! {

/// The metadata of a package, shared by all package types.
#[derive(Debug, Clone)]
pub struct PackageSettings {
    /// The name shown to users.
    pub product_name: String,
    /// The version, such as `1.0.0`.
    pub version: String,
    /// A short description.
    pub description: String,
    /// The homepage, where there is one.
    pub homepage: Option<String>,
    /// The authors, each as `Name <address>`.
    pub authors: Option<Vec<String>>,
    /// The binary to run where the package holds several.
    pub default_run: Option<String>,
}

impl Default for PackageSettings {
    /// Empty texts and nothing optional.
    fn default() -> (r: PackageSettings)
        ensures
            r.product_name@.len() == 0,
            r.version@.len() == 0,
            r.description@.len() == 0,
            r.homepage is None,
            r.authors is None,
            r.default_run is None,
    {
        PackageSettings {
            product_name: String::new(),
            version: String::new(),
            description: String::new(),
            homepage: None,
            authors: None,
            default_run: None,
        }
    }
}

} // verus!
