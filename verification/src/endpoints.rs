use vstd::prelude::*;
use vstd::string::StringExecFns;

verus! {

/// Default base URL for the XBRL US API.
pub const DEFAULT_API_BASE_URL: &'static str = "https://api.xbrl.us/api/v1";

/// API endpoints: pure construction of request URLs from a configured base URL.
///
/// Inputs are caller-supplied identifiers and are not validated; a malformed
/// identifier simply yields a malformed URL, which surfaces later as a
/// transport or HTTP-level error.
pub struct Endpoints {
    base_url: String,
}

impl View for Endpoints {
    type V = Seq<char>;

    closed spec fn view(&self) -> Seq<char> {
        self.base_url@
    }
}

impl Default for Endpoints {
    /// An endpoint set rooted at the default API base URL.
    fn default() -> (r: Self)
        ensures
            r@ == DEFAULT_API_BASE_URL@,
    {
        Endpoints { base_url: String::from_str(DEFAULT_API_BASE_URL) }
    }
}

impl Endpoints {
    /// Create a new endpoint set with a custom base URL.
    pub fn new(base_url: &str) -> (r: Self)
        ensures
            r@ == base_url@,
    {
        Endpoints { base_url: String::from_str(base_url) }
    }

    /// The configured base URL.
    pub fn base_url(&self) -> (r: &str)
        ensures
            r@ == self@,
    {
        self.base_url.as_str()
    }

    /// Taxonomies endpoint.
    pub fn taxonomies(&self) -> (r: String)
        ensures
            r@ == self@ + "/taxonomies"@,
    {
        let mut url = self.base_url.clone();
        url.append("/taxonomies");
        url
    }

    /// Reports endpoint for a specific taxonomy.
    pub fn reports(&self, taxonomy: &str) -> (r: String)
        ensures
            r@ == self@ + "/reports?taxonomy="@ + taxonomy@,
    {
        let mut url = self.base_url.clone();
        url.append("/reports?taxonomy=");
        url.append(taxonomy);
        url
    }

    /// Facts endpoint for a specific report.
    pub fn facts(&self, report_id: &str) -> (r: String)
        ensures
            r@ == self@ + "/facts?reportId="@ + report_id@,
    {
        let mut url = self.base_url.clone();
        url.append("/facts?reportId=");
        url.append(report_id);
        url
    }

    /// Concepts endpoint for a specific taxonomy.
    pub fn concepts(&self, taxonomy: &str) -> (r: String)
        ensures
            r@ == self@ + "/concepts?taxonomy="@ + taxonomy@,
    {
        let mut url = self.base_url.clone();
        url.append("/concepts?taxonomy=");
        url.append(taxonomy);
        url
    }

    /// Concept details endpoint.
    pub fn concept_details(&self, taxonomy: &str, concept_name: &str) -> (r: String)
        ensures
            r@ == self@ + "/concepts/"@ + concept_name@ + "?taxonomy="@ + taxonomy@,
    {
        let mut url = self.base_url.clone();
        url.append("/concepts/");
        url.append(concept_name);
        url.append("?taxonomy=");
        url.append(taxonomy);
        url
    }

    /// Dimensions endpoint for a specific taxonomy.
    pub fn dimensions(&self, taxonomy: &str) -> (r: String)
        ensures
            r@ == self@ + "/dimensions?taxonomy="@ + taxonomy@,
    {
        let mut url = self.base_url.clone();
        url.append("/dimensions?taxonomy=");
        url.append(taxonomy);
        url
    }

    /// Networks endpoint for a specific taxonomy.
    pub fn networks(&self, taxonomy: &str) -> (r: String)
        ensures
            r@ == self@ + "/networks?taxonomy="@ + taxonomy@,
    {
        let mut url = self.base_url.clone();
        url.append("/networks?taxonomy=");
        url.append(taxonomy);
        url
    }

    /// Network details endpoint.
    pub fn network_details(&self, network_id: &str) -> (r: String)
        ensures
            r@ == self@ + "/networks/"@ + network_id@,
    {
        let mut url = self.base_url.clone();
        url.append("/networks/");
        url.append(network_id);
        url
    }

    /// Search endpoint.
    pub fn search(&self) -> (r: String)
        ensures
            r@ == self@ + "/search"@,
    {
        let mut url = self.base_url.clone();
        url.append("/search");
        url
    }
}

} // verus!
