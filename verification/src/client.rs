use vstd::prelude::*;
use vstd::string::*;
use crate::endpoints::{Endpoints, DEFAULT_API_BASE_URL};
use crate::errors::{XbrlApiError, XbrlResult};
use crate::models::{ApiResponse, PaginationParams, QueryParams, SearchParams};
use crate::text::{spec_decimal, u64_to_string};

verus! {

/// The HTTP method of an API request.
#[derive(PartialEq, Eq, Structural, Clone, Copy, Debug)]
pub enum HttpMethod {
    Get,
    Post,
}

/// Everything a transport needs to perform one API call: the method, the
/// fully qualified URL, the authentication header, and the JSON body where
/// the call sends one.
#[derive(Debug)]
pub struct ApiRequest {
    pub method: HttpMethod,
    pub url: String,
    pub header_name: String,
    pub header_value: String,
    pub body: Option<String>,
}

/// What one HTTP exchange came to, as the transport reports it back.
///
/// The three cases are mutually exclusive: either the request never produced
/// an HTTP response, or a response arrived with a failure status and its body
/// was read as raw text, or a response arrived with a success status and its
/// body was parsed as the envelope (the parse itself may have failed).
pub enum HttpOutcome<T> {
    /// Transport-level failure (DNS, connect, timeout, TLS): no HTTP status
    /// was ever received.
    TransportFailure { message: String },
    /// A response with a non-success status. Error bodies need not conform to
    /// the envelope shape, so the body is carried as raw text.
    HttpFailure { status_code: u16, body: String },
    /// A response with a success status, its body parsed as the envelope;
    /// `Err` carries the parser's message where the body was malformed.
    HttpSuccess { status_code: u16, envelope: Result<ApiResponse<T>, String> },
}

/// The HTTP status codes that count as success.
pub open spec fn is_success_code(status_code: u16) -> bool {
    200 <= status_code < 300
}

/// Whether an HTTP status code counts as success (2xx).
pub fn is_success_status(status_code: u16) -> (r: bool)
    ensures
        r == is_success_code(status_code),
{
    200 <= status_code && status_code < 300
}

/// Turn the outcome of one HTTP exchange into the typed payload or one error.
///
/// The decision distinguishes, in this order of precedence: transport failure
/// (surfaced unchanged as `HttpError`); HTTP-level failure (`ApiError` whose
/// status code is the actual HTTP status and whose message is the raw body,
/// whatever shape that body has); a malformed envelope on a success status
/// (`SerializationError`); a success envelope with a present payload (the
/// payload, returned unchanged); and a success envelope without a payload
/// (`ApiError` carrying the envelope's message, or a fixed default where the
/// envelope has no message either).
pub fn resolve_response<T>(outcome: HttpOutcome<T>) -> (r: XbrlResult<T>)
    requires
        match outcome {
            HttpOutcome::TransportFailure { .. } => true,
            HttpOutcome::HttpFailure { status_code, .. } => !is_success_code(status_code),
            HttpOutcome::HttpSuccess { status_code, .. } => is_success_code(status_code),
        },
    ensures
        match outcome {
            HttpOutcome::TransportFailure { message } => r == Err::<T, XbrlApiError>(
                XbrlApiError::HttpError(message),
            ),
            HttpOutcome::HttpFailure { status_code, body } => r == Err::<T, XbrlApiError>(
                XbrlApiError::ApiError { status_code, message: body },
            ),
            HttpOutcome::HttpSuccess { status_code, envelope } => match envelope {
                Err(msg) => r == Err::<T, XbrlApiError>(XbrlApiError::SerializationError(msg)),
                Ok(env) => match env.data {
                    Some(payload) => r == Ok::<T, XbrlApiError>(payload),
                    None => match env.message {
                        Some(m) => r == Err::<T, XbrlApiError>(
                            XbrlApiError::ApiError { status_code, message: m },
                        ),
                        None => r matches Err(
                            XbrlApiError::ApiError { status_code: sc, message: msg },
                        ) && sc == status_code && msg@ == "No error message provided"@,
                    },
                },
            },
        },
{
    match outcome {
        HttpOutcome::TransportFailure { message } => Err(XbrlApiError::HttpError(message)),
        HttpOutcome::HttpFailure { status_code, body } => Err(
            XbrlApiError::ApiError { status_code, message: body },
        ),
        HttpOutcome::HttpSuccess { status_code, envelope } => match envelope {
            Err(msg) => Err(XbrlApiError::SerializationError(msg)),
            Ok(env) => match env.data {
                Some(payload) => Ok(payload),
                None => {
                    let message = match env.message {
                        Some(m) => m,
                        None => String::from_str("No error message provided"),
                    };
                    Err(XbrlApiError::ApiError { status_code, message })
                },
            },
        },
    }
}

/// XBRL API client configuration: an API key and an endpoint set.
///
/// The client decides what each resource call sends — the URL, the
/// authentication header and the optional JSON body — and what every outcome
/// means. A transport outside the library performs the exchange and hands the
/// outcome to `resolve_response`.
pub struct XbrlClient {
    api_key: String,
    endpoints: Endpoints,
}

impl XbrlClient {
    /// The configured API key.
    pub closed spec fn spec_api_key(&self) -> Seq<char> {
        self.api_key@
    }

    /// The configured base URL.
    pub closed spec fn spec_base_url(&self) -> Seq<char> {
        self.endpoints@
    }

    /// Create a new client with the default base URL.
    pub fn new(api_key: &str) -> (r: Self)
        ensures
            r.spec_api_key() == api_key@,
            r.spec_base_url() == DEFAULT_API_BASE_URL@,
    {
        XbrlClient { api_key: String::from_str(api_key), endpoints: Endpoints::default() }
    }

    /// Create a new client with a custom base URL.
    pub fn with_base_url(api_key: &str, base_url: &str) -> (r: Self)
        ensures
            r.spec_api_key() == api_key@,
            r.spec_base_url() == base_url@,
    {
        XbrlClient { api_key: String::from_str(api_key), endpoints: Endpoints::new(base_url) }
    }

    /// Set the base URL for the API endpoints.
    pub fn set_base_url(&mut self, base_url: &str)
        ensures
            final(self).spec_api_key() == old(self).spec_api_key(),
            final(self).spec_base_url() == base_url@,
    {
        self.endpoints = Endpoints::new(base_url);
    }

    /// The current base URL.
    pub fn base_url(&self) -> (r: &str)
        ensures
            r@ == self.spec_base_url(),
    {
        self.endpoints.base_url()
    }

    /// A request with the authentication header attached.
    fn request(&self, method: HttpMethod, url: String, body: Option<String>) -> (r: ApiRequest)
        ensures
            r.method == method,
            r.url == url,
            r.header_name@ == "X-API-KEY"@,
            r.header_value@ == self.spec_api_key(),
            r.body == body,
    {
        ApiRequest {
            method,
            url,
            header_name: String::from_str("X-API-KEY"),
            header_value: self.api_key.clone(),
            body,
        }
    }

    /// The request that fetches all taxonomies.
    pub fn taxonomies_request(&self) -> (r: ApiRequest)
        ensures
            r.method == HttpMethod::Get,
            r.url@ == self.spec_base_url() + "/taxonomies"@,
            r.header_name@ == "X-API-KEY"@,
            r.header_value@ == self.spec_api_key(),
            r.body is None,
    {
        self.request(HttpMethod::Get, self.endpoints.taxonomies(), None)
    }

    /// The request that fetches the reports of a taxonomy.
    pub fn reports_request(&self, taxonomy: &str) -> (r: ApiRequest)
        ensures
            r.method == HttpMethod::Get,
            r.url@ == self.spec_base_url() + "/reports?taxonomy="@ + taxonomy@,
            r.header_name@ == "X-API-KEY"@,
            r.header_value@ == self.spec_api_key(),
            r.body is None,
    {
        self.request(HttpMethod::Get, self.endpoints.reports(taxonomy), None)
    }

    /// The request that fetches the facts of a report.
    pub fn facts_request(&self, report_id: &str) -> (r: ApiRequest)
        ensures
            r.method == HttpMethod::Get,
            r.url@ == self.spec_base_url() + "/facts?reportId="@ + report_id@,
            r.header_name@ == "X-API-KEY"@,
            r.header_value@ == self.spec_api_key(),
            r.body is None,
    {
        self.request(HttpMethod::Get, self.endpoints.facts(report_id), None)
    }

    /// The request that fetches the concepts of a taxonomy.
    pub fn concepts_request(&self, taxonomy: &str) -> (r: ApiRequest)
        ensures
            r.method == HttpMethod::Get,
            r.url@ == self.spec_base_url() + "/concepts?taxonomy="@ + taxonomy@,
            r.header_name@ == "X-API-KEY"@,
            r.header_value@ == self.spec_api_key(),
            r.body is None,
    {
        self.request(HttpMethod::Get, self.endpoints.concepts(taxonomy), None)
    }

    /// The request that fetches the details of one concept.
    pub fn concept_details_request(&self, taxonomy: &str, concept_name: &str) -> (r: ApiRequest)
        ensures
            r.method == HttpMethod::Get,
            r.url@ == self.spec_base_url() + "/concepts/"@ + concept_name@ + "?taxonomy="@
                + taxonomy@,
            r.header_name@ == "X-API-KEY"@,
            r.header_value@ == self.spec_api_key(),
            r.body is None,
    {
        self.request(HttpMethod::Get, self.endpoints.concept_details(taxonomy, concept_name), None)
    }

    /// The request that fetches the dimensions of a taxonomy.
    pub fn dimensions_request(&self, taxonomy: &str) -> (r: ApiRequest)
        ensures
            r.method == HttpMethod::Get,
            r.url@ == self.spec_base_url() + "/dimensions?taxonomy="@ + taxonomy@,
            r.header_name@ == "X-API-KEY"@,
            r.header_value@ == self.spec_api_key(),
            r.body is None,
    {
        self.request(HttpMethod::Get, self.endpoints.dimensions(taxonomy), None)
    }

    /// The request that fetches the networks of a taxonomy.
    pub fn networks_request(&self, taxonomy: &str) -> (r: ApiRequest)
        ensures
            r.method == HttpMethod::Get,
            r.url@ == self.spec_base_url() + "/networks?taxonomy="@ + taxonomy@,
            r.header_name@ == "X-API-KEY"@,
            r.header_value@ == self.spec_api_key(),
            r.body is None,
    {
        self.request(HttpMethod::Get, self.endpoints.networks(taxonomy), None)
    }

    /// The request that fetches the details of one network.
    pub fn network_details_request(&self, network_id: &str) -> (r: ApiRequest)
        ensures
            r.method == HttpMethod::Get,
            r.url@ == self.spec_base_url() + "/networks/"@ + network_id@,
            r.header_name@ == "X-API-KEY"@,
            r.header_value@ == self.spec_api_key(),
            r.body is None,
    {
        self.request(HttpMethod::Get, self.endpoints.network_details(network_id), None)
    }

    /// The request that searches for facts: a POST whose JSON body carries
    /// the search parameters.
    pub fn search_request(&self, params: &SearchParams) -> (r: ApiRequest)
        ensures
            r.method == HttpMethod::Post,
            r.url@ == self.spec_base_url() + "/search"@,
            r.header_name@ == "X-API-KEY"@,
            r.header_value@ == self.spec_api_key(),
            match r.body {
                Some(b) => b@ == params.spec_json(),
                None => false,
            },
    {
        let body = params.to_json();
        self.request(HttpMethod::Post, self.endpoints.search(), Some(body))
    }

    /// Merge optional pagination parameters into a set of query parameters: a
    /// present field is added under its query key; an absent field adds no
    /// key at all.
    pub fn with_pagination(params: &mut QueryParams, pagination: Option<PaginationParams>)
        requires
            old(params).wf(),
        ensures
            final(params).wf(),
            final(params)@ == match pagination {
                None => old(params)@,
                Some(p) => match (p.page, p.page_size) {
                    (None, None) => old(params)@,
                    (Some(pg), None) => old(params)@.insert("page"@, spec_decimal(pg as nat)),
                    (None, Some(ps)) => old(params)@.insert("pageSize"@, spec_decimal(ps as nat)),
                    (Some(pg), Some(ps)) => old(params)@.insert("page"@, spec_decimal(pg as nat))
                        .insert("pageSize"@, spec_decimal(ps as nat)),
                },
            },
    {
        if let Some(pagination) = pagination {
            if let Some(page) = pagination.page {
                params.insert(String::from_str("page"), u64_to_string(page as u64));
            }
            if let Some(page_size) = pagination.page_size {
                params.insert(String::from_str("pageSize"), u64_to_string(page_size as u64));
            }
        }
    }
}

} // verus!
