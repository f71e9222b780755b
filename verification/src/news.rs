//! The news-source client: endpoint and country selectors, request URL
//! construction over the fixed provider base address, the response envelope,
//! and the closed error taxonomy with the provider error-code mapping.

use vstd::prelude::*;
use vstd::string::*;

verus! {

/// The errors a fetch attempt can surface. Every variant is terminal for the
/// single attempt it arose in; nothing is retried inside this crate.
#[derive(Debug, PartialEq, Eq)]
pub enum NewsApiError {
    /// The network transport failed before a response body was available.
    TransportError,
    /// The response body could not be read as text.
    DecodeError,
    /// The body was not a well-formed envelope.
    ParseError,
    /// The request URL could not be composed.
    UrlError,
    /// The provider answered with a non-ok status; the payload is the
    /// human-readable reason mapped from the provider's error code.
    Rejected(String),
    /// The worker behind a handle has terminated and its channel is gone.
    ChannelClosed,
}

/// The endpoint selector. A single endpoint is supported.
pub enum Endpoint {
    TopHeadlines,
}

/// The country selector. A single country is supported.
pub enum Country {
    Us,
}

/// The path segment each endpoint stands for on the wire.
pub open spec fn endpoint_view(e: Endpoint) -> Seq<char> {
    match e {
        Endpoint::TopHeadlines => "top-headlines"@,
    }
}

/// The country code each country stands for on the wire.
pub open spec fn country_view(c: Country) -> Seq<char> {
    match c {
        Country::Us => "us"@,
    }
}

impl Endpoint {
    /// The path segment for this endpoint.
    pub fn to_string(&self) -> (r: String)
        ensures
            r@ == endpoint_view(*self),
    {
        match self {
            Endpoint::TopHeadlines => String::from_str("top-headlines"),
        }
    }
}

impl Country {
    /// The country code for this country.
    pub fn to_string(&self) -> (r: String)
        ensures
            r@ == country_view(*self),
    {
        match self {
            Country::Us => String::from_str("us"),
        }
    }
}

/// The reason a non-ok envelope is rejected with, mapped from the provider's
/// optional error code: the disabled-key code has its own reason, and every
/// other or absent code maps to the unknown-error reason.
pub open spec fn reason_view(code: Option<String>) -> Seq<char> {
    match code {
        Some(c) => if c@ == "apiKeyDisabled"@ {
            "API key disabled"@
        } else {
            "unknown error"@
        },
        None => "unknown error"@,
    }
}

/// Maps the provider's optional error code to the rejection it stands for.
/// Total over every code, known or not: no input panics.
pub fn map_response_err(code: Option<String>) -> (e: NewsApiError)
    ensures
        e matches NewsApiError::Rejected(r) && r@ == reason_view(code),
{
    match code {
        Some(c) => {
            if c == String::from_str("apiKeyDisabled") {
                NewsApiError::Rejected(String::from_str("API key disabled"))
            } else {
                NewsApiError::Rejected(String::from_str("unknown error"))
            }
        },
        None => NewsApiError::Rejected(String::from_str("unknown error")),
    }
}

/// One raw article record as it arrives from the wire. Nothing is validated
/// for non-emptiness; the consumer owns fallback display values.
pub struct Article {
    pub title: String,
    pub url: String,
    pub description: Option<String>,
}

impl Article {
    /// A record from its wire fields.
    pub fn new(title: String, url: String, description: Option<String>) -> (r: Self)
        ensures
            r == (Article { title, url, description }),
    {
        Article { title, url, description }
    }

    /// The article's title.
    pub fn title(&self) -> (r: &str)
        ensures
            r@ == self.title@,
    {
        self.title.as_str()
    }

    /// The article's link.
    pub fn url(&self) -> (r: &str)
        ensures
            r@ == self.url@,
    {
        self.url.as_str()
    }

    /// The article's description, if the provider sent one.
    pub fn description(&self) -> (r: &Option<String>)
        ensures
            r == self.description,
    {
        &self.description
    }
}

/// The top-level parsed response: a status flag, the ordered article records,
/// and the provider's error code when the status is not ok.
pub struct NewsAPIResponse {
    pub status: String,
    pub articles: Vec<Article>,
    pub code: Option<String>,
}

impl NewsAPIResponse {
    /// An envelope from its parsed fields.
    pub fn new(status: String, articles: Vec<Article>, code: Option<String>) -> (r: Self)
        ensures
            r == (NewsAPIResponse { status, articles, code }),
    {
        NewsAPIResponse { status, articles, code }
    }

    /// The ordered article records of the envelope.
    pub fn articles(&self) -> (r: &Vec<Article>)
        ensures
            r == self.articles,
    {
        &self.articles
    }

    /// Accepts the envelope when its status is ok and rejects it otherwise,
    /// carrying the reason mapped from the provider's error code.
    pub fn validate(self) -> (r: Result<NewsAPIResponse, NewsApiError>)
        ensures
            self.status@ == "ok"@ ==> (r matches Ok(v) && v == self),
            self.status@ != "ok"@ ==> (r matches Err(e) && e matches NewsApiError::Rejected(s)
                && s@ == reason_view(self.code)),
    {
        if self.status == String::from_str("ok") {
            Ok(self)
        } else {
            Err(map_response_err(self.code))
        }
    }
}

/// The fixed base address of the provider.
pub open spec fn base_url_view() -> Seq<char> {
    "https://newsapi.org/v2"@
}

/// Characters that the url crate passes through a path segment or a query
/// string unchanged: no percent-encoding, no trimming, no special meaning.
pub open spec fn url_plain(s: Seq<char>) -> bool {
    forall|i: int|
        0 <= i < s.len() ==> ('a' <= #[trigger] s[i] <= 'z' || '0' <= s[i] <= '9' || s[i] == '-'
            || s[i] == '=')
}

/// Relies on url::Url (parse, path_segments_mut, push, set_query, as_str):
/// parsing the fixed base address succeeds and keeps it verbatim, appending a
/// plain segment adds a slash and the segment, and setting a plain query adds
/// a question mark and the query, none of it re-encoded.
#[verifier::external_body]
fn compose_url(base: &str, segment: &str, query: &str) -> (r: Result<String, NewsApiError>)
    requires
        base@ == base_url_view(),
        url_plain(segment@),
        url_plain(query@),
    ensures
        r is Ok,
        r matches Ok(u) ==> u@ == base@ + "/"@ + segment@ + "?"@ + query@,
{
    let mut url = match url::Url::parse(base) {
        Ok(url) => url,
        Err(_) => return Err(NewsApiError::UrlError),
    };
    match url.path_segments_mut() {
        Ok(mut segments) => {
            segments.push(segment);
        },
        Err(()) => return Err(NewsApiError::UrlError),
    }
    url.set_query(Some(query));
    Ok(url.as_str().to_owned())
}

/// The request URL for an endpoint and country: the fixed base, the endpoint
/// path segment, and a single `country` query parameter.
pub open spec fn url_view(e: Endpoint, c: Country) -> Seq<char> {
    base_url_view() + "/"@ + endpoint_view(e) + "?"@ + "country="@ + country_view(c)
}

/// The client: the credential to authorize with and the request selectors.
pub struct NewsAPI {
    pub api_key: String,
    pub endpoint: Endpoint,
    pub country: Country,
}

impl NewsAPI {
    /// A client for the given credential, aimed at the default selectors.
    pub fn new(api_key: &str) -> (r: Self)
        ensures
            r.api_key@ == api_key@,
            r.endpoint is TopHeadlines,
            r.country is Us,
    {
        NewsAPI { api_key: api_key.to_owned(), endpoint: Endpoint::TopHeadlines, country: Country::Us }
    }

    /// Selects the endpoint to fetch from.
    pub fn endpoint(&mut self, endpoint: Endpoint) -> (r: &mut Self)
        ensures
            *r == (NewsAPI { endpoint, ..*old(self) }),
            *final(self) == *final(r),
    {
        self.endpoint = endpoint;
        self
    }

    /// Selects the country to fetch headlines for.
    pub fn country(&mut self, country: Country) -> (r: &mut Self)
        ensures
            *r == (NewsAPI { country, ..*old(self) }),
            *final(self) == *final(r),
    {
        self.country = country;
        self
    }

    /// The credential this client authorizes with.
    pub fn api_key(&self) -> (r: &String)
        ensures
            r@ == self.api_key@,
    {
        &self.api_key
    }

    /// Composes the request URL for the configured selectors: the fixed base
    /// address, the endpoint path segment, and the country query parameter.
    /// Composition cannot fail for the selectors this crate offers, and the
    /// contract says so; the error branch is surfaced rather than panicked on.
    pub fn prepare_url(&self) -> (r: Result<String, NewsApiError>)
        ensures
            r matches Ok(u) && u@ == url_view(self.endpoint, self.country),
    {
        let segment = self.endpoint.to_string();
        let country = self.country.to_string();
        let mut query = String::from_str("country=");
        query.append(country.as_str());
        proof {
            reveal_strlit("top-headlines");
            reveal_strlit("country=");
            reveal_strlit("us");
            assert(url_plain("top-headlines"@));
            assert(query@ == "country="@ + country_view(self.country));
            assert(url_plain(query@));
        }
        match compose_url("https://newsapi.org/v2", segment.as_str(), query.as_str()) {
            Ok(u) => Ok(u),
            Err(e) => Err(e),
        }
    }
}

} // verus!
